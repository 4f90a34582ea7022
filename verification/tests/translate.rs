use automancy::batch::GeometryCache;
use automancy::id::{Id, IdMap};
use automancy::resources::{DataIds, ModelIds, Registry, ResourceManager};
use automancy::translate::{is_translate_file, IdRaw, Interner, Translate, TranslateJson};

fn raw(namespace: &str, name: &str) -> IdRaw {
    IdRaw::new(namespace.to_string(), name.to_string())
}

fn entry(name: &str, text: &str) -> (IdRaw, String) {
    (raw("automancy", name), text.to_string())
}

fn resources() -> ResourceManager {
    ResourceManager {
        registry: Registry {
            none: Id(0),
            data_ids: DataIds { target: Id(0), link: Id(0), inactive_model: Id(0) },
            model_ids: ModelIds { cube1x1: Id(0), missing: Id(0), items_missing: Id(0) },
            tiles: IdMap::new(),
            items: IdMap::new(),
        },
        index_ranges: GeometryCache::new(),
        interner: Interner::new(),
        translates: Translate::default(),
    }
}

fn english() -> TranslateJson {
    TranslateJson {
        none: "<none>".to_string(),
        unnamed: "<unnamed>".to_string(),
        items: vec![entry("ore", "Ore"), entry("ingot", "Ingot")],
        tiles: vec![entry("miner", "Miner"), entry("ore", "Ore patch")],
        scripts: vec![],
        gui: vec![entry("btn_exit", "Exit")],
        error: vec![entry("invalid_map", "Invalid map!")],
    }
}

#[test]
fn interner_numbers_names_in_the_order_of_their_arrival() {
    let mut interner = Interner::new();
    assert_eq!(interner.get_or_intern(&raw("a", "x")), Id(0));
    assert_eq!(interner.get_or_intern(&raw("a", "y")), Id(1));
    assert_eq!(interner.get_or_intern(&raw("b", "x")), Id(2));
    assert_eq!(interner.get_or_intern(&raw("a", "x")), Id(0));
    assert_eq!(raw("a", "y").to_id(&mut interner), Id(1));
    assert_eq!(raw("", "").to_id(&mut interner), Id(3));
    assert_eq!(interner.len(), 4);
}

#[test]
fn interner_looks_up_without_adding() {
    let mut interner = Interner::new();
    assert_eq!(interner.get(&raw("a", "x")), None);
    interner.get_or_intern(&raw("a", "x"));
    assert_eq!(interner.get(&raw("a", "x")), Some(Id(0)));
    assert_eq!(interner.get(&raw("a", "X")), None);
    assert_eq!(interner.get(&raw("ax", "")), None);
    assert_eq!(interner.len(), 1);
    assert_eq!(interner.resolve(Id(0)), Some(&raw("a", "x")));
    assert_eq!(interner.resolve(Id(1)), None);
}

#[test]
fn load_translate_puts_texts_under_interned_keys() {
    let mut resources = resources();
    resources.load_translate(&english());
    let translates = &resources.translates;
    assert_eq!(translates.none, "<none>");
    assert_eq!(translates.unnamed, "<unnamed>");
    let id = |name: &str| resources.interner.get(&raw("automancy", name)).unwrap();
    assert_eq!((id("ore"), id("ingot"), id("miner")), (Id(0), Id(1), Id(2)));
    assert_eq!((id("btn_exit"), id("invalid_map")), (Id(3), Id(4)));
    assert_eq!(resources.interner.len(), 5);
    assert_eq!(translates.items.get(Id(0)), Some(&"Ore".to_string()));
    assert_eq!(translates.items.get(Id(1)), Some(&"Ingot".to_string()));
    assert_eq!(translates.items.get(Id(2)), None);
    assert_eq!(translates.tiles.get(Id(2)), Some(&"Miner".to_string()));
    assert_eq!(translates.tiles.get(Id(0)), Some(&"Ore patch".to_string()));
    assert_eq!(translates.scripts.get(Id(0)), None);
    assert_eq!(translates.gui.get(Id(3)), Some(&"Exit".to_string()));
    assert_eq!(translates.error.get(Id(4)), Some(&"Invalid map!".to_string()));
}

#[test]
fn load_translate_keeps_the_later_of_two_texts_for_one_key() {
    let mut resources = resources();
    let translate = TranslateJson {
        items: vec![entry("ore", "Ore"), entry("gem", "Gem"), entry("ore", "Rock")],
        ..TranslateJson::default()
    };
    resources.load_translate(&translate);
    assert_eq!(resources.translates.items.get(Id(0)), Some(&"Rock".to_string()));
    assert_eq!(resources.translates.items.get(Id(1)), Some(&"Gem".to_string()));
    assert_eq!(resources.interner.len(), 2);
}

#[test]
fn load_translate_replaces_the_texts_and_keeps_the_names() {
    let mut resources = resources();
    resources.load_translate(&english());
    let german = TranslateJson {
        none: "<nichts>".to_string(),
        items: vec![entry("ingot", "Barren")],
        ..TranslateJson::default()
    };
    resources.load_translate(&german);
    assert_eq!(resources.translates.none, "<nichts>");
    assert_eq!(resources.translates.unnamed, "");
    assert_eq!(resources.translates.items.get(Id(1)), Some(&"Barren".to_string()));
    assert_eq!(resources.translates.items.get(Id(0)), None);
    assert_eq!(resources.translates.gui.get(Id(3)), None);
    assert_eq!(resources.interner.len(), 5);
}

#[test]
fn translate_file_is_the_json_file_of_the_language() {
    assert!(is_translate_file(&"en_US.json".to_string()));
    assert!(!is_translate_file(&"en_US.toml".to_string()));
    assert!(!is_translate_file(&"en_US".to_string()));
    assert!(!is_translate_file(&"de_DE.json".to_string()));
    assert!(!is_translate_file(&"en_us.json".to_string()));
    assert!(!is_translate_file(&"en_US.json.bak".to_string()));
    assert!(!is_translate_file(&".json".to_string()));
    assert!(!is_translate_file(&"".to_string()));
}

#[test]
fn load_translates_takes_the_files_of_the_language_only() {
    let mut resources = resources();
    let german = TranslateJson {
        none: "<nichts>".to_string(),
        items: vec![entry("barren", "Barren")],
        ..TranslateJson::default()
    };
    let files = vec![
        ("de_DE.json".to_string(), german),
        ("en_US.json".to_string(), english()),
        ("notes.txt".to_string(), TranslateJson::default()),
    ];
    resources.load_translates(&files);
    assert_eq!(resources.translates.none, "<none>");
    assert_eq!(resources.translates.items.get(Id(0)), Some(&"Ore".to_string()));
    assert_eq!(resources.interner.get(&raw("automancy", "barren")), None);
    assert_eq!(resources.interner.len(), 5);
}

#[test]
fn load_translates_without_a_file_of_the_language_changes_nothing() {
    let mut resources = resources();
    resources.load_translates(&vec![("fr_FR.json".to_string(), english())]);
    resources.load_translates(&vec![]);
    assert_eq!(resources.translates.none, "");
    assert_eq!(resources.translates.items.get(Id(0)), None);
    assert_eq!(resources.interner.len(), 0);
}

#[test]
fn written_names_are_split_at_the_first_colon() {
    assert_eq!(IdRaw::parse("automancy:miner"), raw("automancy", "miner"));
    assert_eq!(IdRaw::parse("mod:a:b"), raw("mod", "a:b"));
    assert_eq!(IdRaw::parse("miner"), raw("automancy", "miner"));
    assert_eq!(IdRaw::parse(":miner"), raw("", "miner"));
    assert_eq!(IdRaw::parse("mod:"), raw("mod", ""));
    assert_eq!(IdRaw::parse(""), raw("automancy", ""));
    assert_eq!(IdRaw::parse("m\u{f6}d:erz\u{e4}"), raw("m\u{f6}d", "erz\u{e4}"));
}
