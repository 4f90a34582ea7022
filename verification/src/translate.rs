//! Translations: the texts of a language, keyed by the identifiers of what
//! they name.

use crate::id::{Id, IdMap};
use crate::resources::ResourceManager;
use vstd::prelude::*;

verus! {

/// The name of a resource as it is written: a namespace and a name.
#[derive(Debug, PartialEq, Eq)]
pub struct IdRaw {
    pub namespace: String,
    pub name: String,
}

/// A written name as plain text.
pub type RawName = (Seq<char>, Seq<char>);

impl View for IdRaw {
    type V = RawName;

    open spec fn view(&self) -> RawName {
        (self.namespace@, self.name@)
    }
}

/// Where `name` first stands in `names`, looking from `from` on.
pub open spec fn first_at<T>(names: Seq<T>, name: T, from: int) -> Option<int>
    decreases names.len() - from,
{
    if from < 0 || from >= names.len() {
        None
    } else if names[from] == name {
        Some(from)
    } else {
        first_at(names, name, from + 1)
    }
}

/// The names after `name` was interned, and the identifier that it has: its
/// first place among the names, or a new place at their end.
pub open spec fn interned(names: Seq<RawName>, name: RawName) -> (Seq<RawName>, Id) {
    match first_at(names, name, 0) {
        Some(at) => (names, Id(at as usize)),
        None => (names.push(name), Id(names.len() as usize)),
    }
}

/// The names after the keys of `entries` were interned one after the other,
/// and the texts under the identifiers of their keys; where two keys are the
/// same name, the later text stays.
pub open spec fn interned_table(names: Seq<RawName>, entries: Seq<(RawName, Seq<char>)>) -> (
    Seq<RawName>,
    Map<Id, Seq<char>>,
)
    decreases entries.len(),
{
    if entries.len() == 0 {
        (names, Map::empty())
    } else {
        let (before, table) = interned_table(names, entries.drop_last());
        let (after, id) = interned(before, entries.last().0);
        (after, table.insert(id, entries.last().1))
    }
}

/// A table of texts as plain text.
pub open spec fn texts(table: Map<Id, String>) -> Map<Id, Seq<char>> {
    table.map_values(|text: String| text@)
}

/// The entries of a written table as plain text.
pub open spec fn written(entries: Seq<(IdRaw, String)>) -> Seq<(RawName, Seq<char>)> {
    entries.map_values(|entry: (IdRaw, String)| (entry.0@, entry.1@))
}

/// `first_at` finds the place where a name stands if it stands at none before.
proof fn lemma_first_at<T>(names: Seq<T>, name: T, from: int, at: int)
    requires
        0 <= from <= at,
        at <= names.len(),
        forall|j: int| from <= j < at ==> names[j] != name,
        at < names.len() ==> names[at] == name,
    ensures
        first_at(names, name, from) == (if at < names.len() {
            Some(at)
        } else {
            None
        }),
    decreases at - from,
{
    if from < at {
        lemma_first_at(names, name, from + 1, at);
    }
}

/// The written names that have an identifier: the identifier of a name is
/// its place here.
pub struct Interner {
    names: Vec<IdRaw>,
}

impl View for Interner {
    type V = Seq<RawName>;

    closed spec fn view(&self) -> Seq<RawName> {
        self.names@.map_values(|name: IdRaw| name@)
    }
}

impl Interner {
    /// No names.
    pub fn new() -> (interner: Interner)
        ensures
            interner@ == Seq::<RawName>::empty(),
    {
        let interner = Interner { names: Vec::new() };
        assert(interner@ =~= Seq::<RawName>::empty());
        interner
    }

    /// How many names have an identifier.
    pub fn len(&self) -> (len: usize)
        ensures
            len == self@.len(),
    {
        self.names.len()
    }

    /// The identifier of `name`, if it has one.
    pub fn get(&self, name: &IdRaw) -> (id: Option<Id>)
        ensures
            id == (match first_at(self@, name@, 0) {
                Some(at) => Some(Id(at as usize)),
                None => None,
            }),
    {
        let mut at: usize = 0;
        while at < self.names.len()
            invariant
                at <= self@.len(),
                self@.len() == self.names@.len(),
                forall|j: int| 0 <= j < at ==> self@[j] != name@,
            decreases self@.len() - at,
        {
            let held = &self.names[at];
            if held.namespace == name.namespace && held.name == name.name {
                proof {
                    assert(self@[at as int] == name@);
                    lemma_first_at(self@, name@, 0, at as int);
                }
                return Some(Id(at));
            }
            proof {
                assert(self@[at as int] == self.names@[at as int]@);
            }
            at = at + 1;
        }
        proof {
            lemma_first_at(self@, name@, 0, at as int);
        }
        None
    }

    /// The identifier of `name`, which is given one if it has none yet.
    pub fn get_or_intern(&mut self, name: &IdRaw) -> (id: Id)
        ensures
            final(self)@ == interned(old(self)@, name@).0,
            id == interned(old(self)@, name@).1,
    {
        match self.get(name) {
            Some(id) => id,
            None => {
                let at = self.names.len();
                self.names.push(IdRaw { namespace: name.namespace.clone(), name: name.name.clone() });
                proof {
                    assert(self@ =~= old(self)@.push(name@));
                }
                Id(at)
            },
        }
    }

    /// The written name behind an identifier.
    pub fn resolve(&self, id: Id) -> (name: Option<&IdRaw>)
        ensures
            id.0 < self@.len() ==> (name matches Some(held) && held@ == self@[id.0 as int]),
            id.0 >= self@.len() ==> name.is_none(),
    {
        if id.0 < self.names.len() {
            Some(&self.names[id.0])
        } else {
            None
        }
    }
}

/// The name that `text` writes: what stands before its first colon is the
/// namespace and what follows is the name; without a colon all of it is the
/// name, in the namespace of the game itself.
pub open spec fn parsed(text: Seq<char>) -> RawName {
    match first_at(text, ':', 0) {
        Some(colon) => (text.subrange(0, colon), text.subrange(colon + 1, text.len() as int)),
        None => ("automancy"@, text),
    }
}

impl IdRaw {
    pub fn new(namespace: String, name: String) -> (raw: IdRaw)
        ensures
            raw@ == (namespace@, name@),
    {
        IdRaw { namespace, name }
    }

    /// Reads a name written as `namespace:name`, or as `name` alone.
    pub fn parse(text: &str) -> (raw: IdRaw)
        ensures
            raw@ == parsed(text@),
    {
        let len = text.unicode_len();
        let mut at: usize = 0;
        while at < len
            invariant
                len == text@.len(),
                at <= len,
                forall|j: int| 0 <= j < at ==> text@[j] != ':',
            decreases len - at,
        {
            if text.get_char(at) == ':' {
                proof {
                    lemma_first_at(text@, ':', 0, at as int);
                }
                return IdRaw {
                    namespace: text.substring_char(0, at).to_owned(),
                    name: text.substring_char(at + 1, len).to_owned(),
                };
            }
            at = at + 1;
        }
        proof {
            lemma_first_at(text@, ':', 0, at as int);
        }
        IdRaw { namespace: "automancy".to_owned(), name: text.to_owned() }
    }

    /// The identifier of this name, which is given one if it has none yet.
    pub fn to_id(&self, interner: &mut Interner) -> (id: Id)
        ensures
            final(interner)@ == interned(old(interner)@, self@).0,
            id == interned(old(interner)@, self@).1,
    {
        interner.get_or_intern(self)
    }
}

/// The texts of a language as they are written down, keyed by written names.
#[derive(Debug)]
pub struct TranslateJson {
    pub none: String,
    pub unnamed: String,
    pub items: Vec<(IdRaw, String)>,
    pub tiles: Vec<(IdRaw, String)>,
    pub scripts: Vec<(IdRaw, String)>,
    pub gui: Vec<(IdRaw, String)>,
    pub error: Vec<(IdRaw, String)>,
}

/// The texts of a language, keyed by identifier.
pub struct Translate {
    pub none: String,
    pub unnamed: String,
    pub items: IdMap<String>,
    pub tiles: IdMap<String>,
    pub scripts: IdMap<String>,
    pub gui: IdMap<String>,
    pub error: IdMap<String>,
}

impl Default for TranslateJson {
    fn default() -> (translate: TranslateJson)
        ensures
            translate.none@ == Seq::<char>::empty(),
            translate.unnamed@ == Seq::<char>::empty(),
            translate.items@.len() == 0,
            translate.tiles@.len() == 0,
            translate.scripts@.len() == 0,
            translate.gui@.len() == 0,
            translate.error@.len() == 0,
    {
        TranslateJson {
            none: String::new(),
            unnamed: String::new(),
            items: Vec::new(),
            tiles: Vec::new(),
            scripts: Vec::new(),
            gui: Vec::new(),
            error: Vec::new(),
        }
    }
}

impl Default for Translate {
    fn default() -> (translate: Translate)
        ensures
            translate.none@ == Seq::<char>::empty(),
            translate.unnamed@ == Seq::<char>::empty(),
            translate.items@ == Map::<Id, String>::empty(),
            translate.tiles@ == Map::<Id, String>::empty(),
            translate.scripts@ == Map::<Id, String>::empty(),
            translate.gui@ == Map::<Id, String>::empty(),
            translate.error@ == Map::<Id, String>::empty(),
    {
        Translate {
            none: String::new(),
            unnamed: String::new(),
            items: IdMap::new(),
            tiles: IdMap::new(),
            scripts: IdMap::new(),
            gui: IdMap::new(),
            error: IdMap::new(),
        }
    }
}

/// Interns the keys of a written table and puts its texts under their
/// identifiers.
fn intern_table(interner: &mut Interner, entries: &Vec<(IdRaw, String)>) -> (table: IdMap<String>)
    ensures
        final(interner)@ == interned_table(old(interner)@, written(entries@)).0,
        texts(table@) == interned_table(old(interner)@, written(entries@)).1,
{
    let mut table: IdMap<String> = IdMap::new();
    let mut i: usize = 0;
    proof {
        assert(written(entries@).take(0) =~= Seq::<(RawName, Seq<char>)>::empty());
        assert(texts(table@) =~= Map::<Id, Seq<char>>::empty());
    }
    while i < entries.len()
        invariant
            i <= entries@.len(),
            interner@ == interned_table(old(interner)@, written(entries@).take(i as int)).0,
            texts(table@) == interned_table(old(interner)@, written(entries@).take(i as int)).1,
        decreases entries@.len() - i,
    {
        let ghost before = table@;
        let id = interner.get_or_intern(&entries[i].0);
        let text = entries[i].1.clone();
        table.insert(id, text);
        proof {
            let all = written(entries@);
            assert(all.take(i + 1).drop_last() =~= all.take(i as int));
            assert(all.take(i + 1).last() == (entries@[i as int].0@, entries@[i as int].1@));
            assert(texts(table@) =~= texts(before).insert(id, text@));
        }
        i = i + 1;
    }
    proof {
        assert(written(entries@).take(i as int) =~= written(entries@));
    }
    table
}

/// The written texts of a language as plain text.
pub struct TranslateJsonView {
    pub none: Seq<char>,
    pub unnamed: Seq<char>,
    pub items: Seq<(RawName, Seq<char>)>,
    pub tiles: Seq<(RawName, Seq<char>)>,
    pub scripts: Seq<(RawName, Seq<char>)>,
    pub gui: Seq<(RawName, Seq<char>)>,
    pub error: Seq<(RawName, Seq<char>)>,
}

impl View for TranslateJson {
    type V = TranslateJsonView;

    open spec fn view(&self) -> TranslateJsonView {
        TranslateJsonView {
            none: self.none@,
            unnamed: self.unnamed@,
            items: written(self.items@),
            tiles: written(self.tiles@),
            scripts: written(self.scripts@),
            gui: written(self.gui@),
            error: written(self.error@),
        }
    }
}

/// The texts of a language as plain text.
pub struct TranslateView {
    pub none: Seq<char>,
    pub unnamed: Seq<char>,
    pub items: Map<Id, Seq<char>>,
    pub tiles: Map<Id, Seq<char>>,
    pub scripts: Map<Id, Seq<char>>,
    pub gui: Map<Id, Seq<char>>,
    pub error: Map<Id, Seq<char>>,
}

impl View for Translate {
    type V = TranslateView;

    open spec fn view(&self) -> TranslateView {
        TranslateView {
            none: self.none@,
            unnamed: self.unnamed@,
            items: texts(self.items@),
            tiles: texts(self.tiles@),
            scripts: texts(self.scripts@),
            gui: texts(self.gui@),
            error: texts(self.error@),
        }
    }
}

/// The names and the texts after the written texts were taken over: the
/// tables are read in the order items, tiles, scripts, GUI, errors, every
/// key is interned, and every text is put under the identifier of its key.
pub open spec fn translated(names: Seq<RawName>, translate: TranslateJsonView) -> (
    Seq<RawName>,
    TranslateView,
) {
    let items = interned_table(names, translate.items);
    let tiles = interned_table(items.0, translate.tiles);
    let scripts = interned_table(tiles.0, translate.scripts);
    let gui = interned_table(scripts.0, translate.gui);
    let error = interned_table(gui.0, translate.error);
    (
        error.0,
        TranslateView {
            none: translate.none,
            unnamed: translate.unnamed,
            items: items.1,
            tiles: tiles.1,
            scripts: scripts.1,
            gui: gui.1,
            error: error.1,
        },
    )
}

/// The names and the texts after the files were gone through in their
/// order: every file of the language is taken over, every other file is
/// passed over.
pub open spec fn translated_files(
    names: Seq<RawName>,
    translates: TranslateView,
    files: Seq<(String, TranslateJson)>,
) -> (Seq<RawName>, TranslateView)
    decreases files.len(),
{
    if files.len() == 0 {
        (names, translates)
    } else {
        let before = translated_files(names, translates, files.drop_last());
        if is_translate_name(files.last().0@) {
            translated(before.0, files.last().1@)
        } else {
            before
        }
    }
}

/// Whether a file of this name holds the texts of the language: its stem
/// names the language, American English, and its extension is that of JSON.
pub open spec fn is_translate_name(file_name: Seq<char>) -> bool {
    file_name == "en_US.json"@
}

/// Computes [`is_translate_name`].
pub fn is_translate_file(file_name: &String) -> (selected: bool)
    ensures
        selected == is_translate_name(file_name@),
{
    let wanted = "en_US.json".to_owned();
    *file_name == wanted
}

impl ResourceManager {
    /// Takes the texts of `translate` as the texts of the language, in place
    /// of those that were there, and interns their keys.
    pub fn load_translate(&mut self, translate: &TranslateJson)
        ensures
            (final(self).interner@, final(self).translates@) == translated(
                old(self).interner@,
                translate@,
            ),
            final(self).registry == old(self).registry,
            final(self).index_ranges == old(self).index_ranges,
    {
        let items = intern_table(&mut self.interner, &translate.items);
        let tiles = intern_table(&mut self.interner, &translate.tiles);
        let scripts = intern_table(&mut self.interner, &translate.scripts);
        let gui = intern_table(&mut self.interner, &translate.gui);
        let error = intern_table(&mut self.interner, &translate.error);
        self.translates = Translate {
            none: translate.none.clone(),
            unnamed: translate.unnamed.clone(),
            items,
            tiles,
            scripts,
            gui,
            error,
        };
    }

    /// Goes through the files of a directory of translations, each given by
    /// its name and its written texts, and takes over those of the language.
    pub fn load_translates(&mut self, files: &Vec<(String, TranslateJson)>)
        ensures
            (final(self).interner@, final(self).translates@) == translated_files(
                old(self).interner@,
                old(self).translates@,
                files@,
            ),
            final(self).registry == old(self).registry,
            final(self).index_ranges == old(self).index_ranges,
    {
        let mut i: usize = 0;
        proof {
            assert(files@.take(0) =~= Seq::<(String, TranslateJson)>::empty());
        }
        while i < files.len()
            invariant
                i <= files@.len(),
                (self.interner@, self.translates@) == translated_files(
                    old(self).interner@,
                    old(self).translates@,
                    files@.take(i as int),
                ),
                self.registry == old(self).registry,
                self.index_ranges == old(self).index_ranges,
            decreases files@.len() - i,
        {
            if is_translate_file(&files[i].0) {
                self.load_translate(&files[i].1);
            }
            proof {
                assert(files@.take(i + 1).drop_last() =~= files@.take(i as int));
                assert(files@.take(i + 1).last() == files@[i as int]);
            }
            i = i + 1;
        }
        proof {
            assert(files@.take(i as int) =~= files@);
        }
    }
}

} // verus!
