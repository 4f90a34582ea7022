use automancy::batch::{
    batch, Batch, BatchError, GeometryCache, IndexRange, IndirectDrawDescriptor,
};
use automancy::id::Id;

fn geometry() -> GeometryCache {
    let mut geometry = GeometryCache::new();
    geometry.insert(Id(1), IndexRange { offset: 0, size: 36 });
    geometry.insert(Id(2), IndexRange { offset: 36, size: 12 });
    geometry.insert(Id(3), IndexRange { offset: 48, size: 6 });
    geometry
}

#[test]
fn batch_of_nothing_has_no_draws() {
    let instances: Vec<(u8, Id)> = Vec::new();
    let made = batch(&instances, &geometry()).unwrap();
    assert!(made.instances.is_empty());
    assert!(made.draws.is_empty());
}

#[test]
fn batch_groups_by_model_in_order_of_first_instance() {
    let instances = vec![(10u8, Id(2)), (11, Id(1)), (12, Id(2)), (13, Id(3)), (14, Id(1))];
    let made = batch(&instances, &geometry()).unwrap();
    assert_eq!(
        made,
        Batch {
            instances: vec![(10, Id(2)), (12, Id(2)), (11, Id(1)), (14, Id(1)), (13, Id(3))],
            draws: vec![
                IndirectDrawDescriptor {
                    index_offset: 36,
                    index_count: 12,
                    instance_offset: 0,
                    instance_count: 2,
                },
                IndirectDrawDescriptor {
                    index_offset: 0,
                    index_count: 36,
                    instance_offset: 2,
                    instance_count: 2,
                },
                IndirectDrawDescriptor {
                    index_offset: 48,
                    index_count: 6,
                    instance_offset: 4,
                    instance_count: 1,
                },
            ],
        }
    );
}

#[test]
fn batch_keeps_every_instance_once() {
    let instances = vec![(1u8, Id(3)), (2, Id(1)), (3, Id(3)), (4, Id(3)), (5, Id(2)), (6, Id(1))];
    let made = batch(&instances, &geometry()).unwrap();
    let mut given = instances.clone();
    let mut kept = made.instances.clone();
    given.sort();
    kept.sort();
    assert_eq!(given, kept);
}

#[test]
fn batch_has_one_draw_for_each_model() {
    let instances = vec![(1u8, Id(3)), (2, Id(1)), (3, Id(3)), (4, Id(3)), (5, Id(1))];
    let made = batch(&instances, &geometry()).unwrap();
    assert_eq!(made.draws.len(), 2);
    let mut next = 0;
    for draw in &made.draws {
        assert_eq!(draw.instance_offset, next);
        assert!(draw.instance_count > 0);
        let run = &made.instances[draw.instance_offset as usize
            ..(draw.instance_offset + draw.instance_count) as usize];
        assert!(run.iter().all(|instance| instance.1 == run[0].1));
        next = draw.instance_offset + draw.instance_count;
    }
    assert_eq!(next as usize, instances.len());
}

#[test]
fn batch_of_one_model_is_one_run_in_the_order_given() {
    let instances = vec![(7u8, Id(1)), (8, Id(1)), (9, Id(1))];
    let made = batch(&instances, &geometry()).unwrap();
    assert_eq!(made.instances, instances);
    assert_eq!(
        made.draws,
        vec![IndirectDrawDescriptor {
            index_offset: 0,
            index_count: 36,
            instance_offset: 0,
            instance_count: 3,
        }]
    );
}

#[test]
fn batch_names_the_first_unknown_model() {
    let instances = vec![(1u8, Id(1)), (2, Id(9)), (3, Id(8)), (4, Id(2))];
    assert_eq!(batch(&instances, &geometry()), Err(BatchError::UnknownModel(Id(9))));
}

#[test]
fn geometry_cache_replaces_a_range() {
    let mut geometry = geometry();
    assert_eq!(geometry.get(Id(2)), Some(&IndexRange { offset: 36, size: 12 }));
    assert_eq!(geometry.get(Id(7)), None);
    assert!(!geometry.contains_key(Id(7)));
    geometry.insert(Id(2), IndexRange { offset: 1, size: 2 });
    assert_eq!(geometry.get(Id(2)), Some(&IndexRange { offset: 1, size: 2 }));
}
