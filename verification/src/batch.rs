//! Batching instances by model: one contiguous run of instances and one
//! indirect draw for every model that occurs.

use crate::id::{Id, IdMap};
use std::collections::HashMap;
use vstd::prelude::*;
use vstd::seq_lib::{lemma_multiset_commutative, to_multiset_build, to_multiset_len};

verus! {

/// The part of the shared index buffer that holds one model.
#[derive(Clone, Copy, Debug, PartialEq, Eq, Structural)]
pub struct IndexRange {
    pub offset: u32,
    pub size: u32,
}

/// The index ranges of all known models.
pub type GeometryCache = IdMap<IndexRange>;

/// One indirect draw: the indices of a model, and the run of instances that
/// are drawn with it.
#[derive(Clone, Copy, Debug, PartialEq, Eq, Structural)]
pub struct IndirectDrawDescriptor {
    pub index_offset: u32,
    pub index_count: u32,
    pub instance_offset: u32,
    pub instance_count: u32,
}

/// The test for an instance of model `model`.
pub open spec fn has_model<T>(model: Id) -> spec_fn((T, Id)) -> bool {
    |instance: (T, Id)| instance.1 == model
}

/// The instances of one model, in the order in which they were given.
pub open spec fn of_model<T>(instances: Seq<(T, Id)>, model: Id) -> Seq<(T, Id)> {
    instances.filter(has_model(model))
}

/// The models of the instances.
pub open spec fn models<T>(instances: Seq<(T, Id)>) -> Seq<Id> {
    instances.map_values(|instance: (T, Id)| instance.1)
}

/// The models that occur, each once, in the order of their first instance.
pub open spec fn model_order<T>(instances: Seq<(T, Id)>) -> Seq<Id>
    decreases instances.len(),
{
    if instances.len() == 0 {
        Seq::empty()
    } else {
        let before = model_order(instances.drop_last());
        if before.contains(instances.last().1) {
            before
        } else {
            before.push(instances.last().1)
        }
    }
}

/// The instances of the models in `order`, model after model.
pub open spec fn concat_groups<T>(instances: Seq<(T, Id)>, order: Seq<Id>) -> Seq<(T, Id)>
    decreases order.len(),
{
    if order.len() == 0 {
        Seq::empty()
    } else {
        concat_groups(instances, order.drop_last()) + of_model(instances, order.last())
    }
}

/// The instances regrouped: those of the first model that occurs, then those
/// of the second, and so on; within a model, in the order given.
pub open spec fn grouped<T>(instances: Seq<(T, Id)>) -> Seq<(T, Id)> {
    concat_groups(instances, model_order(instances))
}

/// Where the run of the `k`-th model starts among the regrouped instances.
pub open spec fn group_start<T>(instances: Seq<(T, Id)>, k: int) -> nat {
    concat_groups(instances, model_order(instances).take(k)).len()
}

/// The draw for the `k`-th model that occurs.
pub open spec fn draw_of<T>(
    instances: Seq<(T, Id)>,
    geometry: Map<Id, IndexRange>,
    k: int,
) -> IndirectDrawDescriptor {
    let model = model_order(instances)[k];
    IndirectDrawDescriptor {
        index_offset: geometry[model].offset,
        index_count: geometry[model].size,
        instance_offset: group_start(instances, k) as u32,
        instance_count: of_model(instances, model).len() as u32,
    }
}

/// The draws for the regrouped instances: one for each model that occurs.
pub open spec fn draws_of<T>(
    instances: Seq<(T, Id)>,
    geometry: Map<Id, IndexRange>,
) -> Seq<IndirectDrawDescriptor> {
    Seq::new(model_order(instances).len(), |k: int| draw_of(instances, geometry, k))
}

/// The first model that occurs and that the cache does not know.
pub open spec fn first_unknown<T>(
    instances: Seq<(T, Id)>,
    geometry: Map<Id, IndexRange>,
) -> Option<Id> {
    let order = model_order(instances);
    if exists|k: int| 0 <= k < order.len() && !geometry.contains_key(#[trigger] order[k]) {
        let k = choose|k: int|
            0 <= k < order.len() && !geometry.contains_key(#[trigger] order[k]) && forall|j: int|
                0 <= j < k ==> geometry.contains_key(#[trigger] order[j]);
        Some(order[k])
    } else {
        None
    }
}

/// What batching gives: the regrouped instances with their draws, or the
/// reason why there is no batch.
pub open spec fn batched<T>(instances: Seq<(T, Id)>, geometry: Map<Id, IndexRange>) -> Result<
    (Seq<(T, Id)>, Seq<IndirectDrawDescriptor>),
    BatchError,
> {
    if instances.len() > u32::MAX {
        Err(BatchError::TooManyInstances)
    } else {
        match first_unknown(instances, geometry) {
            Some(model) => Err(BatchError::UnknownModel(model)),
            None => Ok((grouped(instances), draws_of(instances, geometry))),
        }
    }
}

/// [`model_order`] lists every model that occurs, no other, and none twice.
pub proof fn lemma_model_order<T>(instances: Seq<(T, Id)>)
    ensures
        model_order(instances).no_duplicates(),
        forall|model: Id|
            #[trigger] model_order(instances).contains(model) <==> exists|i: int|
                0 <= i < instances.len() && (#[trigger] instances[i]).1 == model,
        model_order(instances).len() <= instances.len(),
    decreases instances.len(),
{
    if instances.len() > 0 {
        let rest = instances.drop_last();
        let last = instances.last();
        lemma_model_order(rest);
        let before = model_order(rest);
        let order = model_order(instances);
        assert forall|model: Id| #[trigger] order.contains(model) <==> exists|i: int|
            0 <= i < instances.len() && (#[trigger] instances[i]).1 == model by {
            if order.contains(model) {
                if before.contains(model) {
                    let i = choose|i: int| 0 <= i < rest.len() && (#[trigger] rest[i]).1 == model;
                    assert(instances[i].1 == model);
                } else {
                    assert(model == last.1);
                    assert(instances[instances.len() - 1].1 == model);
                }
            }
            if exists|i: int| 0 <= i < instances.len() && (#[trigger] instances[i]).1 == model {
                let i = choose|i: int|
                    0 <= i < instances.len() && (#[trigger] instances[i]).1 == model;
                if i < rest.len() {
                    assert(rest[i].1 == model);
                    assert(before.contains(model));
                    let j = choose|j: int| 0 <= j < before.len() && before[j] == model;
                    assert(order[j] == model);
                } else {
                    if before.contains(model) {
                        let j = choose|j: int| 0 <= j < before.len() && before[j] == model;
                        assert(order[j] == model);
                    } else {
                        assert(order[before.len() as int] == model);
                    }
                }
            }
        }
    }
}

/// The models that occur are as many as [`model_order`] is long.
pub proof fn lemma_model_order_counts_models<T>(instances: Seq<(T, Id)>)
    ensures
        models(instances).to_set().finite(),
        model_order(instances).len() == models(instances).to_set().len(),
        model_order(instances).to_set() == models(instances).to_set(),
{
    lemma_model_order(instances);
    let order = model_order(instances);
    let all = models(instances);
    assert forall|model: Id| order.to_set().contains(model) <==> all.to_set().contains(model) by {
        if order.contains(model) {
            let i = choose|i: int| 0 <= i < instances.len() && (#[trigger] instances[i]).1 == model;
            assert(all[i] == model);
        }
        if all.contains(model) {
            let i = choose|i: int| 0 <= i < all.len() && all[i] == model;
            assert(instances[i].1 == model);
        }
    }
    assert(order.to_set() =~= all.to_set());
    order.unique_seq_to_set();
    vstd::seq_lib::seq_to_set_is_finite(all);
}

/// Filtering by a model keeps every copy of an instance of that model and
/// none of any other.
pub proof fn lemma_of_model_count<T>(instances: Seq<(T, Id)>, model: Id, instance: (T, Id))
    ensures
        of_model(instances, model).to_multiset().count(instance) == if instance.1 == model {
            instances.to_multiset().count(instance)
        } else {
            0
        },
    decreases instances.len(),
{
    broadcast use vstd::multiset::group_multiset_axioms;

    if instances.len() == 0 {
        assert(instances.filter(has_model::<T>(model)) =~= Seq::<(T, Id)>::empty()) by {
            instances.lemma_filter_len(has_model::<T>(model));
        }
        assert(instances.to_multiset().len() == 0) by {
            to_multiset_len(instances);
        }
        assert(of_model(instances, model).to_multiset().len() == 0) by {
            to_multiset_len(of_model(instances, model));
        }
    } else {
        let rest = instances.drop_last();
        let last = instances.last();
        assert(instances =~= rest.push(last));
        lemma_of_model_count(rest, model, instance);
        rest.lemma_filter_push(last, has_model::<T>(model));
        to_multiset_build(rest, last);
        if last.1 == model {
            to_multiset_build(of_model(rest, model), last);
        }
    }
}

/// Among the instances of the models in `order`, every instance whose model
/// is listed occurs as often as it was given, and no other occurs.
pub proof fn lemma_concat_groups_count<T>(
    instances: Seq<(T, Id)>,
    order: Seq<Id>,
    instance: (T, Id),
)
    requires
        order.no_duplicates(),
    ensures
        concat_groups(instances, order).to_multiset().count(instance) == if order.contains(
            instance.1,
        ) {
            instances.to_multiset().count(instance)
        } else {
            0
        },
    decreases order.len(),
{
    broadcast use vstd::multiset::group_multiset_axioms;

    if order.len() == 0 {
        assert(concat_groups(instances, order).to_multiset().len() == 0) by {
            to_multiset_len(concat_groups(instances, order));
        }
    } else {
        let before = order.drop_last();
        let model = order.last();
        lemma_concat_groups_count(instances, before, instance);
        lemma_of_model_count(instances, model, instance);
        lemma_multiset_commutative(concat_groups(instances, before), of_model(instances, model));
        if before.contains(instance.1) {
            let j = choose|j: int| 0 <= j < before.len() && before[j] == instance.1;
            assert(order[j] == instance.1);
            assert(order.contains(instance.1));
            assert(model != instance.1);
        } else if model == instance.1 {
            assert(order[order.len() - 1] == instance.1);
        } else {
            if order.contains(instance.1) {
                let j = choose|j: int| 0 <= j < order.len() && order[j] == instance.1;
                assert(before[j] == instance.1);
            }
        }
    }
}

/// Regrouping instances keeps each of them, as often as it was given.
pub proof fn lemma_grouped_is_permutation<T>(instances: Seq<(T, Id)>)
    ensures
        grouped(instances).to_multiset() == instances.to_multiset(),
        grouped(instances).len() == instances.len(),
{
    broadcast use vstd::multiset::group_multiset_axioms;

    lemma_model_order(instances);
    let order = model_order(instances);
    assert forall|instance: (T, Id)|
        grouped(instances).to_multiset().count(instance) == instances.to_multiset().count(
            instance,
        ) by {
        lemma_concat_groups_count(instances, order, instance);
        if !order.contains(instance.1) {
            if instances.to_multiset().count(instance) > 0 {
                vstd::seq_lib::to_multiset_contains(instances, instance);
                let i = choose|i: int| 0 <= i < instances.len() && instances[i] == instance;
                assert(instances[i].1 == instance.1);
            }
        }
    }
    assert(grouped(instances).to_multiset() =~= instances.to_multiset());
    to_multiset_len(grouped(instances));
    to_multiset_len(instances);
}

/// The run of the `k`-th model starts where the runs of the models before it
/// end, holds that model's instances, and ends within the regrouped instances.
pub proof fn lemma_group_runs<T>(instances: Seq<(T, Id)>, k: int)
    requires
        0 <= k < model_order(instances).len(),
    ensures
        group_start(instances, 0) == 0,
        group_start(instances, k + 1) == group_start(instances, k) + of_model(
            instances,
            model_order(instances)[k],
        ).len(),
        group_start(instances, k + 1) <= instances.len(),
        group_start(instances, model_order(instances).len() as int) == instances.len(),
        of_model(instances, model_order(instances)[k]).len() > 0,
        grouped(instances).subrange(
            group_start(instances, k) as int,
            group_start(instances, k + 1) as int,
        ) == of_model(instances, model_order(instances)[k]),
{
    let order = model_order(instances);
    let model = order[k];
    assert(order.take(k + 1).drop_last() =~= order.take(k));
    assert(order.take(k + 1).last() == model);
    assert(order.take(order.len() as int) =~= order);
    lemma_grouped_is_permutation(instances);
    lemma_concat_groups_prefix(instances, order, k + 1);
    lemma_concat_groups_prefix(instances, order, k);
    // the model occurs, so its run is not empty
    lemma_model_order(instances);
    assert(order.contains(model));
    let i = choose|i: int| 0 <= i < instances.len() && (#[trigger] instances[i]).1 == model;
    instances.lemma_filter_contains(has_model::<T>(model), i);
    let head = concat_groups(instances, order.take(k));
    let run = of_model(instances, model);
    assert((head + run).subrange(head.len() as int, (head + run).len() as int) =~= run);
    assert(grouped(instances).subrange(head.len() as int, (head.len() + run.len()) as int)
        =~= grouped(instances).take((head + run).len() as int).subrange(
        head.len() as int,
        (head + run).len() as int,
    ));
}

/// The instances of the first `k` models are the start of the instances of all.
pub proof fn lemma_concat_groups_prefix<T>(instances: Seq<(T, Id)>, order: Seq<Id>, k: int)
    requires
        0 <= k <= order.len(),
    ensures
        concat_groups(instances, order.take(k)).len() <= concat_groups(instances, order).len(),
        concat_groups(instances, order.take(k)) == concat_groups(instances, order).take(
            concat_groups(instances, order.take(k)).len() as int,
        ),
    decreases order.len() - k,
{
    if k == order.len() {
        assert(order.take(k) =~= order);
        assert(concat_groups(instances, order) =~= concat_groups(instances, order).take(
            concat_groups(instances, order).len() as int,
        ));
    } else {
        lemma_concat_groups_prefix(instances, order, k + 1);
        assert(order.take(k + 1).drop_last() =~= order.take(k));
        let head = concat_groups(instances, order.take(k));
        let next = concat_groups(instances, order.take(k + 1));
        assert(next == head + of_model(instances, order[k]));
        assert(head =~= next.take(head.len() as int));
        assert(head =~= concat_groups(instances, order).take(next.len() as int).take(
            head.len() as int,
        ));
    }
}

/// Why instances could not be batched.
#[derive(Clone, Copy, Debug, PartialEq, Eq, Structural)]
pub enum BatchError {
    /// An instance names a model whose index range is not known.
    UnknownModel(Id),
    /// There are more instances than a draw can count.
    TooManyInstances,
}

/// Instances regrouped by model, and the draw of every group.
#[derive(Debug, PartialEq, Eq)]
pub struct Batch<T> {
    pub instances: Vec<(T, Id)>,
    pub draws: Vec<IndirectDrawDescriptor>,
}

/// Whether `index` leads from every model in `order` to its place there,
/// and from no other model anywhere.
spec fn indexes(index: Map<usize, usize>, order: Seq<Id>) -> bool {
    &&& forall|k: int|
        0 <= k < order.len() ==> index.contains_key(#[trigger] order[k].0) && index[order[k].0]
            == k
    &&& forall|key: usize| #[trigger]
        index.contains_key(key) ==> index[key] < order.len() && order[index[key] as int].0 == key
}

/// Sorts the instances into one list for each model that occurs.
fn group_by_model<T: Copy>(instances: &Vec<(T, Id)>) -> (groups: (Vec<Id>, Vec<Vec<(T, Id)>>))
    ensures
        groups.0@ == model_order(instances@),
        groups.1@.len() == groups.0@.len(),
        forall|k: int|
            0 <= k < groups.0@.len() ==> (#[trigger] groups.1@[k])@ == of_model(
                instances@,
                groups.0@[k],
            ),
{
    let mut order: Vec<Id> = Vec::new();
    let mut lists: Vec<Vec<(T, Id)>> = Vec::new();
    let mut index: HashMap<usize, usize> = HashMap::new();
    let mut i: usize = 0;
    proof {
        assert(instances@.take(0) =~= Seq::<(T, Id)>::empty());
    }
    while i < instances.len()
        invariant
            i <= instances@.len(),
            order@ == model_order(instances@.take(i as int)),
            indexes(index@, order@),
            lists@.len() == order@.len(),
            forall|k: int|
                0 <= k < order@.len() ==> (#[trigger] lists@[k])@ == of_model(
                    instances@.take(i as int),
                    order@[k],
                ),
        decreases instances@.len() - i,
    {
        let instance = instances[i];
        let ghost before = instances@.take(i as int);
        let ghost after = instances@.take(i + 1);
        proof {
            assert(after.drop_last() =~= before);
            assert(after.last() == instance);
            assert(after =~= before.push(instance));
            lemma_model_order(before);
            assert forall|model: Id| #[trigger]
                of_model(after, model) == if instance.1 == model {
                    of_model(before, model).push(instance)
                } else {
                    of_model(before, model)
                } by {
                before.lemma_filter_push(instance, has_model::<T>(model));
            }
        }
        let found: Option<usize> = match index.get(&instance.1.0) {
            Some(k) => Some(*k),
            None => None,
        };
        proof {
            if found.is_none() && order@.contains(instance.1) {
                let at = choose|at: int| 0 <= at < order@.len() && order@[at] == instance.1;
                assert(index@.contains_key(order@[at].0));
            }
        }
        match found {
            Some(k) => {
                lists[k].push(instance);
                proof {
                    assert(order@.contains(instance.1));
                    assert forall|j: int| 0 <= j < order@.len() implies (#[trigger] lists@[j])@
                        == of_model(after, order@[j]) by {
                        if j != k {
                            assert(order@[j] != order@[k as int]);
                        }
                    }
                }
            },
            None => {
                proof {
                    // no earlier instance has this model
                    assert(of_model(before, instance.1).len() == 0) by {
                        if of_model(before, instance.1).len() > 0 {
                            let found = of_model(before, instance.1)[0];
                            before.lemma_filter_pred(has_model::<T>(instance.1), 0);
                            assert(of_model(before, instance.1).contains(found));
                            before.lemma_filter_contains_rev(has_model::<T>(instance.1), found);
                            let at = choose|at: int| 0 <= at < before.len() && before[at] == found;
                            assert(before[at].1 == instance.1);
                        }
                    }
                    assert(of_model(after, instance.1) =~= seq![instance]);
                }
                let mut list: Vec<(T, Id)> = Vec::new();
                list.push(instance);
                index.insert(instance.1.0, order.len());
                order.push(instance.1);
                lists.push(list);
                proof {
                    assert forall|j: int| 0 <= j < order@.len() implies (#[trigger] lists@[j])@
                        == of_model(after, order@[j]) by {
                        if j < order@.len() - 1 {
                            assert(order@[j] != instance.1);
                        }
                    }
                }
            },
        }
        i = i + 1;
    }
    proof {
        assert(instances@.take(i as int) =~= instances@);
    }
    (order, lists)
}

/// Regroups the instances by model and derives one draw for every model
/// that occurs. The instances of a model stay in the order given, and the
/// models follow each other in the order of their first instance.
///
/// Without instances there are no draws. No batch is made of more instances
/// than `u32::MAX`, nor where a model that occurs has no index range: the
/// error names the first such model.
pub fn batch<T: Copy>(instances: &Vec<(T, Id)>, geometry: &GeometryCache) -> (result: Result<
    Batch<T>,
    BatchError,
>)
    ensures
        match batched(instances@, geometry@) {
            Ok(expected) => {
                &&& result matches Ok(batch)
                &&& batch.instances@ == expected.0
                &&& batch.draws@ == expected.1
            },
            Err(error) => result == Err::<Batch<T>, BatchError>(error),
        },
{
    if instances.len() > u32::MAX as usize {
        return Err(BatchError::TooManyInstances);
    }
    let (order, lists) = group_by_model(instances);
    let mut out: Vec<(T, Id)> = Vec::new();
    let mut draws: Vec<IndirectDrawDescriptor> = Vec::new();
    let mut k: usize = 0;
    proof {
        assert(order@.take(0) =~= Seq::<Id>::empty());
    }
    while k < order.len()
        invariant
            instances@.len() <= u32::MAX,
            k <= order@.len(),
            order@ == model_order(instances@),
            lists@.len() == order@.len(),
            forall|j: int|
                0 <= j < order@.len() ==> (#[trigger] lists@[j])@ == of_model(
                    instances@,
                    order@[j],
                ),
            forall|j: int| 0 <= j < k ==> geometry@.contains_key(#[trigger] order@[j]),
            out@ == concat_groups(instances@, order@.take(k as int)),
            draws@.len() == k,
            forall|j: int| 0 <= j < k ==> #[trigger] draws@[j] == draw_of(instances@, geometry@, j),
        decreases order@.len() - k,
    {
        let model = order[k];
        let range = match geometry.get(model) {
            Some(range) => *range,
            None => {
                return Err(BatchError::UnknownModel(model));
            },
        };
        let list = &lists[k];
        proof {
            lemma_group_runs(instances@, k as int);
        }
        draws.push(
            IndirectDrawDescriptor {
                index_offset: range.offset,
                index_count: range.size,
                instance_offset: out.len() as u32,
                instance_count: list.len() as u32,
            },
        );
        let ghost head = out@;
        let mut j: usize = 0;
        while j < list.len()
            invariant
                j <= list@.len(),
                out@ == head + list@.take(j as int),
            decreases list@.len() - j,
        {
            out.push(list[j]);
            proof {
                assert(list@.take(j + 1) =~= list@.take(j as int).push(list@[j as int]));
                assert(out@ =~= head + list@.take(j + 1));
            }
            j = j + 1;
        }
        proof {
            assert(list@.take(j as int) =~= list@);
            assert(order@.take(k + 1).drop_last() =~= order@.take(k as int));
            assert(order@.take(k + 1).last() == model);
        }
        k = k + 1;
    }
    proof {
        assert(order@.take(k as int) =~= order@);
        assert(draws@ =~= draws_of(instances@, geometry@));
    }
    Ok(Batch { instances: out, draws })
}

/// The instances of a batch, cut at its draws, are the instances that were
/// given, sorted by model: the runs follow each other without a gap from the
/// first instance to the last, the run of a draw holds the instances of that
/// draw's model and no other, every model that occurs has one draw, and no
/// instance is lost or made.
pub proof fn lemma_batch_partitions<T>(instances: Seq<(T, Id)>, geometry: Map<Id, IndexRange>)
    requires
        instances.len() <= u32::MAX,
    ensures
        grouped(instances).to_multiset() == instances.to_multiset(),
        model_order(instances).no_duplicates(),
        draws_of(instances, geometry).len() == model_order(instances).len(),
        forall|k: int|
            0 <= k < model_order(instances).len() ==> {
                let draw = #[trigger] draws_of(instances, geometry)[k];
                let start = draw.instance_offset as int;
                let end = start + draw.instance_count;
                &&& draw.instance_count > 0
                &&& start == (if k == 0 {
                    0
                } else {
                    draws_of(instances, geometry)[k - 1].instance_offset + draws_of(
                        instances,
                        geometry,
                    )[k - 1].instance_count
                })
                &&& end <= instances.len()
                &&& (k == model_order(instances).len() - 1 ==> end == instances.len())
                &&& grouped(instances).subrange(start, end) == of_model(
                    instances,
                    model_order(instances)[k],
                )
            },
{
    lemma_grouped_is_permutation(instances);
    lemma_model_order(instances);
    let order = model_order(instances);
    assert forall|k: int| 0 <= k < order.len() implies {
        let draw = #[trigger] draws_of(instances, geometry)[k];
        let start = draw.instance_offset as int;
        let end = start + draw.instance_count;
        &&& draw.instance_count > 0
        &&& start == (if k == 0 {
            0
        } else {
            draws_of(instances, geometry)[k - 1].instance_offset + draws_of(
                instances,
                geometry,
            )[k - 1].instance_count
        })
        &&& end <= instances.len()
        &&& (k == order.len() - 1 ==> end == instances.len())
        &&& grouped(instances).subrange(start, end) == of_model(instances, order[k])
    } by {
        lemma_group_runs(instances, k);
        if k > 0 {
            lemma_group_runs(instances, k - 1);
        }
    }
}

/// A batch has as many draws as there are distinct models among its
/// instances, and none where there are no instances.
pub proof fn lemma_one_draw_per_model<T>(instances: Seq<(T, Id)>, geometry: Map<Id, IndexRange>)
    ensures
        models(instances).to_set().finite(),
        draws_of(instances, geometry).len() == models(instances).to_set().len(),
        instances.len() == 0 ==> draws_of(instances, geometry).len() == 0,
{
    lemma_model_order_counts_models(instances);
}

} // verus!
