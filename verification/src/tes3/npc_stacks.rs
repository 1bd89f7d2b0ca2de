//! How the items of an NPC change are counted: each `NPCO` field starts a stack whose items'
//! counts always sum to the field's count, however many single items are split off it.

use vstd::prelude::*;

use crate::plugin::FieldModel;
use crate::tags::NPCO;
use crate::tes3::form::word;
use crate::tes3::npc_change::{
    npc_change_from_fields, npcc_fold, npcc_init, npcc_step, InventoryItemModel, NpccOutcome,
    NpccState,
};

verus! {

/// The counts of the `NPCO` fields among `fields`, in order.
pub open spec fn npco_counts(fields: Seq<FieldModel>) -> Seq<int>
    decreases fields.len(),
{
    if fields.len() == 0 {
        Seq::empty()
    } else if fields.last().name == NPCO@ {
        npco_counts(fields.drop_last()).push(word(fields.last().data, 0) as int)
    } else {
        npco_counts(fields.drop_last())
    }
}

/// The sum of the counts of some items.
pub open spec fn count_sum(items: Seq<InventoryItemModel>) -> int
    decreases items.len(),
{
    if items.len() == 0 {
        0
    } else {
        count_sum(items.drop_last()) + items.last().count
    }
}

/// The sum of some numbers.
pub open spec fn total(xs: Seq<int>) -> int
    decreases xs.len(),
{
    if xs.len() == 0 {
        0
    } else {
        total(xs.drop_last()) + xs.last()
    }
}

/// Where stack `s` of a reading state ends: where the next stack begins, or at the end of the
/// inventory for the last stack.
pub open spec fn stack_end(st: NpccState, s: int) -> int {
    if s + 1 < st.base_indexes.len() {
        st.base_indexes[s + 1] as int
    } else {
        st.m.inventory.len() as int
    }
}

/// The stacks of a reading state: they follow each other from the front of the inventory,
/// each holds at least its first item, the current stack is the last, and the counts of each
/// stack's items sum to the count its `NPCO` field gave.
pub open spec fn stacks_hold(st: NpccState, counts: Seq<int>) -> bool {
    &&& st.base_indexes.len() == counts.len()
    &&& counts.len() == 0 ==> st.m.inventory.len() == 0
    &&& counts.len() > 0 ==> st.base_indexes[0] == 0 && st.stack_start == st.base_indexes.last()
    &&& forall|s: int|
        0 <= s < counts.len() ==> #[trigger] st.base_indexes[s] < stack_end(st, s)
            <= st.m.inventory.len()
    &&& forall|s: int|
        0 <= s < counts.len() ==> count_sum(
            st.m.inventory.subrange(#[trigger] st.base_indexes[s] as int, stack_end(st, s)),
        ) == counts[s]
}

proof fn lemma_count_sum_update(items: Seq<InventoryItemModel>, i: int, x: InventoryItemModel)
    requires
        0 <= i < items.len(),
    ensures
        count_sum(items.update(i, x)) == count_sum(items) - items[i].count + x.count,
    decreases items.len(),
{
    let u = items.update(i, x);
    if i < items.len() - 1 {
        assert(u.drop_last() =~= items.drop_last().update(i, x));
        lemma_count_sum_update(items.drop_last(), i, x);
    } else {
        assert(u.drop_last() =~= items.drop_last());
    }
}

proof fn lemma_count_sum_same_counts(a: Seq<InventoryItemModel>, b: Seq<InventoryItemModel>)
    requires
        a.len() == b.len(),
        forall|k: int| 0 <= k < a.len() ==> #[trigger] a[k].count == b[k].count,
    ensures
        count_sum(a) == count_sum(b),
    decreases a.len(),
{
    if a.len() > 0 {
        lemma_count_sum_same_counts(a.drop_last(), b.drop_last());
    }
}

proof fn lemma_count_sum_append(a: Seq<InventoryItemModel>, b: Seq<InventoryItemModel>)
    ensures
        count_sum(a + b) == count_sum(a) + count_sum(b),
    decreases b.len(),
{
    if b.len() == 0 {
        assert(a + b =~= a);
    } else {
        assert((a + b).drop_last() =~= a + b.drop_last());
        lemma_count_sum_append(a, b.drop_last());
    }
}

proof fn lemma_count_sum_filter(items: Seq<InventoryItemModel>)
    ensures
        count_sum(kept_items(items)) == count_sum(items),
    decreases items.len(),
{
    reveal(Seq::filter);
    if items.len() > 0 {
        lemma_count_sum_filter(items.drop_last());
        let f = items.drop_last().filter(|i: InventoryItemModel| i.count > 0);
        if items.last().count > 0 {
            assert(f.push(items.last()).drop_last() =~= f);
        }
    }
}

/// A change that keeps the stacks and every item's count keeps the stacks' sums.
proof fn lemma_stacks_same_counts(st: NpccState, st2: NpccState, counts: Seq<int>)
    requires
        stacks_hold(st, counts),
        st2.base_indexes == st.base_indexes,
        st2.stack_start == st.stack_start,
        st2.m.inventory.len() == st.m.inventory.len(),
        forall|k: int|
            0 <= k < st.m.inventory.len() ==> #[trigger] st2.m.inventory[k].count
                == st.m.inventory[k].count,
    ensures
        stacks_hold(st2, counts),
{
    assert forall|s: int| 0 <= s < counts.len() implies count_sum(
        st2.m.inventory.subrange(#[trigger] st2.base_indexes[s] as int, stack_end(st2, s)),
    ) == counts[s] by {
        assert(st.base_indexes[s] < stack_end(st, s));
        let a = st.m.inventory.subrange(st.base_indexes[s] as int, stack_end(st, s));
        let b = st2.m.inventory.subrange(st2.base_indexes[s] as int, stack_end(st2, s));
        assert forall|k: int| 0 <= k < a.len() implies #[trigger] a[k].count == b[k].count by {
            assert(a[k] == st.m.inventory[st.base_indexes[s] + k]);
            assert(b[k] == st2.m.inventory[st.base_indexes[s] + k]);
        }
        lemma_count_sum_same_counts(a, b);
    }
    assert forall|s: int| 0 <= s < counts.len() implies #[trigger] st2.base_indexes[s]
        < stack_end(st2, s) <= st2.m.inventory.len() by {
        assert(st.base_indexes[s] < stack_end(st, s));
    }
}

/// A new stack of one item, pushed at the end, keeps the earlier stacks' sums.
proof fn lemma_stacks_push(st: NpccState, st2: NpccState, counts: Seq<int>, x: InventoryItemModel)
    requires
        stacks_hold(st, counts),
        st2.m.inventory == st.m.inventory.push(x),
        st2.base_indexes == st.base_indexes.push(st.m.inventory.len() as usize),
        st2.stack_start == st.m.inventory.len(),
    ensures
        stacks_hold(st2, counts.push(x.count as int)),
{
    let inv = st.m.inventory;
    let inv2 = st2.m.inventory;
    let counts2 = counts.push(x.count as int);
    let n = inv.len() as int;
    let one = seq![x];
    assert(inv2.subrange(n, n + 1) =~= one);
    assert(count_sum(one) == x.count) by {
        assert(one.drop_last() =~= Seq::<InventoryItemModel>::empty());
        assert(count_sum(one.drop_last()) == 0);
    }
    assert forall|s: int| 0 <= s < counts2.len() implies #[trigger] st2.base_indexes[s]
        < stack_end(st2, s) <= inv2.len() by {
        if s < counts.len() {
            assert(st2.base_indexes[s] == st.base_indexes[s]);
            assert(st.base_indexes[s] < stack_end(st, s));
        }
    }
    assert forall|s: int| 0 <= s < counts2.len() implies count_sum(
        inv2.subrange(#[trigger] st2.base_indexes[s] as int, stack_end(st2, s)),
    ) == counts2[s] by {
        if s < counts.len() {
            assert(st2.base_indexes[s] == st.base_indexes[s]);
            assert(st.base_indexes[s] < stack_end(st, s));
            assert(stack_end(st2, s) == stack_end(st, s));
            assert(inv2.subrange(st2.base_indexes[s] as int, stack_end(st2, s)) =~= inv.subrange(
                st.base_indexes[s] as int,
                stack_end(st, s),
            ));
        } else {
            assert(st2.base_indexes[s] == n);
            assert(stack_end(st2, s) == n + 1);
        }
    }
}

/// Splitting one item off the current stack's first item keeps every stack's sum.
proof fn lemma_stacks_split(
    st: NpccState,
    st2: NpccState,
    counts: Seq<int>,
    dec: InventoryItemModel,
    one: InventoryItemModel,
)
    requires
        stacks_hold(st, counts),
        (st.stack_start as int) < st.m.inventory.len(),
        dec.count == st.m.inventory[st.stack_start as int].count - 1,
        one.count == 1,
        st2.m.inventory == st.m.inventory.update(st.stack_start as int, dec).push(one),
        st2.base_indexes == st.base_indexes,
        st2.stack_start == st.stack_start,
    ensures
        stacks_hold(st2, counts),
{
    let inv = st.m.inventory;
    let inv2 = st2.m.inventory;
    let start = st.stack_start as int;
    let last = counts.len() - 1;
    assert(counts.len() > 0);
    assert(st.base_indexes[last] == start);
    assert forall|s: int| 0 <= s < counts.len() implies #[trigger] st2.base_indexes[s]
        < stack_end(st2, s) <= inv2.len() by {
        assert(st.base_indexes[s] < stack_end(st, s));
    }
    assert forall|s: int| 0 <= s < counts.len() implies count_sum(
        inv2.subrange(#[trigger] st2.base_indexes[s] as int, stack_end(st2, s)),
    ) == counts[s] by {
        let b = st.base_indexes[s] as int;
        assert(b < stack_end(st, s));
        if s < last {
            assert(stack_end(st, s) == st.base_indexes[s + 1]);
            lemma_bases_ordered(st, counts, s + 1, last);
            assert(inv2.subrange(b, stack_end(st2, s)) =~= inv.subrange(b, stack_end(st, s)));
        } else {
            let old_stack = inv.subrange(b, inv.len() as int);
            assert(inv2.subrange(b, stack_end(st2, s)) =~= old_stack.update(0, dec).push(one));
            lemma_count_sum_update(old_stack, 0, dec);
            assert(old_stack.update(0, dec).push(one).drop_last() =~= old_stack.update(0, dec));
        }
    }
}

/// Reading one more field keeps the stacks' sums; an `NPCO` field adds a stack.
proof fn lemma_stacks_step(st: NpccState, f: FieldModel, counts: Seq<int>)
    requires
        stacks_hold(st, counts),
        npcc_step(st, f) is Next,
    ensures
        stacks_hold(
            npcc_step(st, f)->Next_0,
            if f.name == NPCO@ {
                counts.push(word(f.data, 0) as int)
            } else {
                counts
            },
        ),
{
    let st2 = npcc_step(st, f)->Next_0;
    let inv = st.m.inventory;
    let inv2 = st2.m.inventory;
    if f.name == NPCO@ {
        let n = inv.len() as int;
        assert(inv2 == inv.push(inv2[n]));
        lemma_stacks_push(st, st2, counts, inv2[n]);
    } else if f.name == crate::tags::XIDX@ {
        let start = st.stack_start as int;
        let first = inv[start];
        let dec = InventoryItemModel { count: (first.count - 1) as u32, ..first };
        let one = InventoryItemModel { count: 1, ..dec };
        lemma_stacks_split(st, st2, counts, dec, one);
    } else {
        assert(inv2.len() == inv.len());
        assert forall|k: int| 0 <= k < inv.len() implies #[trigger] inv2[k].count == inv[k].count by {
        }
        lemma_stacks_same_counts(st, st2, counts);
    }
}

/// The stacks start in order: a later stack starts after an earlier one.
proof fn lemma_bases_ordered(st: NpccState, counts: Seq<int>, s: int, t: int)
    requires
        stacks_hold(st, counts),
        0 <= s <= t < counts.len(),
    ensures
        st.base_indexes[s] <= st.base_indexes[t],
    decreases t - s,
{
    if s < t {
        assert(st.base_indexes[s] < stack_end(st, s));
        lemma_bases_ordered(st, counts, s + 1, t);
    }
}

/// However the fields of an `NPCC` record split single items off their stacks, while reading
/// goes on each stack's items have counts that sum to the count its `NPCO` field gave.
pub proof fn lemma_npcc_stacks(fields: Seq<FieldModel>)
    requires
        npcc_fold(fields) is Next,
    ensures
        stacks_hold(npcc_fold(fields)->Next_0, npco_counts(fields)),
    decreases fields.len(),
{
    if fields.len() == 0 {
        assert(npcc_fold(fields) == NpccOutcome::Next(npcc_init()));
    } else {
        let init = fields.drop_last();
        lemma_npcc_stacks(init);
        lemma_stacks_step(npcc_fold(init)->Next_0, fields.last(), npco_counts(init));
    }
}

/// The sums of the first `s + 1` stacks add up.
proof fn lemma_total_step(counts: Seq<int>, s: int)
    requires
        0 <= s < counts.len(),
    ensures
        total(counts.take(s + 1)) == total(counts.take(s)) + counts[s],
{
    assert(counts.take(s + 1).drop_last() =~= counts.take(s));
}

/// The items of the stacks together are the whole inventory.
proof fn lemma_stacks_total(st: NpccState, counts: Seq<int>, s: int)
    requires
        stacks_hold(st, counts),
        0 <= s < counts.len(),
    ensures
        count_sum(st.m.inventory.subrange(0, stack_end(st, s))) == total(counts.take(s + 1)),
    decreases s,
{
    let inv = st.m.inventory;
    let b = st.base_indexes[s] as int;
    let e = stack_end(st, s);
    assert(b < e <= inv.len());
    assert(count_sum(inv.subrange(b, e)) == counts[s]);
    lemma_total_step(counts, s);
    if s == 0 {
        assert(b == 0);
        assert(total(counts.take(0)) == 0) by {
            assert(counts.take(0).len() == 0);
        }
    } else {
        lemma_stacks_total(st, counts, s - 1);
        assert(stack_end(st, s - 1) == b);
        lemma_count_sum_append(inv.subrange(0, b), inv.subrange(b, e));
        assert(inv.subrange(0, b) + inv.subrange(b, e) =~= inv.subrange(0, e));
    }
}

/// The items whose count is above zero.
pub open spec fn kept_items(items: Seq<InventoryItemModel>) -> Seq<InventoryItemModel> {
    items.filter(|i: InventoryItemModel| i.count > 0)
}

proof fn lemma_filter_positive(items: Seq<InventoryItemModel>)
    ensures
        forall|k: int| 0 <= k < kept_items(items).len() ==> #[trigger] kept_items(items)[k].count > 0,
{
    let pred = |i: InventoryItemModel| i.count > 0;
    assert forall|k: int| 0 <= k < kept_items(items).len() implies #[trigger] kept_items(
        items,
    )[k].count > 0 by {
        items.lemma_filter_pred(pred, k);
    }
}

/// The counts of the items in a reading state sum to the counts its stacks were given.
proof fn lemma_inventory_total(st: NpccState, counts: Seq<int>)
    requires
        stacks_hold(st, counts),
    ensures
        count_sum(st.m.inventory) == total(counts),
{
    let inv = st.m.inventory;
    if counts.len() == 0 {
        assert(inv.len() == 0);
    } else {
        lemma_stacks_total(st, counts, counts.len() - 1);
        assert(inv.subrange(0, inv.len() as int) =~= inv);
        assert(counts.take(counts.len() as int) =~= counts);
    }
}

/// Every item of a read NPC change has a count above zero, and the counts of all its items
/// sum to the sum of the counts of the record's `NPCO` fields.
pub proof fn lemma_npc_change_counts(fields: Seq<FieldModel>)
    requires
        npc_change_from_fields(fields) is Some,
    ensures
        forall|k: int|
            0 <= k < npc_change_from_fields(fields).unwrap().inventory.len()
                ==> #[trigger] npc_change_from_fields(fields).unwrap().inventory[k].count > 0,
        count_sum(npc_change_from_fields(fields).unwrap().inventory) == total(npco_counts(fields)),
{
    let st = npcc_fold(fields)->Next_0;
    let inv = st.m.inventory;
    assert(npc_change_from_fields(fields).unwrap().inventory == kept_items(inv));
    lemma_filter_positive(inv);
    lemma_npcc_stacks(fields);
    lemma_count_sum_filter(inv);
    lemma_inventory_total(st, npco_counts(fields));
}

} // verus!
