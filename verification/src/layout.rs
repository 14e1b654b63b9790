//! The storage layout that a component description declares, and the test
//! that holds caller-supplied storage slots against it.

use vstd::prelude::*;

use crate::types::{LayoutEntry, SlotKind};

verus! {

/// The most storage slots that one component can hold.
pub const MAX_COMPONENT_SLOTS: usize = 255;

/// Whether `entry` declares the slot at `index`.
pub open spec fn entry_covers(entry: LayoutEntry, index: int) -> bool {
    match entry {
        LayoutEntry::Word { slot } => index == slot,
        LayoutEntry::Mapping { slot } => index == slot,
        LayoutEntry::MultiWord { start, end } => start <= index < end,
    }
}

/// The shape of every slot that `entry` declares.
pub open spec fn entry_kind(entry: LayoutEntry) -> SlotKind {
    match entry {
        LayoutEntry::Mapping { .. } => SlotKind::Mapping,
        _ => SlotKind::Word,
    }
}

/// Whether one of the first `upto` entries of `layout` declares the slot at
/// `index`.
pub open spec fn declared_before(layout: Seq<LayoutEntry>, upto: int, index: int) -> bool {
    exists|e: int| 0 <= e < upto && #[trigger] entry_covers(layout[e], index)
}

/// Every slot that one of the first `upto` entries declares exists and has
/// the declared shape.
pub open spec fn entries_fit(layout: Seq<LayoutEntry>, upto: int, kinds: Seq<SlotKind>) -> bool {
    forall|e: int, i: int|
        0 <= e < upto && #[trigger] entry_covers(layout[e], i) ==> 0 <= i < kinds.len()
            && kinds[i] == entry_kind(layout[e])
}

/// No slot is declared by two of the first `upto` entries.
pub open spec fn entries_disjoint(layout: Seq<LayoutEntry>, upto: int) -> bool {
    forall|e1: int, e2: int, i: int|
        0 <= e1 < e2 < upto && #[trigger] entry_covers(layout[e1], i) ==> !#[trigger] entry_covers(
            layout[e2],
            i,
        )
}

/// Slots of the shapes `kinds` agree with `layout` in count and shape: the
/// layout declares each of the slots once, with its shape, and declares no
/// other.
pub open spec fn layout_matches(layout: Seq<LayoutEntry>, kinds: Seq<SlotKind>) -> bool {
    &&& entries_fit(layout, layout.len() as int, kinds)
    &&& entries_disjoint(layout, layout.len() as int)
    &&& forall|i: int|
        0 <= i < kinds.len() ==> #[trigger] declared_before(layout, layout.len() as int, i)
}

/// The slot at `index` exists, has the shape `kind`, and is not marked in
/// `claimed`.
pub open spec fn slot_free(
    index: int,
    kind: SlotKind,
    kinds: Seq<SlotKind>,
    claimed: Seq<bool>,
) -> bool {
    0 <= index < kinds.len() && kinds[index] == kind && !claimed[index]
}

/// Each of the slots from `lo` up to `hi` is free for an entry of the shape
/// `kind`.
pub open spec fn range_free(
    lo: int,
    hi: int,
    kind: SlotKind,
    kinds: Seq<SlotKind>,
    claimed: Seq<bool>,
) -> bool {
    forall|i: int| lo <= i < hi ==> #[trigger] slot_free(i, kind, kinds, claimed)
}

/// Marks the slots from `lo` up to `hi` as claimed, provided that each
/// exists, has the shape `kind` and was not claimed before.
fn claim_range(
    lo: usize,
    hi: usize,
    kind: SlotKind,
    kinds: &Vec<SlotKind>,
    claimed: &mut Vec<bool>,
) -> (ok: bool)
    requires
        old(claimed).len() == kinds.len(),
    ensures
        final(claimed).len() == kinds.len(),
        ok == range_free(lo as int, hi as int, kind, kinds@, old(claimed)@),
        ok ==> forall|i: int|
            0 <= i < kinds.len() ==> final(claimed)[i] == (old(claimed)[i] || lo <= i < hi),
{
    let mut idx: usize = lo;
    while idx < hi
        invariant
            claimed.len() == kinds.len(),
            old(claimed).len() == kinds.len(),
            lo <= idx,
            idx <= hi || idx == lo,
            range_free(lo as int, idx as int, kind, kinds@, old(claimed)@),
            forall|i: int|
                0 <= i < kinds.len() ==> claimed[i] == (old(claimed)[i] || lo <= i < idx),
        decreases hi - idx,
    {
        if idx >= kinds.len() || kinds[idx] != kind || claimed[idx] {
            assert(!slot_free(idx as int, kind, kinds@, old(claimed)@));
            return false;
        }
        claimed.set(idx, true);
        idx = idx + 1;
    }
    true
}

/// The slots that `entry` declares, as a range, and their shape.
fn entry_range(entry: &LayoutEntry) -> (range: (usize, usize, SlotKind))
    ensures
        range.2 == entry_kind(*entry),
        forall|i: int| entry_covers(*entry, i) <==> range.0 <= i < range.1,
{
    match entry {
        LayoutEntry::Word { slot } => {
            let lo: usize = *slot as usize;
            (lo, lo + 1, SlotKind::Word)
        },
        LayoutEntry::Mapping { slot } => {
            let lo: usize = *slot as usize;
            (lo, lo + 1, SlotKind::Mapping)
        },
        LayoutEntry::MultiWord { start, end } => (*start as usize, *end as usize, SlotKind::Word),
    }
}

/// Holds storage slots of the shapes `kinds` against the declared `layout`.
pub fn check_layout(layout: &Vec<LayoutEntry>, kinds: &Vec<SlotKind>) -> (ok: bool)
    ensures
        ok == layout_matches(layout@, kinds@),
{
    let n: usize = kinds.len();
    let mut claimed: Vec<bool> = Vec::new();
    while claimed.len() < n
        invariant
            claimed.len() <= n,
            forall|i: int| 0 <= i < claimed.len() ==> !claimed[i],
        decreases n - claimed.len(),
    {
        claimed.push(false);
    }
    let mut e: usize = 0;
    while e < layout.len()
        invariant
            n == kinds.len(),
            claimed.len() == n,
            e <= layout.len(),
            entries_fit(layout@, e as int, kinds@),
            entries_disjoint(layout@, e as int),
            forall|i: int| 0 <= i < n ==> claimed[i] == declared_before(layout@, e as int, i),
        decreases layout.len() - e,
    {
        let (lo, hi, kind) = entry_range(&layout[e]);
        let ghost before = claimed@;
        let free = claim_range(lo, hi, kind, kinds, &mut claimed);
        if !free {
            proof {
                let i = choose|i: int|
                    lo <= i < hi && !#[trigger] slot_free(i, kind, kinds@, before);
                assert(entry_covers(layout@[e as int], i));
                if 0 <= i < kinds.len() && kinds@[i] == kind {
                    let e0 = choose|e0: int|
                        0 <= e0 < e && #[trigger] entry_covers(layout@[e0], i);
                    assert(!entries_disjoint(layout@, layout.len() as int));
                } else {
                    assert(!entries_fit(layout@, layout.len() as int, kinds@));
                }
            }
            return false;
        }
        proof {
            assert forall|i: int| 0 <= i < n implies claimed[i] == declared_before(
                layout@,
                e + 1,
                i,
            ) by {
                if entry_covers(layout@[e as int], i) {
                    assert(declared_before(layout@, e + 1, i));
                } else if declared_before(layout@, e as int, i) {
                    let e0 = choose|e0: int|
                        0 <= e0 < e && #[trigger] entry_covers(layout@[e0], i);
                    assert(declared_before(layout@, e + 1, i));
                } else if declared_before(layout@, e + 1, i) {
                    let e0 = choose|e0: int|
                        0 <= e0 < e + 1 && #[trigger] entry_covers(layout@[e0], i);
                    assert(e0 < e);
                }
            }
            assert forall|e1: int, e2: int, i: int|
                0 <= e1 < e2 < e + 1 && #[trigger] entry_covers(
                    layout@[e1],
                    i,
                ) implies !#[trigger] entry_covers(layout@[e2], i) by {
                if e2 == e && entry_covers(layout@[e2], i) {
                    assert(slot_free(i, kind, kinds@, before));
                    assert(declared_before(layout@, e as int, i));
                }
            }
            assert forall|e0: int, i: int|
                0 <= e0 < e + 1 && #[trigger] entry_covers(layout@[e0], i) implies 0 <= i
                < kinds.len() && kinds@[i] == entry_kind(layout@[e0]) by {
                if e0 == e {
                    assert(slot_free(i, kind, kinds@, before));
                }
            }
        }
        e = e + 1;
    }
    let mut i: usize = 0;
    while i < n
        invariant
            n == kinds.len(),
            claimed.len() == n,
            i <= n,
            forall|j: int| 0 <= j < n ==> claimed[j] == declared_before(
                layout@,
                layout.len() as int,
                j,
            ),
            forall|j: int| 0 <= j < i ==> #[trigger] declared_before(
                layout@,
                layout.len() as int,
                j,
            ),
        decreases n - i,
    {
        if !claimed[i] {
            assert(!declared_before(layout@, layout.len() as int, i as int));
            return false;
        }
        i = i + 1;
    }
    true
}

/// A layout fixes the count and the shapes of the slots that agree with it:
/// two runs of slots that both match one layout have the same shapes.
pub proof fn lemma_layout_determines_slots(
    layout: Seq<LayoutEntry>,
    first: Seq<SlotKind>,
    second: Seq<SlotKind>,
)
    requires
        layout_matches(layout, first),
        layout_matches(layout, second),
    ensures
        first == second,
{
    if first.len() < second.len() {
        assert(declared_before(layout, layout.len() as int, first.len() as int));
    }
    if second.len() < first.len() {
        assert(declared_before(layout, layout.len() as int, second.len() as int));
    }
    assert forall|i: int| 0 <= i < first.len() implies first[i] == second[i] by {
        assert(declared_before(layout, layout.len() as int, i));
    }
}

/// A layout declares no more than 256 slots.
pub proof fn lemma_layout_is_bounded(layout: Seq<LayoutEntry>, kinds: Seq<SlotKind>)
    requires
        layout_matches(layout, kinds),
    ensures
        kinds.len() <= 256,
{
    if kinds.len() > 256 {
        assert(declared_before(layout, layout.len() as int, 256));
    }
}

} // verus!
