use std::collections::HashSet;
use vstd::prelude::*;

verus! {

/// The number of places that the menu shows items at.
pub const NUM_SLOTS: usize = 19;

/// The place of the selected item: the middle one.
pub const CURSOR_SLOT: usize = 9;

/// The item shown at place `slot` when item `selected` of `total` items is
/// selected: the selected item stands at the cursor's place, its
/// neighbours above and below it, and a place beyond either end of the
/// list stays empty.
pub open spec fn slot_item(slot: int, selected: int, total: int) -> Option<int> {
    let item = selected + slot - CURSOR_SLOT as int;
    if 0 <= item < total {
        Some(item)
    } else {
        None
    }
}

/// The item shown at place `slot`, if one is.
pub fn item_at_slot(slot: usize, selected: usize, total: usize) -> (item: Option<usize>)
    ensures
        match item {
            Some(i) => slot_item(slot as int, selected as int, total as int) == Some(i as int),
            None => slot_item(slot as int, selected as int, total as int) is None,
        },
{
    if slot < CURSOR_SLOT {
        let offset: usize = CURSOR_SLOT - slot;
        if selected < offset {
            return None;
        }
        let index: usize = selected - offset;
        if index < total {
            Some(index)
        } else {
            None
        }
    } else {
        let offset: usize = slot - CURSOR_SLOT;
        match selected.checked_add(offset) {
            Some(index) => {
                if index < total {
                    Some(index)
                } else {
                    None
                }
            },
            None => None,
        }
    }
}

/// The selection for a wish to select item `index` of `count` items: the
/// last item where the wish lies beyond it, and 0 in an empty list.
pub fn clamp_selection(index: usize, count: usize) -> (selected: usize)
    ensures
        selected == if count == 0 {
            0
        } else if index < count {
            index as int
        } else {
            count - 1
        },
{
    let last: usize = if count == 0 {
        0
    } else {
        count - 1
    };
    if index < last {
        index
    } else {
        last
    }
}

/// No item is shown at two places, and the selected item, if the list has
/// it, is shown at the cursor's place.
pub proof fn lemma_slots_show_distinct_items(a: int, b: int, selected: int, total: int)
    requires
        a != b,
        slot_item(a, selected, total) is Some,
    ensures
        slot_item(a, selected, total) != slot_item(b, selected, total),
        0 <= selected < total ==> slot_item(CURSOR_SLOT as int, selected, total) == Some(
            selected,
        ),
{
}

/// The item shown at place `slot` in a list whose first item repeats at
/// the places above the list's start: the selected item stands at the
/// cursor's place, and a place beyond the list's end stays empty.
pub open spec fn pinned_slot_item(slot: int, selected: int, total: int) -> Option<int> {
    let wanted = selected + slot - CURSOR_SLOT as int;
    let item = if wanted < 0 {
        0
    } else {
        wanted
    };
    if item < total {
        Some(item)
    } else {
        None
    }
}

/// The item shown at place `slot`, if one is, in a list whose first item
/// repeats above the list's start.
pub fn item_at_slot_pinned(slot: usize, selected: usize, total: usize) -> (item: Option<usize>)
    ensures
        match item {
            Some(i) => pinned_slot_item(slot as int, selected as int, total as int) == Some(
                i as int,
            ),
            None => pinned_slot_item(slot as int, selected as int, total as int) is None,
        },
{
    let wanted: Option<usize> = if slot < CURSOR_SLOT {
        Some(selected.saturating_sub(CURSOR_SLOT - slot))
    } else {
        selected.checked_add(slot - CURSOR_SLOT)
    };
    match wanted {
        Some(index) => {
            if index < total {
                Some(index)
            } else {
                None
            }
        },
        None => None,
    }
}

/// The row that is tried `k` steps away from row `y` on a screen of
/// `height` rows: `k` rows further up, or further down, and never beyond
/// the first or the last row.
pub open spec fn row_candidate(y: u16, k: nat, upward: bool, height: u16) -> u16 {
    if k == 0 {
        y
    } else if upward {
        if y >= k {
            (y - k) as u16
        } else {
            0
        }
    } else {
        let last: int = if height == 0 {
            0
        } else {
            height - 1
        };
        if y + k < last {
            (y + k) as u16
        } else {
            last as u16
        }
    }
}

/// The row that a menu item settles in when rows from step `k` on are
/// tried: the first that no other item uses, or the one tried at step
/// `height` where all before it are used.
pub open spec fn settled_row(used: Set<u16>, y: u16, upward: bool, height: u16, k: nat) -> u16
    decreases height - k,
{
    if k >= height || !used.contains(row_candidate(y, k, upward, height)) {
        row_candidate(y, k, upward, height)
    } else {
        settled_row(used, y, upward, height, k + 1)
    }
}

/// The row for a menu item that wants row `y`: `y` itself if no other item
/// uses it, else the nearest row above it (for an item above the cursor)
/// or below it that is not used.
pub fn free_row(used: &HashSet<u16>, y: u16, upward: bool, height: u16) -> (row: u16)
    ensures
        row == settled_row(used@, y, upward, height, 0),
{
    broadcast use vstd::std_specs::hash::group_hash_axioms;

    let last: u16 = height.saturating_sub(1);
    let mut row: u16 = y;
    let mut offset: u16 = 0;
    while offset < height && used.contains(&row)
        invariant
            offset <= height,
            last == if height == 0 {
                0
            } else {
                height - 1
            },
            row == row_candidate(y, offset as nat, upward, height),
            settled_row(used@, y, upward, height, 0) == settled_row(
                used@,
                y,
                upward,
                height,
                offset as nat,
            ),
        decreases height - offset,
    {
        offset += 1;
        if upward {
            row = y.saturating_sub(offset);
        } else {
            let wanted: u32 = y as u32 + offset as u32;
            row = if wanted < last as u32 {
                wanted as u16
            } else {
                last
            };
        }
    }
    row
}

/// The gap between the globe's edge and a menu item, in columns: the two
/// outermost places at either end stand two columns closer than the six of
/// the middle places, the next two one column closer.
pub fn slot_gap(slot: usize) -> (gap: u16)
    ensures
        gap == if slot <= 1 || (NUM_SLOTS - 2 <= slot < NUM_SLOTS) {
            4int
        } else if slot <= 3 || (NUM_SLOTS - 4 <= slot < NUM_SLOTS) {
            5int
        } else {
            6int
        },
{
    if slot == 0 || slot == NUM_SLOTS - 1 || slot == 1 || slot == NUM_SLOTS - 2 {
        4
    } else if slot == 2 || slot == NUM_SLOTS - 3 || slot == 3 || slot == NUM_SLOTS - 4 {
        5
    } else {
        6
    }
}

/// A settled row is a row that no other item uses, unless every row that
/// was tried is used.
pub proof fn lemma_settled_row_is_free(used: Set<u16>, y: u16, upward: bool, height: u16, k: nat)
    requires
        exists|j: nat| k <= j < height && !used.contains(row_candidate(y, j, upward, height)),
    ensures
        !used.contains(settled_row(used, y, upward, height, k)),
    decreases height - k,
{
    if k < height && used.contains(row_candidate(y, k, upward, height)) {
        let j = choose|j: nat|
            k <= j < height && !used.contains(row_candidate(y, j, upward, height));
        assert(k + 1 <= j);
        lemma_settled_row_is_free(used, y, upward, height, k + 1);
    }
}

} // verus!
