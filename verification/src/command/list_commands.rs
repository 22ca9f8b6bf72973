//! Commands that rearrange the commit list while commits are being reordered.
//! They act on the list they are handed and touch nothing else.
use crate::ui::main_screen::ListItem;
use vstd::prelude::*;

verus! {

/// `l` with the items at `i` and `j` exchanged.
pub open spec fn swapped(l: Seq<ListItem>, i: int, j: int) -> Seq<ListItem> {
    l.update(i, l[j]).update(j, l[i])
}

/// Exchanges the items at `i` and `j` of `list`.
pub fn swap_items(list: &mut Vec<ListItem>, i: usize, j: usize)
    requires
        i < old(list)@.len(),
        j < old(list)@.len(),
    ensures
        final(list)@ == swapped(old(list)@, i as int, j as int),
{
    if i == j {
        assert(list@ =~= swapped(list@, i as int, j as int));
        return;
    }
    let (lo, hi) = if i < j { (i, j) } else { (j, i) };
    let ghost l = list@;
    let b = list.remove(hi);
    let a = list.remove(lo);
    list.insert(lo, b);
    list.insert(hi, a);
    assert(list@ =~= swapped(l, i as int, j as int));
}

/// Exchanges two neighbouring commits of the reorder list; undoing exchanges
/// them back.
#[derive(Debug)]
pub struct SwapCommitCommand {
    pub index1: usize,
    pub index2: usize,
}

impl SwapCommitCommand {
    /// Creates the command for the items at `index1` and `index2`.
    pub fn new(index1: usize, index2: usize) -> (r: Self)
        ensures
            r.index1 == index1,
            r.index2 == index2,
    {
        Self { index1, index2 }
    }

    /// Exchanges the two items. An index past the end leaves the list alone
    /// and reports `false`.
    pub fn execute(&mut self, list_items: &mut Vec<ListItem>) -> (r: bool)
        ensures
            *final(self) == *old(self),
            r == (old(self).index1 < old(list_items)@.len() && old(self).index2 < old(list_items)@.len()),
            r ==> final(list_items)@ == swapped(old(list_items)@, old(self).index1 as int, old(self).index2 as int),
            !r ==> final(list_items)@ == old(list_items)@,
    {
        if self.index1 < list_items.len() && self.index2 < list_items.len() {
            swap_items(list_items, self.index1, self.index2);
            true
        } else {
            false
        }
    }

    /// Exchanges the two items again.
    pub fn undo(&mut self, list_items: &mut Vec<ListItem>)
        ensures
            *final(self) == *old(self),
            old(self).index1 < old(list_items)@.len() && old(self).index2 < old(list_items)@.len()
                ==> final(list_items)@ == swapped(old(list_items)@, old(self).index1 as int, old(self).index2 as int),
            !(old(self).index1 < old(list_items)@.len() && old(self).index2 < old(list_items)@.len())
                ==> final(list_items)@ == old(list_items)@,
    {
        if self.index1 < list_items.len() && self.index2 < list_items.len() {
            swap_items(list_items, self.index1, self.index2);
        }
    }
}

/// Exchanging the same two items twice gives back the list: undoing a swap
/// restores the reorder list.
pub proof fn lemma_swap_undo_restores(l: Seq<ListItem>, i: int, j: int)
    requires
        0 <= i < l.len(),
        0 <= j < l.len(),
    ensures
        swapped(swapped(l, i, j), i, j) == l,
{
    assert(swapped(swapped(l, i, j), i, j) =~= l);
}

/// The item `item` with its fixup mark flipped, if it is a previous commit.
pub open spec fn flip_fixup(item: ListItem) -> ListItem {
    match item {
        ListItem::PreviousCommitInfo { hash, message, is_on_remote, is_fixup } =>
            ListItem::PreviousCommitInfo { hash, message, is_on_remote, is_fixup: !is_fixup },
        other => other,
    }
}

/// Whether the fixup mark of item `index` may be flipped: it is a previous
/// commit and not the last item (the root commit cannot be a fixup).
pub open spec fn can_toggle_fixup(l: Seq<ListItem>, index: int) -> bool {
    0 <= index && index + 1 < l.len() && l[index] is PreviousCommitInfo
}

/// Flips the fixup mark of the item at `index` when `can_toggle_fixup` holds.
fn toggle_fixup(list_items: &mut Vec<ListItem>, index: usize) -> (r: bool)
    ensures
        r == can_toggle_fixup(old(list_items)@, index as int),
        r ==> final(list_items)@ == old(list_items)@.update(index as int, flip_fixup(old(list_items)@[index as int])),
        !r ==> final(list_items)@ == old(list_items)@,
{
    let len = list_items.len();
    if index >= len.saturating_sub(1) {
        return false;
    }
    let ghost l = list_items@;
    let item = list_items.remove(index);
    match item {
        ListItem::PreviousCommitInfo { hash, message, is_on_remote, is_fixup } => {
            list_items.insert(index, ListItem::PreviousCommitInfo { hash, message, is_on_remote, is_fixup: !is_fixup });
            assert(list_items@ =~= l.update(index as int, flip_fixup(l[index as int])));
            true
        },
        other => {
            list_items.insert(index, other);
            assert(list_items@ =~= l);
            false
        },
    }
}

/// Marks a commit of the reorder list as a fixup of the commit below it, or
/// clears the mark; undoing flips it back.
#[derive(Debug)]
pub struct FixupCommitCommand {
    pub index: usize,
}

impl FixupCommitCommand {
    /// Creates the command for the item at `index`.
    pub fn new(index: usize) -> (r: Self)
        ensures
            r.index == index,
    {
        Self { index }
    }

    /// Flips the fixup mark; refuses (and changes nothing) for the last item
    /// and for anything that is not a previous commit.
    pub fn execute(&mut self, list_items: &mut Vec<ListItem>) -> (r: bool)
        ensures
            *final(self) == *old(self),
            r == can_toggle_fixup(old(list_items)@, old(self).index as int),
            r ==> final(list_items)@ == old(list_items)@.update(old(self).index as int, flip_fixup(old(list_items)@[old(self).index as int])),
            !r ==> final(list_items)@ == old(list_items)@,
    {
        toggle_fixup(list_items, self.index)
    }

    /// Flips the mark again.
    pub fn undo(&mut self, list_items: &mut Vec<ListItem>)
        ensures
            *final(self) == *old(self),
            can_toggle_fixup(old(list_items)@, old(self).index as int)
                ==> final(list_items)@ == old(list_items)@.update(old(self).index as int, flip_fixup(old(list_items)@[old(self).index as int])),
            !can_toggle_fixup(old(list_items)@, old(self).index as int) ==> final(list_items)@ == old(list_items)@,
    {
        toggle_fixup(list_items, self.index);
    }
}

/// Flipping the fixup mark twice gives back the list.
pub proof fn lemma_fixup_undo_restores(l: Seq<ListItem>, index: int)
    requires
        can_toggle_fixup(l, index),
    ensures
        can_toggle_fixup(l.update(index, flip_fixup(l[index])), index),
        l.update(index, flip_fixup(l[index])).update(index, flip_fixup(flip_fixup(l[index]))) == l,
{
    let once = l.update(index, flip_fixup(l[index]));
    assert(once[index] is PreviousCommitInfo);
    assert(flip_fixup(flip_fixup(l[index])) == l[index]);
    assert(once.update(index, flip_fixup(flip_fixup(l[index]))) =~= l);
}

/// Drops a commit from the reorder list; undoing puts it back in place.
#[derive(Debug)]
pub struct DiscardCommitCommand {
    pub index: usize,
    pub removed_item: Option<ListItem>,
}

impl DiscardCommitCommand {
    /// Creates the command for the item at `index`.
    pub fn new(index: usize) -> (r: Self)
        ensures
            r.index == index,
            r.removed_item is None,
    {
        Self { index, removed_item: None }
    }

    /// Removes the item and keeps it; an index past the end changes nothing
    /// and reports `false`.
    pub fn execute(&mut self, list_items: &mut Vec<ListItem>) -> (r: bool)
        ensures
            final(self).index == old(self).index,
            r == (old(self).index < old(list_items)@.len()),
            r ==> final(list_items)@ == old(list_items)@.remove(old(self).index as int)
                && final(self).removed_item == Some(old(list_items)@[old(self).index as int]),
            !r ==> final(list_items)@ == old(list_items)@ && *final(self) == *old(self),
    {
        if self.index < list_items.len() {
            self.removed_item = Some(list_items.remove(self.index));
            true
        } else {
            false
        }
    }

    /// Puts the kept item back at its place.
    pub fn undo(&mut self, list_items: &mut Vec<ListItem>)
        ensures
            final(self).index == old(self).index,
            old(self).removed_item is Some && old(self).index <= old(list_items)@.len() ==>
                final(list_items)@ == old(list_items)@.insert(old(self).index as int, old(self).removed_item->0)
                && final(self).removed_item is None,
            !(old(self).removed_item is Some && old(self).index <= old(list_items)@.len()) ==>
                final(list_items)@ == old(list_items)@ && *final(self) == *old(self),
    {
        if self.index <= list_items.len() {
            if let Some(item) = self.removed_item.take() {
                list_items.insert(self.index, item);
            }
        }
    }
}

/// Removing an item and inserting it back at its place gives back the list.
pub proof fn lemma_discard_undo_restores(l: Seq<ListItem>, index: int)
    requires
        0 <= index < l.len(),
    ensures
        l.remove(index).insert(index, l[index]) == l,
{
    assert(l.remove(index).insert(index, l[index]) =~= l);
}

} // verus!
