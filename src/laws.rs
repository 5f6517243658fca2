//! Properties that hold across several operations on a list.

use vstd::prelude::*;
use crate::date::{valid_ymd, Date};
use crate::error::ToDoSelectionError;
use crate::item::{new_item_spec, ItemView};
use crate::list::ListView;

verus! {

/// Two items of different names created in an empty list are both found
/// afterwards, and looking up the first gives back the item made for it.
pub proof fn lemma_distinct_items_both_found(
    l: ListView,
    first: ItemView,
    second: ItemView,
    replace_first: bool,
    replace_second: bool,
)
    requires
        l.items == Map::<Seq<char>, ItemView>::empty(),
        first.name != second.name,
    ensures
        ({
            let (l1, r1) = l.create(first, replace_first);
            let (l2, r2) = l1.create(second, replace_second);
            &&& r1 is Ok && r2 is Ok
            &&& l2.items.contains_key(first.name)
            &&& l2.items.contains_key(second.name)
            &&& l2.lookup(first.name) == Ok::<ItemView, ToDoSelectionError>(first)
            &&& l2.lookup(second.name) == Ok::<ItemView, ToDoSelectionError>(second)
        }),
{
}

/// Creating an item under a name that the list already uses, without asking
/// to replace, fails with `ToDoAlreadyPresent`; the list, and the first item
/// in it, stay as they were.
pub proof fn lemma_create_twice_refused(l: ListView, first: ItemView, second: ItemView)
    requires
        first.name == second.name,
        !l.items.contains_key(first.name),
    ensures
        ({
            let (l1, r1) = l.create(first, false);
            let (l2, r2) = l1.create(second, false);
            &&& r1 is Ok
            &&& r2 == Err::<(), ToDoSelectionError>(ToDoSelectionError::ToDoAlreadyPresent)
            &&& l2 == l1
            &&& l2.lookup(first.name) == Ok::<ItemView, ToDoSelectionError>(first)
        }),
{
}

/// Creating an item twice under one name, asking to replace, succeeds both
/// times, and the list then holds the second item under that name.
pub proof fn lemma_create_twice_replaced(l: ListView, first: ItemView, second: ItemView)
    requires
        first.name == second.name,
    ensures
        ({
            let (l1, r1) = l.create(first, true);
            let (l2, r2) = l1.create(second, true);
            &&& r1 is Ok && r2 is Ok
            &&& l2.lookup(second.name) == Ok::<ItemView, ToDoSelectionError>(second)
        }),
{
}

/// After an item is deleted, looking it up fails with `ToDoNotFound`;
/// deleting a name that the list lacks fails with `ToDoNotFound` and leaves
/// the list as it was.
pub proof fn lemma_delete_then_lookup(l: ListView, name: Seq<char>)
    ensures
        l.delete(name).0.lookup(name) == Err::<ItemView, ToDoSelectionError>(ToDoSelectionError::ToDoNotFound),
        !l.items.contains_key(name) ==> l.delete(name) == (l, Err::<(), ToDoSelectionError>(ToDoSelectionError::ToDoNotFound)),
{
}

/// An open item whose due date lies before `today` is overdue; once it is
/// completed it is no longer overdue, though the list still holds it.
pub proof fn lemma_overdue_filtering(l: ListView, name: Seq<char>, today: Date)
    requires
        l.items.contains_key(name),
        !l.items[name].completed,
        l.items[name].due_date matches Some(d) && d.before(today),
    ensures
        l.overdue_items_on(today).contains_key(name),
        !l.set_completed(name, true).0.overdue_items_on(today).contains_key(name),
        l.set_completed(name, true).0.items.contains_key(name),
{
}

/// An item without a due date is never among the overdue items.
pub proof fn lemma_undated_never_overdue(l: ListView, name: Seq<char>, today: Date)
    requires
        l.items.contains_key(name),
        l.items[name].due_date is None,
    ensures
        !l.overdue_items_on(today).contains_key(name),
{
}

/// Making an item with a (year, month, day) that names no real day gives an
/// item all the same, with no due date.
pub proof fn lemma_invalid_due_date_left_out(
    name: Seq<char>,
    description: Seq<char>,
    priority: Seq<char>,
    year: i32,
    month: u32,
    day: u32,
    creation_date: Date,
)
    requires
        !valid_ymd(year, month, day),
    ensures
        new_item_spec(name, description, priority, Some((year, month, day)), creation_date).due_date is None,
{
}

/// Completing an open item twice succeeds both times and leaves it
/// completed; reopening an open item twice succeeds both times and leaves it
/// open.
pub proof fn lemma_complete_and_reopen_idempotent(l: ListView, name: Seq<char>)
    requires
        l.items.contains_key(name),
        !l.items[name].completed,
    ensures
        ({
            let (l1, r1) = l.set_completed(name, true);
            let (l2, r2) = l1.set_completed(name, true);
            &&& r1 is Ok && r2 is Ok
            &&& l2.items[name].completed
            &&& l2 == l1
        }),
        ({
            let (l1, r1) = l.set_completed(name, false);
            let (l2, r2) = l1.set_completed(name, false);
            &&& r1 is Ok && r2 is Ok
            &&& !l2.items[name].completed
            &&& l2 == l1
        }),
{
    let (l1, _) = l.set_completed(name, true);
    let (l2, _) = l1.set_completed(name, true);
    assert(l2.items =~= l1.items);
    let (m1, _) = l.set_completed(name, false);
    let (m2, _) = m1.set_completed(name, false);
    assert(m1.items =~= l.items);
    assert(m2.items =~= m1.items);
}

} // verus!
