use vstd::prelude::*;
use vstd::string::StringExecFns;
use crate::date::Date;
use crate::error::ToDoSelectionError;
use crate::item::{new_item_spec, Item, ItemView};
use crate::priority::Priority;
use crate::sorting::{drawn_from, is_sorted_view, keys_unique, same_entry, sort_list};
use crate::text::is_text_equal;

verus! {

/// What a list holds, as plain values: its name, its description and its
/// items by name.
pub struct ListView {
    pub name: Seq<char>,
    pub description: Seq<char>,
    pub items: Map<Seq<char>, ItemView>,
}

/// The items that a sequence of (name, item) entries holds, by name; a later
/// entry stands over an earlier one of the same name.
pub open spec fn item_map(s: Seq<(String, Item)>) -> Map<Seq<char>, ItemView>
    decreases s.len(),
{
    if s.len() == 0 {
        Map::empty()
    } else {
        item_map(s.drop_last()).insert(s.last().0@, s.last().1@)
    }
}

/// Entries are well formed when their names are unique, each entry is keyed
/// by its item's own name, and every item's dates are real days.
pub open spec fn entries_wf(s: Seq<(String, Item)>) -> bool {
    &&& keys_unique(s)
    &&& forall|i: int| 0 <= i < s.len() ==> (#[trigger] s[i]).0@ == s[i].1@.name && s[i].1@.wf()
}

/// The entries of `m` whose item meets `p`.
pub open spec fn keep(m: Map<Seq<char>, ItemView>, p: spec_fn(ItemView) -> bool) -> Map<Seq<char>, ItemView> {
    Map::new(|k: Seq<char>| m.contains_key(k) && p(m[k]), |k: Seq<char>| m[k])
}

/// Each line shows the item of the same place in the view.
pub open spec fn lines_match(lines: Seq<String>, v: Seq<(&String, &Item)>) -> bool {
    &&& lines.len() == v.len()
    &&& forall|i: int| 0 <= i < lines.len() ==> (#[trigger] lines[i])@ == v[i].1@.display_spec()
}

/// The lines that show the items of `entries`, one per item, by ascending name.
pub open spec fn shows_entries(lines: Seq<String>, entries: Seq<(String, Item)>) -> bool {
    exists|v: Seq<(&String, &Item)>| #[trigger] is_sorted_view(v, entries) && lines_match(lines, v)
}

/// Holds of the items that are not completed.
pub open spec fn open_filter() -> spec_fn(ItemView) -> bool {
    |v: ItemView| !v.completed
}

/// Holds of the items that are not completed and are overdue on `today`.
pub open spec fn overdue_filter(today: Date) -> spec_fn(ItemView) -> bool {
    |v: ItemView| !v.completed && v.overdue_on(today)
}

impl ListView {
    /// A list with the given name and description and no items.
    pub open spec fn empty(name: Seq<char>, description: Seq<char>) -> ListView {
        ListView { name, description, items: Map::empty() }
    }

    /// The list with `it` stored under its name, over any item of that name.
    pub open spec fn put(self, it: ItemView) -> ListView {
        ListView { items: self.items.insert(it.name, it), ..self }
    }

    /// Creating `it`: refused when its name is taken and `replace` is false,
    /// otherwise stored, over any item of that name.
    pub open spec fn create(self, it: ItemView, replace: bool) -> (ListView, Result<(), ToDoSelectionError>) {
        if self.items.contains_key(it.name) && !replace {
            (self, Err(ToDoSelectionError::ToDoAlreadyPresent))
        } else {
            (self.put(it), Ok(()))
        }
    }

    /// Looking an item up by name.
    pub open spec fn lookup(self, name: Seq<char>) -> Result<ItemView, ToDoSelectionError> {
        if self.items.contains_key(name) {
            Ok(self.items[name])
        } else {
            Err(ToDoSelectionError::ToDoNotFound)
        }
    }

    /// Deleting an item by name.
    pub open spec fn delete(self, name: Seq<char>) -> (ListView, Result<(), ToDoSelectionError>) {
        if self.items.contains_key(name) {
            (ListView { items: self.items.remove(name), ..self }, Ok(()))
        } else {
            (self, Err(ToDoSelectionError::ToDoNotFound))
        }
    }

    /// Applying `change` to the item named `name`, or refusing when there is none.
    pub open spec fn modify(self, name: Seq<char>, change: spec_fn(ItemView) -> ItemView) -> (ListView, Result<(), ToDoSelectionError>) {
        if self.items.contains_key(name) {
            (ListView { items: self.items.insert(name, change(self.items[name])), ..self }, Ok(()))
        } else {
            (self, Err(ToDoSelectionError::ToDoNotFound))
        }
    }

    /// Marking the item named `name` completed (or not).
    pub open spec fn set_completed(self, name: Seq<char>, completed: bool) -> (ListView, Result<(), ToDoSelectionError>) {
        self.modify(name, |v: ItemView| ItemView { completed, ..v })
    }

    /// The items that are not completed.
    pub open spec fn open_items(self) -> Map<Seq<char>, ItemView> {
        keep(self.items, open_filter())
    }

    /// The items that are not completed and whose due date lies before `today`.
    pub open spec fn overdue_items_on(self, today: Date) -> Map<Seq<char>, ItemView> {
        keep(self.items, overdue_filter(today))
    }

    /// The list shown on one line.
    pub open spec fn display_spec(self) -> Seq<char> {
        "Name: "@ + self.name + "\tDescription: "@ + self.description
    }
}

proof fn lemma_item_map_push(s: Seq<(String, Item)>, e: (String, Item))
    ensures
        item_map(s.push(e)) == item_map(s).insert(e.0@, e.1@),
{
    assert(s.push(e).drop_last() =~= s);
}

proof fn lemma_item_map_absent(s: Seq<(String, Item)>, k: Seq<char>)
    requires
        forall|j: int| 0 <= j < s.len() ==> (#[trigger] s[j]).0@ != k,
    ensures
        !item_map(s).contains_key(k),
    decreases s.len(),
{
    if s.len() > 0 {
        lemma_item_map_absent(s.drop_last(), k);
    }
}

proof fn lemma_item_map_index(s: Seq<(String, Item)>, i: int)
    requires
        keys_unique(s),
        0 <= i < s.len(),
    ensures
        item_map(s).contains_key(s[i].0@),
        item_map(s)[s[i].0@] == s[i].1@,
    decreases s.len(),
{
    if i < s.len() - 1 {
        lemma_item_map_index(s.drop_last(), i);
    }
}

proof fn lemma_item_map_found(s: Seq<(String, Item)>, k: Seq<char>) -> (j: int)
    requires
        item_map(s).contains_key(k),
    ensures
        0 <= j < s.len(),
        s[j].0@ == k,
    decreases s.len(),
{
    if s.last().0@ == k {
        s.len() - 1
    } else {
        lemma_item_map_found(s.drop_last(), k)
    }
}

proof fn lemma_item_map_remove(s: Seq<(String, Item)>, i: int)
    requires
        keys_unique(s),
        0 <= i < s.len(),
    ensures
        item_map(s.remove(i)) == item_map(s).remove(s[i].0@),
    decreases s.len(),
{
    let t = s.drop_last();
    if i == s.len() - 1 {
        assert(s.remove(i) =~= t);
        assert forall|j: int| 0 <= j < t.len() implies (#[trigger] t[j]).0@ != s[i].0@ by {
            assert(s[j] == t[j]);
        }
        lemma_item_map_absent(t, s[i].0@);
        assert(item_map(s).remove(s[i].0@) =~= item_map(t));
    } else {
        assert(s.remove(i).drop_last() =~= t.remove(i));
        assert(s.remove(i).last() == s.last());
        lemma_item_map_remove(t, i);
        assert(item_map(s.remove(i)) =~= item_map(s).remove(s[i].0@));
    }
}

proof fn lemma_keep_insert(m: Map<Seq<char>, ItemView>, k: Seq<char>, v: ItemView, p: spec_fn(ItemView) -> bool)
    requires
        !m.contains_key(k),
    ensures
        keep(m.insert(k, v), p) == (if p(v) {
            keep(m, p).insert(k, v)
        } else {
            keep(m, p)
        }),
{
    if p(v) {
        assert(keep(m.insert(k, v), p) =~= keep(m, p).insert(k, v));
    } else {
        assert(keep(m.insert(k, v), p) =~= keep(m, p));
    }
}

proof fn lemma_entries_push(s: Seq<(String, Item)>, e: (String, Item))
    requires
        entries_wf(s),
        !item_map(s).contains_key(e.0@),
        e.0@ == e.1@.name,
        e.1@.wf(),
    ensures
        entries_wf(s.push(e)),
        item_map(s.push(e)) == item_map(s).insert(e.0@, e.1@),
{
    lemma_item_map_push(s, e);
    let t = s.push(e);
    assert forall|i: int, j: int| 0 <= i < j < t.len() implies t[i].0@ != t[j].0@ by {
        if j == s.len() {
            lemma_item_map_index(s, i);
        } else {
            assert(t[i] == s[i] && t[j] == s[j]);
        }
    }
    assert forall|i: int| 0 <= i < t.len() implies (#[trigger] t[i]).0@ == t[i].1@.name && t[i].1@.wf() by {
        if i < s.len() {
            assert(t[i] == s[i]);
        }
    }
}

proof fn lemma_entries_remove(s: Seq<(String, Item)>, i: int)
    requires
        entries_wf(s),
        0 <= i < s.len(),
    ensures
        entries_wf(s.remove(i)),
        item_map(s.remove(i)) == item_map(s).remove(s[i].0@),
        !item_map(s.remove(i)).contains_key(s[i].0@),
{
    lemma_item_map_remove(s, i);
    let t = s.remove(i);
    assert forall|a: int, b: int| 0 <= a < b < t.len() implies t[a].0@ != t[b].0@ by {
        let a0 = if a < i { a } else { a + 1 };
        let b0 = if b < i { b } else { b + 1 };
        assert(t[a] == s[a0] && t[b] == s[b0]);
    }
    assert forall|a: int| 0 <= a < t.len() implies (#[trigger] t[a]).0@ == t[a].1@.name && t[a].1@.wf() by {
        let a0 = if a < i { a } else { a + 1 };
        assert(t[a] == s[a0]);
    }
}

/// A named to-do list of uniquely named items.
#[derive(Debug)]
pub struct ToDoList {
    name: String,
    description: String,
    items: Vec<(String, Item)>,
}

impl View for ToDoList {
    type V = ListView;

    closed spec fn view(&self) -> ListView {
        ListView { name: self.name@, description: self.description@, items: item_map(self.items@) }
    }
}

impl ToDoList {
    /// The list's entries, each item under its own name.
    pub closed spec fn entries(&self) -> Seq<(String, Item)> {
        self.items@
    }

    /// The list's invariant: its entries are well formed.
    pub open spec fn wf(&self) -> bool {
        entries_wf(self.entries())
    }

    /// The list that the stored values (name, description, entries) make, or
    /// `None` when the entries are not well formed.
    pub open spec fn restore_spec(name: Seq<char>, description: Seq<char>, entries: Seq<(String, Item)>) -> Option<ListView> {
        if entries_wf(entries) {
            Some(ListView { name, description, items: item_map(entries) })
        } else {
            None
        }
    }

    /// A new list with no items.
    pub fn create_to_do_list(list_name: &str, list_description: &str) -> (r: ToDoList)
        ensures
            r.wf(),
            r@ == ListView::empty(list_name@, list_description@),
    {
        let r = ToDoList {
            name: String::from_str(list_name),
            description: String::from_str(list_description),
            items: Vec::new(),
        };
        assert(r@.items =~= Map::empty());
        r
    }

    /// Rebuilds a list from stored values: its name, its description and its
    /// entries. `None` when two entries share a name, an entry is keyed by
    /// another name than its item's, or an item's date is no real day.
    pub fn from_parts(list_name: &str, list_description: &str, entries: Vec<(String, Item)>) -> (r: Option<ToDoList>)
        ensures
            r is Some <==> entries_wf(entries@),
            r matches Some(l) ==> l.wf() && Some(l@) == Self::restore_spec(list_name@, list_description@, entries@),
    {
        let mut i: usize = 0;
        while i < entries.len()
            invariant
                0 <= i <= entries@.len(),
                forall|a: int, b: int| 0 <= a < b < entries@.len() && a < i ==> entries@[a].0@ != entries@[b].0@,
                forall|a: int| 0 <= a < i ==> (#[trigger] entries@[a]).0@ == entries@[a].1@.name && entries@[a].1@.wf(),
            decreases entries@.len() - i,
        {
            let key = &entries[i].0;
            let it = &entries[i].1;
            if !is_text_equal(key.as_str(), it.get_name()) {
                return None;
            }
            let created = it.get_creation_date();
            if Date::from_ymd(created.year, created.month, created.day).is_none() {
                return None;
            }
            if let Some(d) = it.get_due_date() {
                if Date::from_ymd(d.year, d.month, d.day).is_none() {
                    return None;
                }
            }
            let mut j: usize = i + 1;
            while j < entries.len()
                invariant
                    i < j <= entries@.len(),
                    forall|b: int| i < b < j ==> entries@[i as int].0@ != entries@[b].0@,
                decreases entries@.len() - j,
            {
                if is_text_equal(entries[i].0.as_str(), entries[j].0.as_str()) {
                    return None;
                }
                j = j + 1;
            }
            i = i + 1;
        }
        Some(ToDoList { name: String::from_str(list_name), description: String::from_str(list_description), items: entries })
    }

    /// The list's name.
    pub fn get_name(&self) -> (r: &str)
        ensures
            r@ == self@.name,
    {
        self.name.as_str()
    }

    /// The list's description.
    pub fn get_description(&self) -> (r: &str)
        ensures
            r@ == self@.description,
    {
        self.description.as_str()
    }

    /// The list's entries, each item under its own name, in no particular order.
    pub fn get_items(&self) -> (r: &Vec<(String, Item)>)
        ensures
            r@ == self.entries(),
            item_map(r@) == self@.items,
    {
        &self.items
    }

    /// Where the item named `item_name` stands among the entries.
    fn find_index(&self, item_name: &str) -> (r: Option<usize>)
        requires
            self.wf(),
        ensures
            r is Some <==> self@.items.contains_key(item_name@),
            r matches Some(i) ==> i < self.items@.len() && self.items@[i as int].0@ == item_name@,
    {
        let mut i: usize = 0;
        while i < self.items.len()
            invariant
                self.wf(),
                0 <= i <= self.items@.len(),
                forall|j: int| 0 <= j < i ==> (#[trigger] self.items@[j]).0@ != item_name@,
            decreases self.items@.len() - i,
        {
            if is_text_equal(self.items[i].0.as_str(), item_name) {
                proof {
                    lemma_item_map_index(self.items@, i as int);
                }
                return Some(i);
            }
            i = i + 1;
        }
        proof {
            lemma_item_map_absent(self.items@, item_name@);
        }
        None
    }

    /// Whether the list holds an item named `item_name`.
    pub fn list_contains_item(&self, item_name: &str) -> (r: bool)
        requires
            self.wf(),
        ensures
            r == self@.items.contains_key(item_name@),
    {
        self.find_index(item_name).is_some()
    }

    /// Stores `it` under its name, over any item of that name.
    fn put(&mut self, it: Item)
        requires
            old(self).wf(),
            it@.wf(),
        ensures
            final(self).wf(),
            final(self)@ == old(self)@.put(it@),
    {
        let key = String::from_str(it.get_name());
        match self.find_index(key.as_str()) {
            Some(i) => {
                proof {
                    lemma_entries_remove(self.items@, i as int);
                }
                self.items.remove(i);
            },
            None => {},
        }
        proof {
            lemma_entries_push(self.items@, (key, it));
        }
        self.items.push((key, it));
        assert(self@.items =~= old(self)@.put(it@).items);
    }

    /// Creates an item dated `creation_date` and stores it: refused with
    /// `ToDoAlreadyPresent` when the name is taken and `replace` is false.
    /// A due date that names no real day is left out.
    pub fn create_item_on(
        &mut self,
        name: &str,
        description: &str,
        priority: &str,
        due_date_ymd: Option<(i32, u32, u32)>,
        replace: bool,
        creation_date: Date,
    ) -> (r: Result<(), ToDoSelectionError>)
        requires
            old(self).wf(),
            creation_date.wf(),
        ensures
            final(self).wf(),
            (final(self)@, r) == old(self)@.create(
                new_item_spec(name@, description@, priority@, due_date_ymd, creation_date),
                replace,
            ),
    {
        if !self.list_contains_item(name) || replace {
            let it = Item::new_on(name, description, priority, due_date_ymd, creation_date);
            self.put(it);
            Ok(())
        } else {
            Err(ToDoSelectionError::ToDoAlreadyPresent)
        }
    }

    /// Creates an item dated today and stores it: refused with
    /// `ToDoAlreadyPresent` when the name is taken and `replace` is false.
    /// A due date that names no real day is left out.
    pub fn create_item(
        &mut self,
        name: &str,
        description: &str,
        priority: &str,
        due_date_ymd: Option<(i32, u32, u32)>,
        replace: bool,
    ) -> (r: Result<(), ToDoSelectionError>)
        requires
            old(self).wf(),
        ensures
            final(self).wf(),
            final(self)@.items[name@].creation_date.wf(),
            (final(self)@, r) == old(self)@.create(
                new_item_spec(name@, description@, priority@, due_date_ymd, final(self)@.items[name@].creation_date),
                replace,
            ),
    {
        let today = Date::today();
        let r = self.create_item_on(name, description, priority, due_date_ymd, replace, today);
        proof {
            if r is Err {
                let j = lemma_item_map_found(self.items@, name@);
                lemma_item_map_index(self.items@, j);
            }
        }
        r
    }

    /// The item named `item_name`, or `ToDoNotFound`.
    pub fn get_item_ref(&self, item_name: &str) -> (r: Result<&Item, ToDoSelectionError>)
        requires
            self.wf(),
        ensures
            match r {
                Ok(it) => self@.lookup(item_name@) == Ok::<ItemView, ToDoSelectionError>(it@) && it@.wf(),
                Err(e) => self@.lookup(item_name@) == Err::<ItemView, ToDoSelectionError>(e),
            },
    {
        match self.find_index(item_name) {
            Some(i) => {
                proof {
                    lemma_item_map_index(self.items@, i as int);
                }
                Ok(&self.items[i].1)
            },
            None => Err(ToDoSelectionError::ToDoNotFound),
        }
    }

    /// Deletes the item named `item_name`, or fails with `ToDoNotFound` and
    /// leaves the list as it was.
    pub fn delete_item(&mut self, item_name: &str) -> (r: Result<(), ToDoSelectionError>)
        requires
            old(self).wf(),
        ensures
            final(self).wf(),
            (final(self)@, r) == old(self)@.delete(item_name@),
    {
        match self.find_index(item_name) {
            Some(i) => {
                proof {
                    lemma_entries_remove(self.items@, i as int);
                }
                self.items.remove(i);
                assert(self@.items =~= old(self)@.items.remove(item_name@));
                Ok(())
            },
            None => Err(ToDoSelectionError::ToDoNotFound),
        }
    }

    /// Takes the item named `item_name` out of the entries, for a change to
    /// be put back.
    fn take(&mut self, item_name: &str) -> (r: Option<Item>)
        requires
            old(self).wf(),
        ensures
            final(self).wf(),
            r is Some <==> old(self)@.items.contains_key(item_name@),
            r matches Some(it) ==> {
                &&& it@ == old(self)@.items[item_name@]
                &&& it@.name == item_name@
                &&& it@.wf()
                &&& final(self)@ == (ListView { items: old(self)@.items.remove(item_name@), ..old(self)@ })
            },
            r is None ==> *final(self) == *old(self),
    {
        match self.find_index(item_name) {
            Some(i) => {
                proof {
                    lemma_item_map_index(self.items@, i as int);
                    assert(self.items@[i as int].0@ == self.items@[i as int].1@.name);
                    lemma_entries_remove(self.items@, i as int);
                }
                let (_key, it) = self.items.remove(i);
                Some(it)
            },
            None => None,
        }
    }

    /// Changing an item taken out by `take` and storing it again modifies it in place.
    proof fn lemma_put_back(prev: ListView, taken: ListView, name: Seq<char>, change: spec_fn(ItemView) -> ItemView, it: ItemView)
        requires
            prev.items.contains_key(name),
            taken == (ListView { items: prev.items.remove(name), ..prev }),
            it == change(prev.items[name]),
            it.name == name,
        ensures
            taken.put(it) == prev.modify(name, change).0,
    {
        assert(taken.put(it).items =~= prev.modify(name, change).0.items);
    }

    /// Changes the description of the item named `item_name`, or fails with
    /// `ToDoNotFound` and leaves the list as it was.
    pub fn update_item_description(&mut self, item_name: &str, new_description: &str) -> (r: Result<(), ToDoSelectionError>)
        requires
            old(self).wf(),
        ensures
            final(self).wf(),
            (final(self)@, r) == old(self)@.modify(item_name@, |v: ItemView| ItemView { description: new_description@, ..v }),
    {
        let ghost prev = self@;
        match self.take(item_name) {
            Some(mut it) => {
                it.update_description(new_description);
                proof {
                    Self::lemma_put_back(prev, self@, item_name@, |v: ItemView| ItemView { description: new_description@, ..v }, it@);
                }
                self.put(it);
                Ok(())
            },
            None => Err(ToDoSelectionError::ToDoNotFound),
        }
    }

    /// Changes the priority of the item named `item_name` to the one that the
    /// label names, or fails with `ToDoNotFound` and leaves the list as it was.
    pub fn update_item_priority(&mut self, item_name: &str, new_priority: &str) -> (r: Result<(), ToDoSelectionError>)
        requires
            old(self).wf(),
        ensures
            final(self).wf(),
            (final(self)@, r) == old(self)@.modify(
                item_name@,
                |v: ItemView| ItemView { priority: Priority::parse_spec(new_priority@), ..v },
            ),
    {
        let ghost prev = self@;
        match self.take(item_name) {
            Some(mut it) => {
                it.update_priority(new_priority);
                proof {
                    Self::lemma_put_back(prev, self@, item_name@, |v: ItemView| ItemView { priority: Priority::parse_spec(new_priority@), ..v }, it@);
                }
                self.put(it);
                Ok(())
            },
            None => Err(ToDoSelectionError::ToDoNotFound),
        }
    }

    /// Sets the due date of the item named `item_name`, or fails with
    /// `ToDoNotFound` and leaves the list as it was. A (year, month, day)
    /// that names no real day leaves the item's due date as it was.
    pub fn update_item_due_date(&mut self, item_name: &str, ymd: (i32, u32, u32)) -> (r: Result<(), ToDoSelectionError>)
        requires
            old(self).wf(),
        ensures
            final(self).wf(),
            (final(self)@, r) == old(self)@.modify(
                item_name@,
                |v: ItemView|
                    match Date::from_ymd_spec(ymd.0, ymd.1, ymd.2) {
                        Some(d) => ItemView { due_date: Some(d), ..v },
                        None => v,
                    },
            ),
    {
        let ghost prev = self@;
        match self.take(item_name) {
            Some(mut it) => {
                it.update_due_date(ymd);
                proof {
                    Self::lemma_put_back(prev, self@, item_name@, |v: ItemView|
                            match Date::from_ymd_spec(ymd.0, ymd.1, ymd.2) {
                                Some(d) => ItemView { due_date: Some(d), ..v },
                                None => v,
                            }, it@);
                }
                self.put(it);
                Ok(())
            },
            None => {
                assert(self@.items =~= prev.items);
                Err(ToDoSelectionError::ToDoNotFound)
            },
        }
    }

    /// Marks the item named `item_name` completed, or fails with
    /// `ToDoNotFound` and leaves the list as it was.
    pub fn close_list_item(&mut self, item_name: &str) -> (r: Result<(), ToDoSelectionError>)
        requires
            old(self).wf(),
        ensures
            final(self).wf(),
            (final(self)@, r) == old(self)@.set_completed(item_name@, true),
    {
        let ghost prev = self@;
        match self.take(item_name) {
            Some(mut it) => {
                it.complete_item();
                proof {
                    Self::lemma_put_back(prev, self@, item_name@, |v: ItemView| ItemView { completed: true, ..v }, it@);
                }
                self.put(it);
                Ok(())
            },
            None => Err(ToDoSelectionError::ToDoNotFound),
        }
    }

    /// Marks the item named `item_name` not completed, or fails with
    /// `ToDoNotFound` and leaves the list as it was.
    pub fn open_list_item(&mut self, item_name: &str) -> (r: Result<(), ToDoSelectionError>)
        requires
            old(self).wf(),
        ensures
            final(self).wf(),
            (final(self)@, r) == old(self)@.set_completed(item_name@, false),
    {
        let ghost prev = self@;
        match self.take(item_name) {
            Some(mut it) => {
                it.open_item();
                proof {
                    Self::lemma_put_back(prev, self@, item_name@, |v: ItemView| ItemView { completed: false, ..v }, it@);
                }
                self.put(it);
                Ok(())
            },
            None => Err(ToDoSelectionError::ToDoNotFound),
        }
    }

    /// The entries that are not completed and, given a day, overdue on it.
    fn select(&self, overdue_on: Option<Date>) -> (r: Vec<(String, Item)>)
        requires
            self.wf(),
        ensures
            entries_wf(r@),
            item_map(r@) == (match overdue_on {
                Some(today) => keep(self@.items, overdue_filter(today)),
                None => keep(self@.items, open_filter()),
            }),
    {
        let ghost p = match overdue_on {
            Some(today) => overdue_filter(today),
            None => open_filter(),
        };
        let mut output: Vec<(String, Item)> = Vec::new();
        let mut i: usize = 0;
        assert(item_map(self.items@.subrange(0, 0)) =~= Map::empty());
        assert(keep(Map::empty(), p) =~= Map::empty());
        while i < self.items.len()
            invariant
                self.wf(),
                0 <= i <= self.items@.len(),
                entries_wf(output@),
                item_map(output@) == keep(item_map(self.items@.subrange(0, i as int)), p),
                p == (match overdue_on {
                    Some(today) => overdue_filter(today),
                    None => open_filter(),
                }),
            decreases self.items@.len() - i,
        {
            let ghost pre = self.items@.subrange(0, i as int);
            let ghost e = self.items@[i as int];
            proof {
                assert(self.items@.subrange(0, i + 1) =~= pre.push(e));
                lemma_item_map_push(pre, e);
                assert forall|j: int| 0 <= j < pre.len() implies (#[trigger] pre[j]).0@ != e.0@ by {
                    assert(pre[j] == self.items@[j]);
                }
                lemma_item_map_absent(pre, e.0@);
                lemma_keep_insert(item_map(pre), e.0@, e.1@, p);
            }
            let it = &self.items[i].1;
            let wanted = match &overdue_on {
                Some(today) => !it.is_completed() && it.is_overdue_on(today),
                None => !it.is_completed(),
            };
            if wanted {
                let entry = (self.items[i].0.clone(), it.clone());
                proof {
                    lemma_entries_push(output@, entry);
                }
                output.push(entry);
            }
            i = i + 1;
        }
        assert(self.items@.subrange(0, self.items@.len() as int) =~= self.items@);
        output
    }

    /// The items that are not completed, each under its own name.
    pub fn filter_open_items(&self) -> (r: Vec<(String, Item)>)
        requires
            self.wf(),
        ensures
            entries_wf(r@),
            item_map(r@) == self@.open_items(),
    {
        self.select(None)
    }

    /// The items that are not completed and whose due date lies before
    /// `today`, each under its own name.
    pub fn filter_overdue_items_on(&self, today: &Date) -> (r: Vec<(String, Item)>)
        requires
            self.wf(),
        ensures
            entries_wf(r@),
            item_map(r@) == self@.overdue_items_on(*today),
    {
        self.select(Some(*today))
    }

    /// The items that are not completed and whose due date lies before
    /// today's date, each under its own name.
    pub fn filter_overdue_items(&self) -> (r: Vec<(String, Item)>)
        requires
            self.wf(),
        ensures
            entries_wf(r@),
            exists|today: Date| today.wf() && item_map(r@) == #[trigger] self@.overdue_items_on(today),
    {
        let today = Date::today();
        let r = self.select(Some(today));
        assert(item_map(r@) == self@.overdue_items_on(today));
        r
    }

    /// The entries of a collection of items, by ascending name.
    pub fn list_all_items(hash_map: &Vec<(String, Item)>) -> (r: Vec<(&String, &Item)>)
        requires
            keys_unique(hash_map@),
        ensures
            is_sorted_view(r@, hash_map@),
    {
        sort_list(hash_map)
    }

    /// One line for each of the entries' items, by ascending name.
    fn item_lines(entries: &Vec<(String, Item)>) -> (r: Vec<String>)
        requires
            entries_wf(entries@),
        ensures
            shows_entries(r@, entries@),
    {
        let view = sort_list(entries);
        let mut lines: Vec<String> = Vec::new();
        let mut i: usize = 0;
        while i < view.len()
            invariant
                entries_wf(entries@),
                is_sorted_view(view@, entries@),
                0 <= i <= view@.len(),
                lines@.len() == i,
                forall|k: int| 0 <= k < i ==> (#[trigger] lines@[k])@ == view@[k].1@.display_spec(),
            decreases view@.len() - i,
        {
            proof {
                assert(drawn_from(view@, i as int, entries@, entries@.len() as int));
                let j = choose|j: int| 0 <= j < entries@.len() && #[trigger] same_entry(view@, i as int, entries@, j);
                assert(entries@[j].1@.wf());
            }
            let line = view[i].1.display_line();
            lines.push(line);
            i = i + 1;
        }
        assert(lines_match(lines@, view@));
        lines
    }

    /// One line for each item of the list, by ascending name.
    pub fn display_all_items(&self) -> (r: Vec<String>)
        requires
            self.wf(),
        ensures
            shows_entries(r@, self.entries()),
    {
        Self::item_lines(&self.items)
    }

    /// One line for each item that is not completed, by ascending name.
    pub fn display_all_open_items(&self) -> (r: Vec<String>)
        requires
            self.wf(),
        ensures
            exists|e: Seq<(String, Item)>|
                entries_wf(e) && #[trigger] item_map(e) == self@.open_items() && shows_entries(r@, e),
    {
        let open = self.filter_open_items();
        let r = Self::item_lines(&open);
        assert(item_map(open@) == self@.open_items());
        r
    }

    /// One line for each item that is not completed and whose due date lies
    /// before today's date, by ascending name.
    pub fn display_all_overdue_items(&self) -> (r: Vec<String>)
        requires
            self.wf(),
        ensures
            exists|e: Seq<(String, Item)>, today: Date|
                today.wf() && entries_wf(e) && #[trigger] item_map(e) == #[trigger] self@.overdue_items_on(today)
                    && shows_entries(r@, e),
    {
        let today = Date::today();
        let overdue = self.filter_overdue_items_on(&today);
        let r = Self::item_lines(&overdue);
        assert(item_map(overdue@) == self@.overdue_items_on(today));
        r
    }

    /// The list shown on one line.
    pub fn display_line(&self) -> (r: String)
        ensures
            r@ == self@.display_spec(),
    {
        let mut out = String::from_str("Name: ");
        out.append(self.name.as_str());
        out.append("\tDescription: ");
        out.append(self.description.as_str());
        out
    }
}

/// Saving a list keeps its name, its description and its entries; loading
/// rebuilds a list from them. Round trip: what a well-formed list stores
/// restores to that same list, every item with all its fields.
pub proof fn lemma_save_load_round_trip(l: &ToDoList)
    requires
        l.wf(),
    ensures
        ToDoList::restore_spec(l@.name, l@.description, l.entries()) == Some(l@),
{
}

} // verus!
