use vstd::prelude::*;
use vstd::string::StringExecFns;
use crate::date::{date_text, Date};
use crate::priority::Priority;

verus! {

/// What an item holds, as plain values.
pub struct ItemView {
    pub name: Seq<char>,
    pub description: Seq<char>,
    pub priority: Priority,
    pub creation_date: Date,
    pub due_date: Option<Date>,
    pub completed: bool,
}

impl ItemView {
    /// Every date of the item is a real day.
    pub open spec fn wf(self) -> bool {
        &&& self.creation_date.wf()
        &&& self.due_date matches Some(d) ==> d.wf()
    }

    /// The due date lies strictly before `today`; an item without one is never overdue.
    pub open spec fn overdue_on(self, today: Date) -> bool {
        match self.due_date {
            Some(d) => d.before(today),
            None => false,
        }
    }

    /// The item shown on one line, its due date as "NA" when it has none.
    pub open spec fn display_spec(self) -> Seq<char> {
        "Name: "@ + self.name + "\tDescription: "@ + self.description + "\tPriority: "@
            + self.priority.label_spec() + "\tCreation Date:"@ + date_text(
            self.creation_date.year,
            self.creation_date.month,
            self.creation_date.day,
        ) + match self.due_date {
            Some(d) => "\tDue Date:"@ + date_text(d.year, d.month, d.day),
            None => "\tDue Date: NA"@,
        }
    }
}

/// The due date that an optional (year, month, day) gives: none when absent
/// or when it names no real day.
pub open spec fn due_date_of(ymd: Option<(i32, u32, u32)>) -> Option<Date> {
    match ymd {
        Some(t) => Date::from_ymd_spec(t.0, t.1, t.2),
        None => None,
    }
}

/// The item that creation makes of its inputs on the day `creation_date`.
pub open spec fn new_item_spec(
    name: Seq<char>,
    description: Seq<char>,
    priority: Seq<char>,
    due_date_ymd: Option<(i32, u32, u32)>,
    creation_date: Date,
) -> ItemView {
    ItemView {
        name,
        description,
        priority: Priority::parse_spec(priority),
        creation_date,
        due_date: due_date_of(due_date_ymd),
        completed: false,
    }
}

/// A single task of a to-do list.
#[derive(Debug)]
pub struct Item {
    name: String,
    description: String,
    priority: Priority,
    creation_date: Date,
    due_date: Option<Date>,
    completed: bool,
}

impl View for Item {
    type V = ItemView;

    closed spec fn view(&self) -> ItemView {
        ItemView {
            name: self.name@,
            description: self.description@,
            priority: self.priority,
            creation_date: self.creation_date,
            due_date: self.due_date,
            completed: self.completed,
        }
    }
}

impl Clone for Item {
    fn clone(&self) -> (r: Item)
        ensures
            r@ == self@,
    {
        Item {
            name: self.name.clone(),
            description: self.description.clone(),
            priority: self.priority,
            creation_date: self.creation_date,
            due_date: self.due_date,
            completed: self.completed,
        }
    }
}

impl Item {
    /// Makes an open item created on `creation_date`; a due date that names no
    /// real day is left out, and the item is made all the same.
    pub(crate) fn new_on(
        name: &str,
        description: &str,
        priority: &str,
        due_date_ymd: Option<(i32, u32, u32)>,
        creation_date: Date,
    ) -> (r: Item)
        requires
            creation_date.wf(),
        ensures
            r@ == new_item_spec(name@, description@, priority@, due_date_ymd, creation_date),
            r@.wf(),
    {
        let due_date = match due_date_ymd {
            Some(ymd) => Date::from_ymd(ymd.0, ymd.1, ymd.2),
            None => None,
        };
        Item {
            name: String::from_str(name),
            description: String::from_str(description),
            priority: Priority::from_str(priority),
            creation_date,
            due_date,
            completed: false,
        }
    }

    /// Rebuilds an item from stored values; `None` when one of its dates is no real day.
    pub fn from_parts(
        name: &str,
        description: &str,
        priority: Priority,
        creation_date: Date,
        due_date: Option<Date>,
        completed: bool,
    ) -> (r: Option<Item>)
        ensures
            r is Some <==> (ItemView { name: name@, description: description@, priority, creation_date, due_date, completed }).wf(),
            r matches Some(it) ==> it@ == (ItemView {
                name: name@,
                description: description@,
                priority,
                creation_date,
                due_date,
                completed,
            }),
    {
        if Date::from_ymd(creation_date.year, creation_date.month, creation_date.day).is_none() {
            return None;
        }
        if let Some(d) = due_date {
            if Date::from_ymd(d.year, d.month, d.day).is_none() {
                return None;
            }
        }
        Some(
            Item {
                name: String::from_str(name),
                description: String::from_str(description),
                priority,
                creation_date,
                due_date,
                completed,
            },
        )
    }

    /// The item's name.
    pub fn get_name(&self) -> (r: &str)
        ensures
            r@ == self@.name,
    {
        self.name.as_str()
    }

    /// The item's description.
    pub fn get_description(&self) -> (r: &str)
        ensures
            r@ == self@.description,
    {
        self.description.as_str()
    }

    /// The item's priority.
    pub fn get_priority(&self) -> (r: &Priority)
        ensures
            *r == self@.priority,
    {
        &self.priority
    }

    /// The day the item was created.
    pub fn get_creation_date(&self) -> (r: &Date)
        ensures
            *r == self@.creation_date,
    {
        &self.creation_date
    }

    /// The item's due date, if it has one.
    pub fn get_due_date(&self) -> (r: &Option<Date>)
        ensures
            *r == self@.due_date,
    {
        &self.due_date
    }

    /// Whether the item's due date lies strictly before `today`.
    pub fn is_overdue_on(&self, today: &Date) -> (r: bool)
        ensures
            r == self@.overdue_on(*today),
    {
        match &self.due_date {
            Some(d) => d.is_before(today),
            None => false,
        }
    }

    /// Whether the item's due date lies strictly before today's date.
    pub fn is_overdue(&self) -> (r: bool)
        ensures
            self@.due_date is None ==> !r,
            r ==> exists|today: Date| today.wf() && self@.overdue_on(today),
    {
        let today = Date::today();
        self.is_overdue_on(&today)
    }

    /// Whether the item has been completed.
    pub fn is_completed(&self) -> (r: bool)
        ensures
            r == self@.completed,
    {
        self.completed
    }

    pub(crate) fn update_description(&mut self, new_description: &str)
        ensures
            final(self)@ == (ItemView { description: new_description@, ..old(self)@ }),
    {
        self.description = String::from_str(new_description);
    }

    pub(crate) fn update_priority(&mut self, new_priority: &str)
        ensures
            final(self)@ == (ItemView { priority: Priority::parse_spec(new_priority@), ..old(self)@ }),
    {
        self.priority = Priority::from_str(new_priority);
    }

    /// Sets the due date; a (year, month, day) that names no real day leaves it as it was.
    pub(crate) fn update_due_date(&mut self, ymd: (i32, u32, u32))
        ensures
            final(self)@ == (match Date::from_ymd_spec(ymd.0, ymd.1, ymd.2) {
                Some(d) => ItemView { due_date: Some(d), ..old(self)@ },
                None => old(self)@,
            }),
    {
        if let Some(d) = Date::from_ymd(ymd.0, ymd.1, ymd.2) {
            self.due_date = Some(d);
        }
    }

    pub(crate) fn complete_item(&mut self)
        ensures
            final(self)@ == (ItemView { completed: true, ..old(self)@ }),
    {
        self.completed = true;
    }

    pub(crate) fn open_item(&mut self)
        ensures
            final(self)@ == (ItemView { completed: false, ..old(self)@ }),
    {
        self.completed = false;
    }

    /// The item shown on one line, its due date as "NA" when it has none.
    pub fn display_line(&self) -> (r: String)
        requires
            self@.wf(),
        ensures
            r@ == self@.display_spec(),
    {
        let mut out = String::from_str("Name: ");
        out.append(self.name.as_str());
        out.append("\tDescription: ");
        out.append(self.description.as_str());
        out.append("\tPriority: ");
        let label = self.priority.label();
        out.append(label.as_str());
        out.append("\tCreation Date:");
        let created = self.creation_date.to_text();
        out.append(created.as_str());
        match &self.due_date {
            Some(d) => {
                out.append("\tDue Date:");
                let due = d.to_text();
                out.append(due.as_str());
            },
            None => {
                out.append("\tDue Date: NA");
            },
        }
        out
    }
}

} // verus!
