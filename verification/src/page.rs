//! The `Page` record: one journaling entry per calendar date.

use vstd::prelude::*;

verus! {

/// Mathematical view of a [`Page`]: every text field as a sequence of
/// characters, and the happiness score as an unbounded integer.
pub ghost struct PageView {
    pub date: Seq<char>,
    pub schedule: Seq<char>,
    pub todo: Seq<char>,
    pub goals: Seq<char>,
    pub motivation: Seq<char>,
    pub happiness: int,
    pub journal: Seq<char>,
}

/// One daily page.  `date` (format `yyyy-mm-dd`) is the natural key: the
/// store keeps at most one page per date.  The five text fields are free
/// text; `happiness` has an intended domain of 1 to 10, which the store
/// deliberately does not enforce (it is the caller's responsibility).
#[derive(Debug, Clone)]
pub struct Page {
    pub date: String,
    pub schedule: String,
    pub todo: String,
    pub goals: String,
    pub motivation: String,
    pub happiness: i64,
    pub journal: String,
}

impl View for Page {
    type V = PageView;

    open spec fn view(&self) -> PageView {
        PageView {
            date: self.date@,
            schedule: self.schedule@,
            todo: self.todo@,
            goals: self.goals@,
            motivation: self.motivation@,
            happiness: self.happiness as int,
            journal: self.journal@,
        }
    }
}

impl PartialEq for Page {
    /// Two pages are equal exactly when they agree field for field.
    fn eq(&self, other: &Page) -> (r: bool) {
        self.date == other.date && self.schedule == other.schedule && self.todo == other.todo
            && self.goals == other.goals && self.motivation == other.motivation
            && self.happiness == other.happiness && self.journal == other.journal
    }
}

impl vstd::std_specs::cmp::PartialEqSpecImpl for Page {
    open spec fn obeys_eq_spec() -> bool {
        true
    }

    open spec fn eq_spec(&self, other: &Page) -> bool {
        self@ == other@
    }
}

} // verus!
