use vstd::prelude::*;

verus! {

/// An instant in UTC: whole seconds since the Unix epoch and the
/// nanoseconds elapsed within that second.
#[derive(Clone, Copy, Debug, PartialEq, Eq, Structural)]
pub struct Timestamp {
    pub secs: i64,
    pub nanos: u32,
}

impl Timestamp {
    /// Nanoseconds since the Unix epoch.
    pub open spec fn instant(self) -> int {
        self.secs * 1_000_000_000 + self.nanos
    }

    /// The nanosecond part stays within one second.
    pub open spec fn wf(self) -> bool {
        self.nanos < 1_000_000_000
    }
}

/// A titled task with its completion state.
#[derive(Debug, PartialEq, Eq)]
pub struct Todo {
    pub id: String,
    pub title: String,
    pub added_at: Timestamp,
    pub is_complete: bool,
    pub completed_at: Option<Timestamp>,
}

impl Todo {
    /// Completion time present exactly when the item is complete.
    pub open spec fn completion_consistent(self) -> bool {
        self.is_complete <==> self.completed_at is Some
    }
}

impl Clone for Todo {
    fn clone(&self) -> (r: Self)
        ensures
            r == *self,
    {
        Todo {
            id: self.id.clone(),
            title: self.title.clone(),
            added_at: self.added_at,
            is_complete: self.is_complete,
            completed_at: self.completed_at,
        }
    }
}

} // verus!
