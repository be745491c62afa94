//! The records the store hands out: projects and entries.

use crate::ident::{EntryId, ProjectId};
use crate::time::Timestamp;
use vstd::prelude::*;

verus! {

/// A project as the store lists it for its owner.
#[derive(Debug, PartialEq, Eq)]
pub struct Project {
    pub id: ProjectId,
    /// Unique among the owner's projects when the store is in order.
    pub name: String,
    /// Whether the owner has designated this project as the default.
    pub is_default: bool,
}

/// What a [`Project`] holds.
pub struct ProjectSpec {
    pub id: ProjectId,
    pub name: Seq<char>,
    pub is_default: bool,
}

impl View for Project {
    type V = ProjectSpec;

    open spec fn view(&self) -> ProjectSpec {
        ProjectSpec { id: self.id, name: self.name@, is_default: self.is_default }
    }
}

impl DeepView for Project {
    type V = ProjectSpec;

    open spec fn deep_view(&self) -> ProjectSpec {
        self@
    }
}

/// A timed work session as the store lists it.
#[derive(Debug, PartialEq, Eq)]
pub struct Entry {
    pub id: EntryId,
    pub start_at: Timestamp,
    /// Absent while the entry is running.
    pub stop_at: Option<Timestamp>,
    /// From start to stop, or to the store's current time while the entry is
    /// running; in microseconds.
    pub duration: i64,
    pub project_name: String,
}

/// What an [`Entry`] holds, with instants in microseconds since the Unix
/// epoch.
pub struct EntrySpec {
    pub id: EntryId,
    pub start_at: int,
    pub stop_at: Option<int>,
    pub duration: int,
    pub project_name: Seq<char>,
}

impl View for Entry {
    type V = EntrySpec;

    open spec fn view(&self) -> EntrySpec {
        EntrySpec {
            id: self.id,
            start_at: self.start_at@,
            stop_at: match self.stop_at {
                Some(t) => Some(t@),
                None => None,
            },
            duration: self.duration as int,
            project_name: self.project_name@,
        }
    }
}

impl DeepView for Entry {
    type V = EntrySpec;

    open spec fn deep_view(&self) -> EntrySpec {
        self@
    }
}

impl EntrySpec {
    /// Whether the entry is still running.
    pub open spec fn is_active(self) -> bool {
        self.stop_at is None
    }
}

} // verus!
