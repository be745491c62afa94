//! What the listings show: one line per project, one row per entry.

use crate::record::{Entry, EntrySpec, Project, ProjectSpec};
use crate::time::{datetime_text, duration_display, duration_text, whole_seconds};
use vstd::prelude::*;

verus! {

/// One row of the entry listing, every column as text.
#[derive(Debug, PartialEq, Eq)]
pub struct EntryView {
    pub start: String,
    /// Empty while the entry is running.
    pub stop: String,
    /// Whole seconds; the sub-second part is discarded, never rounded up.
    pub duration: String,
    pub project_name: String,
}

/// What an [`EntryView`] holds.
pub struct EntryViewSpec {
    pub start: Seq<char>,
    pub stop: Seq<char>,
    pub duration: Seq<char>,
    pub project_name: Seq<char>,
}

impl View for EntryView {
    type V = EntryViewSpec;

    open spec fn view(&self) -> EntryViewSpec {
        EntryViewSpec {
            start: self.start@,
            stop: self.stop@,
            duration: self.duration@,
            project_name: self.project_name@,
        }
    }
}

impl DeepView for EntryView {
    type V = EntryViewSpec;

    open spec fn deep_view(&self) -> EntryViewSpec {
        self@
    }
}

/// The row that shows `entry`.
pub open spec fn shown_entry(entry: EntrySpec) -> EntryViewSpec {
    EntryViewSpec {
        start: datetime_text(entry.start_at),
        stop: match entry.stop_at {
            Some(t) => datetime_text(t),
            None => Seq::empty(),
        },
        duration: duration_text(whole_seconds(entry.duration)),
        project_name: entry.project_name,
    }
}

/// The rows that show `entries`, one for each and in the same order.
pub open spec fn shown_entries(entries: Seq<EntrySpec>) -> Seq<EntryViewSpec> {
    entries.map_values(|e: EntrySpec| shown_entry(e))
}

/// The line that shows `project`: its name, marked with ` (*)` when it is
/// the default.
pub open spec fn shown_project(project: ProjectSpec) -> Seq<char> {
    if project.is_default {
        project.name + " (*)"@
    } else {
        project.name
    }
}

/// The lines that show `projects`, one for each and in the same order.
pub open spec fn shown_projects(projects: Seq<ProjectSpec>) -> Seq<Seq<char>> {
    projects.map_values(|p: ProjectSpec| shown_project(p))
}

/// The row that shows one entry.
pub fn entry_view(entry: &Entry) -> (r: EntryView)
    ensures
        r@ == shown_entry(entry@),
{
    let stop = match entry.stop_at {
        Some(t) => t.to_text(),
        None => String::new(),
    };
    EntryView {
        start: entry.start_at.to_text(),
        stop,
        duration: duration_display(entry.duration),
        project_name: entry.project_name.clone(),
    }
}

/// The rows of the entry listing, in the order the store returned the
/// entries.
pub fn list_entries(entries: &Vec<Entry>) -> (r: Vec<EntryView>)
    ensures
        r.deep_view() == shown_entries(entries.deep_view()),
{
    let mut rows: Vec<EntryView> = Vec::new();
    let mut i: usize = 0;
    while i < entries.len()
        invariant
            i <= entries.len(),
            rows.len() == i,
            forall|k: int| 0 <= k < i ==> (#[trigger] rows[k])@ == shown_entry(entries[k]@),
        decreases entries.len() - i,
    {
        rows.push(entry_view(&entries[i]));
        i += 1;
    }
    assert(rows.deep_view() =~= shown_entries(entries.deep_view()));
    rows
}

/// The line that shows one project.
pub fn project_line(project: &Project) -> (r: String)
    ensures
        r@ == shown_project(project@),
{
    let mut line = project.name.clone();
    if project.is_default {
        line.append(" (*)");
    }
    line
}

/// The lines of the project listing, in the order the store returned the
/// projects.
pub fn list_projects(projects: &Vec<Project>) -> (r: Vec<String>)
    ensures
        r.deep_view() == shown_projects(projects.deep_view()),
{
    let mut lines: Vec<String> = Vec::new();
    let mut i: usize = 0;
    while i < projects.len()
        invariant
            i <= projects.len(),
            lines.len() == i,
            forall|k: int| 0 <= k < i ==> (#[trigger] lines[k])@ == shown_project(projects[k]@),
        decreases projects.len() - i,
    {
        lines.push(project_line(&projects[i]));
        i += 1;
    }
    assert(lines.deep_view() =~= shown_projects(projects.deep_view()));
    lines
}

} // verus!
