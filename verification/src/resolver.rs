//! Turning an optional project name into exactly one project.

use crate::error::Error;
use crate::record::{Project, ProjectSpec};
use vstd::prelude::*;

verus! {

/// Whether `project` is what `name` asks for: the project of that exact
/// name, or, without a name, the one marked as default.
pub open spec fn is_candidate(project: ProjectSpec, name: Option<Seq<char>>) -> bool {
    match name {
        Some(wanted) => project.name == wanted,
        None => project.is_default,
    }
}

/// The projects among `projects` that `name` asks for, in their order.
pub open spec fn candidates(projects: Seq<ProjectSpec>, name: Option<Seq<char>>) -> Seq<
    ProjectSpec,
> {
    projects.filter(|p: ProjectSpec| is_candidate(p, name))
}

/// The outcome of resolution: the single candidate, or why there is none.
pub open spec fn resolution(projects: Seq<ProjectSpec>, name: Option<Seq<char>>) -> Result<
    ProjectSpec,
    Error,
> {
    let found = candidates(projects, name);
    if found.len() == 0 {
        Err(Error::ProjectNotFound)
    } else if found.len() == 1 {
        Ok(found[0])
    } else {
        Err(Error::AmbiguousProject)
    }
}

/// Whether `project` is what `name` asks for.
pub fn matches_name(project: &Project, name: &Option<String>) -> (r: bool)
    ensures
        r == is_candidate(project@, name.deep_view()),
{
    match name {
        Some(wanted) => project.name == *wanted,
        None => project.is_default,
    }
}

/// Resolves `name` among one user's `projects`.
///
/// With a name, the project of exactly that name; without one, the project
/// marked as default. No candidate is [`Error::ProjectNotFound`]; more than
/// one is [`Error::AmbiguousProject`], and none of them is picked.
pub fn resolve<'a>(name: &Option<String>, projects: &'a Vec<Project>) -> (r: Result<
    &'a Project,
    Error,
>)
    ensures
        match r {
            Ok(project) => resolution(projects.deep_view(), name.deep_view()) == Ok::<
                ProjectSpec,
                Error,
            >(project@),
            Err(e) => resolution(projects.deep_view(), name.deep_view()) == Err::<
                ProjectSpec,
                Error,
            >(e),
        },
{
    let ghost all = projects.deep_view();
    let ghost wanted = name.deep_view();
    let mut first: Option<usize> = None;
    let mut several = false;
    let mut i: usize = 0;
    while i < projects.len()
        invariant
            i <= projects.len(),
            all == projects.deep_view(),
            wanted == name.deep_view(),
            first is None <==> candidates(all.take(i as int), wanted).len() == 0,
            first matches Some(k) ==> k < i && candidates(all.take(i as int), wanted)[0]
                == projects[k as int]@,
            several <==> candidates(all.take(i as int), wanted).len() >= 2,
        decreases projects.len() - i,
    {
        proof {
            reveal(Seq::filter);
            assert(all.take(i + 1).drop_last() =~= all.take(i as int));
            assert(all.take(i + 1).last() == projects[i as int]@);
        }
        if matches_name(&projects[i], name) {
            if first.is_some() {
                several = true;
            } else {
                first = Some(i);
            }
        }
        i += 1;
    }
    assert(all.take(i as int) =~= all);
    match first {
        None => Err(Error::ProjectNotFound),
        Some(k) => if several {
            Err(Error::AmbiguousProject)
        } else {
            Ok(&projects[k])
        },
    }
}

} // verus!
