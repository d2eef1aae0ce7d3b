//! The projects the service keeps in memory, numbered as they are added.

use vstd::prelude::*;
use crate::errors::AuthError;
use crate::models::{NewProject, Project, ProjectView};
use crate::text::{blank, is_blank};

verus! {

/// The views of a sequence of projects.
pub open spec fn project_views(projects: Seq<Project>) -> Seq<ProjectView> {
    projects.map_values(|p: Project| p@)
}

/// The largest identifier among `projects`, if there is any project.
pub open spec fn highest_id(projects: Seq<ProjectView>) -> Option<i64>
    decreases projects.len(),
{
    if projects.len() == 0 {
        None
    } else {
        match highest_id(projects.drop_last()) {
            Some(h) if h >= projects.last().id => Some(h),
            _ => Some(projects.last().id),
        }
    }
}

/// The identifier after the largest one, or 1 where there is no project.
pub open spec fn next_id_after(projects: Seq<ProjectView>) -> int {
    match highest_id(projects) {
        Some(h) => h + 1,
        None => 1,
    }
}

/// The projects every registry starts with.
pub open spec fn initial_projects() -> Seq<ProjectView> {
    seq![
        ProjectView {
            id: 1,
            name: "Frontend Development"@,
            description: "User interface and UX improvements"@,
            active: true,
        },
        ProjectView {
            id: 2,
            name: "Backend API"@,
            description: "Server-side development and database optimization"@,
            active: true,
        },
        ProjectView {
            id: 3,
            name: "Mobile App"@,
            description: "iOS and Android application development"@,
            active: true,
        },
    ]
}

/// The largest identifier is one of the identifiers, and none is larger.
pub proof fn lemma_highest_id(projects: Seq<ProjectView>)
    ensures
        projects.len() == 0 <==> highest_id(projects) is None,
        highest_id(projects) matches Some(h) ==> {
            &&& exists|i: int| 0 <= i < projects.len() && (#[trigger] projects[i]).id == h
            &&& forall|i: int| 0 <= i < projects.len() ==> (#[trigger] projects[i]).id <= h
        },
    decreases projects.len(),
{
    if projects.len() > 0 {
        let front = projects.drop_last();
        lemma_highest_id(front);
        let h = highest_id(projects)->0;
        assert forall|i: int| 0 <= i < projects.len() implies (#[trigger] projects[i]).id <= h by {
            if i < front.len() {
                assert(front[i] == projects[i]);
            }
        }
        if h == projects.last().id {
            assert(projects[projects.len() - 1].id == h);
        } else {
            let k = choose|k: int| 0 <= k < front.len() && (#[trigger] front[k]).id == h;
            assert(projects[k] == front[k]);
        }
    }
}

/// The projects of the service.
pub struct ProjectRegistry {
    projects: Vec<Project>,
}

impl ProjectRegistry {
    /// The projects, in the order in which they were added.
    pub closed spec fn view(&self) -> Seq<ProjectView> {
        project_views(self.projects@)
    }

    /// A registry that holds the initial projects.
    pub fn new() -> (registry: Self)
        ensures
            registry@ == initial_projects(),
    {
        let mut projects: Vec<Project> = Vec::new();
        projects.push(
            Project {
                id: 1,
                name: "Frontend Development".to_owned(),
                description: "User interface and UX improvements".to_owned(),
                active: true,
            },
        );
        projects.push(
            Project {
                id: 2,
                name: "Backend API".to_owned(),
                description: "Server-side development and database optimization".to_owned(),
                active: true,
            },
        );
        projects.push(
            Project {
                id: 3,
                name: "Mobile App".to_owned(),
                description: "iOS and Android application development".to_owned(),
                active: true,
            },
        );
        assert(project_views(projects@) =~= initial_projects());
        ProjectRegistry { projects }
    }

    /// The projects, in the order in which they were added.
    pub fn get_projects(&self) -> (all: Vec<Project>)
        ensures
            project_views(all@) == self@,
    {
        let mut all: Vec<Project> = Vec::new();
        let mut i: usize = 0;
        while i < self.projects.len()
            invariant
                0 <= i <= self.projects.len(),
                project_views(all@) == project_views(self.projects@).take(i as int),
            decreases self.projects.len() - i,
        {
            let project = self.projects[i].clone();
            let ghost before = all@;
            all.push(project);
            proof {
                let shown = project_views(self.projects@);
                assert(project_views(before.push(project)) =~= project_views(before).push(
                    project@,
                ));
                assert(shown.take(i + 1) =~= shown.take(i as int).push(shown[i as int]));
            }
            i = i + 1;
        }
        assert(project_views(self.projects@).take(i as int) =~= project_views(self.projects@));
        all
    }

    /// The identifier the next project gets: one more than the largest in
    /// use, or nothing where that one is the largest there is.
    pub fn get_next_project_id(&self) -> (next: Option<i64>)
        ensures
            match next {
                Some(id) => id == next_id_after(self@),
                None => next_id_after(self@) > i64::MAX,
            },
    {
        let ghost all = project_views(self.projects@);
        let mut highest: Option<i64> = None;
        let mut i: usize = 0;
        while i < self.projects.len()
            invariant
                0 <= i <= self.projects.len(),
                all == project_views(self.projects@),
                highest == highest_id(all.take(i as int)),
            decreases self.projects.len() - i,
        {
            proof {
                assert(all.take(i + 1).drop_last() =~= all.take(i as int));
                assert(all.take(i + 1).last() == self.projects@[i as int]@);
            }
            let id = self.projects[i].id;
            highest = match highest {
                Some(h) if h >= id => Some(h),
                _ => Some(id),
            };
            i = i + 1;
        }
        assert(all.take(i as int) =~= all);
        match highest {
            Some(h) => h.checked_add(1),
            None => Some(1),
        }
    }

    /// What adding to `projects` yields: the new project, active and under
    /// the next identifier, or why it cannot be added.
    pub open spec fn spec_add(
        projects: Seq<ProjectView>,
        name: Seq<char>,
        description: Seq<char>,
    ) -> Result<ProjectView, AuthError> {
        if blank(name) {
            Err(AuthError::Validation)
        } else if next_id_after(projects) > i64::MAX {
            Err(AuthError::Internal)
        } else {
            Ok(
                ProjectView {
                    id: next_id_after(projects) as i64,
                    name,
                    description,
                    active: true,
                },
            )
        }
    }

    /// Adds a project under the next identifier. A project without a name
    /// is refused, and the registry stays as it was.
    pub fn add_project(&mut self, new: &NewProject) -> (r: Result<Project, AuthError>)
        ensures
            match r {
                Ok(project) => {
                    &&& Self::spec_add(old(self)@, new.name@, new.description@) == Ok::<
                        _,
                        AuthError,
                    >(project@)
                    &&& final(self)@ == old(self)@.push(project@)
                },
                Err(e) => {
                    &&& Self::spec_add(old(self)@, new.name@, new.description@) == Err::<
                        ProjectView,
                        _,
                    >(e)
                    &&& final(self)@ == old(self)@
                },
            },
    {
        if is_blank(new.name.as_str()) {
            return Err(AuthError::Validation);
        }
        match self.get_next_project_id() {
            None => Err(AuthError::Internal),
            Some(id) => {
                let project = Project {
                    id,
                    name: new.name.clone(),
                    description: new.description.clone(),
                    active: true,
                };
                let stored = project.clone();
                assert(project_views(self.projects@.push(stored)) =~= project_views(
                    self.projects@,
                ).push(stored@));
                self.projects.push(stored);
                Ok(project)
            },
        }
    }
}

} // verus!
