//! Use cases on projects.
use crate::calendar::Timestamp;
use crate::cycle::CycleView;
use crate::error::{AppError, AppErrorView, DomainErrorView};
use crate::ids::{is_version_7, ObjectiveId, ProjectId};
use crate::objective::ObjectiveView;
use crate::parent_progression::{
    ensure_cycle, ensure_cycle_open, ensure_objective, ensure_objective_open, line_of,
    held_under_keys, line_partly_stored, line_stored, load_ancestry, load_cycle, load_objective, load_project,
    objective_line_open, parents_activation, persist_activated,
};
use crate::project::{Project, ProjectView};
use crate::repos::{projects_by_objective_id, CycleRepository, ObjectiveRepository, ProjectRepository};
use crate::services::{
    answers, changes_one, decided, guarded, may_clash, lists_under, reads_one, refusal, result_view,
};
use crate::status::ProjectStatus;
use crate::text::{opt_non_blank, opt_text};
use crate::title::{title_outcome, Title};
use vstd::prelude::*;

verus! {

pub struct CreateProject {
    pub title: String,
    pub description: Option<String>,
}

pub struct UpdateProject {
    pub title: String,
    pub description: Option<String>,
}

/// What adding a project under the objective `objective_id` decides: the
/// objective and its cycle must be stored and still accept children, then the
/// title must not be blank.
pub open spec fn create_verdict(
    cycles: Map<u128, CycleView>,
    objectives: Map<u128, ObjectiveView>,
    objective_id: u128,
    title: Seq<char>,
) -> Result<(), AppErrorView> {
    match objective_line_open(
        cycles,
        objectives,
        objective_id,
        "cannot add a project to a completed or archived objective"@,
        "cannot add a project to a closed or archived cycle"@,
    ) {
        Err(e) => Err(e),
        Ok(()) => if title_outcome(title) is None {
            Err(AppErrorView::Domain(DomainErrorView::EmptyTitle))
        } else {
            Ok(())
        },
    }
}

/// What editing a stored project decides.
pub open spec fn update_decision(
    v: ProjectView,
    title: Seq<char>,
    description: Option<Seq<char>>,
    now: int,
) -> Result<ProjectView, DomainErrorView> {
    if title_outcome(title) is None {
        Err(DomainErrorView::EmptyTitle)
    } else if v.is_frozen() {
        Err(refusal(v.status.text(), v.status.text()))
    } else {
        Ok(
            ProjectView {
                title: title_outcome(title)->Some_0,
                description: opt_non_blank(description),
                updated_at: now,
                ..v
            },
        )
    }
}

/// What activating a project decides on its stored line: its cycle and
/// objective become active unless they already are, and the draft project
/// becomes active.
pub open spec fn activate_decision(line: (CycleView, ObjectiveView, ProjectView), now: int) -> Result<
    (CycleView, ObjectiveView, ProjectView),
    DomainErrorView,
> {
    match parents_activation(line.0, line.1, now) {
        Err(e) => Err(e),
        Ok(parents) => if line.2.status == ProjectStatus::Draft {
            Ok((parents.0, parents.1, line.2.with_status(ProjectStatus::Active, now)))
        } else {
            Err(refusal(line.2.status.text(), "active"@))
        },
    }
}

/// What completing a stored project decides.
pub open spec fn complete_decision(v: ProjectView, now: int) -> Result<ProjectView, DomainErrorView> {
    if v.status == ProjectStatus::Active {
        Ok(v.with_status(ProjectStatus::Completed, now))
    } else {
        Err(refusal(v.status.text(), "completed"@))
    }
}

/// What archiving a stored project decides.
pub open spec fn archive_decision(v: ProjectView, now: int) -> Result<ProjectView, DomainErrorView> {
    if v.status != ProjectStatus::Archived {
        Ok(v.with_status(ProjectStatus::Archived, now))
    } else {
        Err(refusal(v.status.text(), "archived"@))
    }
}

#[derive(Clone)]
pub struct ProjectService<C, O, P> {
    cycles: C,
    objectives: O,
    projects: P,
}

impl<C: CycleRepository, O: ObjectiveRepository, P: ProjectRepository> ProjectService<C, O, P> {
    /// The cycles the service reads and writes.
    pub closed spec fn cycles(&self) -> Map<u128, CycleView> {
        self.cycles.cycles()
    }

    /// The objectives the service reads and writes.
    pub closed spec fn objectives(&self) -> Map<u128, ObjectiveView> {
        self.objectives.objectives()
    }

    /// The projects the service reads and writes.
    pub closed spec fn projects(&self) -> Map<u128, ProjectView> {
        self.projects.projects()
    }

    pub fn new(cycles: C, objectives: O, projects: P) -> (r: Self)
        ensures
            r.cycles() == cycles.cycles(),
            r.objectives() == objectives.objectives(),
            r.projects() == projects.projects(),
    {
        ProjectService { cycles, objectives, projects }
    }

    /// Add a draft project under a stored objective whose objective and cycle
    /// still accept children.
    pub fn create(&mut self, objective_id: ObjectiveId, cmd: CreateProject, now: Timestamp) -> (r:
        Result<Project, AppError>)
        ensures
            final(self).cycles() == old(self).cycles(),
            final(self).objectives() == old(self).objectives(),
            guarded(
                create_verdict(old(self).cycles(), old(self).objectives(), objective_id@, cmd.title@),
                may_clash(old(self).projects()),
                result_view(r),
            ),
            r matches Ok(p) ==> is_version_7(p@.id) && p@ == (ProjectView {
                id: p@.id,
                objective_id: objective_id@,
                title: title_outcome(cmd.title@)->Some_0,
                description: opt_non_blank(opt_text(cmd.description)),
                status: ProjectStatus::Draft,
                created_at: now@,
                updated_at: now@,
            }) && final(self).projects() == old(self).projects().insert(p@.id, p@),
            r is Err ==> final(self).projects() == old(self).projects(),
    {
        let objective = load_objective(&self.objectives, objective_id)?;
        ensure_objective_open(
            &objective,
            "cannot add a project to a completed or archived objective",
        )?;
        let cycle = load_cycle(&self.cycles, &objective)?;
        ensure_cycle_open(&cycle, "cannot add a project to a closed or archived cycle")?;
        let title = match Title::parse(cmd.title.as_str()) {
            Ok(t) => t,
            Err(e) => return Err(AppError::Domain(e)),
        };
        let project = Project::create(objective_id, title, cmd.description, now);
        self.projects.create(&project)?;
        Ok(project)
    }

    /// The stored project with this identifier.
    pub fn get(&self, id: ProjectId) -> (r: Result<Project, AppError>)
        ensures
            reads_one(self.projects(), "project"@, id@, result_view(r)),
    {
        load_project(&self.projects, id)
    }

    /// The stored projects of a stored objective.
    pub fn list_by_objective(&self, objective_id: ObjectiveId) -> (r: Result<
        Vec<Project>,
        AppError,
    >)
        ensures
            lists_under(self.objectives(), "objective"@, objective_id@, result_view(r)),
            r matches Ok(items) ==> projects_by_objective_id(self.projects(), items@, objective_id@),
    {
        load_objective(&self.objectives, objective_id)?;
        self.projects.list_by_objective(objective_id)
    }

    /// Retitle and describe a stored project.
    pub fn update(&mut self, id: ProjectId, cmd: UpdateProject, now: Timestamp) -> (r: Result<
        Project,
        AppError,
    >)
        ensures
            final(self).cycles() == old(self).cycles(),
            final(self).objectives() == old(self).objectives(),
            changes_one(
                old(self).projects(),
                final(self).projects(),
                "project"@,
                id@,
                result_view(r),
                |v: ProjectView| update_decision(v, cmd.title@, opt_text(cmd.description), now@),
            ),
    {
        let mut project = load_project(&self.projects, id)?;
        let title = match Title::parse(cmd.title.as_str()) {
            Ok(t) => t,
            Err(e) => return Err(AppError::Domain(e)),
        };
        match project.update(title, cmd.description, now) {
            Ok(()) => {},
            Err(e) => return Err(AppError::Domain(e)),
        }
        self.projects.update(&project)?;
        Ok(project)
    }

    /// Activate a stored draft project, making its objective and cycle active
    /// when they are not yet. A refusal changes nothing stored.
    pub fn activate(&mut self, id: ProjectId, now: Timestamp) -> (r: Result<Project, AppError>)
        ensures
            ({
                let before = (old(self).cycles(), old(self).objectives(), old(self).projects());
                let after = (final(self).cycles(), final(self).objectives(), final(self).projects());
                let decision = match line_of(before.0, before.1, before.2, id@) {
                    Err(e) => Err(e),
                    Ok(line) => decided(activate_decision(line, now@)),
                };
                &&& answers(
                    match decision {
                        Ok(d) => Ok(d.2),
                        Err(e) => Err(e),
                    },
                    result_view(r),
                )
                &&& (r is Ok || after != before) ==> line_of(before.0, before.1, before.2, id@) is Ok
                    && held_under_keys(line_of(before.0, before.1, before.2, id@)->Ok_0, id@)
                &&& r is Ok ==> after == line_stored(before.0, before.1, before.2, decision->Ok_0)
                &&& r is Err ==> after == before || (decision is Ok && line_partly_stored(
                    before,
                    after,
                    decision->Ok_0,
                ))
            }),
    {
        let ghost before = (self.cycles(), self.objectives(), self.projects());
        let mut ancestry = load_ancestry(&self.cycles, &self.objectives, &self.projects, id)?;
        let ghost line = (ancestry.cycle@, ancestry.objective@, ancestry.project@);
        let cycle_change = ensure_cycle(&mut ancestry.cycle, now)?;
        let objective_change = ensure_objective(&mut ancestry.objective, now)?;
        match ancestry.project.activate(now) {
            Ok(()) => {},
            Err(e) => return Err(AppError::Domain(e)),
        }
        let ghost activated = (ancestry.cycle@, ancestry.objective@, ancestry.project@);
        assert(activate_decision(line, now@) == Ok::<
            (CycleView, ObjectiveView, ProjectView),
            DomainErrorView,
        >(activated));
        assert(before.0.insert(line.0.id, line.0) =~= before.0);
        assert(before.1.insert(line.1.id, line.1) =~= before.1);
        persist_activated(
            &mut self.cycles,
            &mut self.objectives,
            &mut self.projects,
            &ancestry.cycle,
            cycle_change,
            &ancestry.objective,
            objective_change,
            None,
        )?;
        self.projects.update(&ancestry.project)?;
        Ok(ancestry.project)
    }

    /// Complete a stored active project.
    pub fn complete(&mut self, id: ProjectId, now: Timestamp) -> (r: Result<Project, AppError>)
        ensures
            final(self).cycles() == old(self).cycles(),
            final(self).objectives() == old(self).objectives(),
            changes_one(
                old(self).projects(),
                final(self).projects(),
                "project"@,
                id@,
                result_view(r),
                |v: ProjectView| complete_decision(v, now@),
            ),
    {
        let mut project = load_project(&self.projects, id)?;
        match project.complete(now) {
            Ok(()) => {},
            Err(e) => return Err(AppError::Domain(e)),
        }
        self.projects.update(&project)?;
        Ok(project)
    }

    /// Archive a stored project that is not archived yet.
    pub fn archive(&mut self, id: ProjectId, now: Timestamp) -> (r: Result<Project, AppError>)
        ensures
            final(self).cycles() == old(self).cycles(),
            final(self).objectives() == old(self).objectives(),
            changes_one(
                old(self).projects(),
                final(self).projects(),
                "project"@,
                id@,
                result_view(r),
                |v: ProjectView| archive_decision(v, now@),
            ),
    {
        let mut project = load_project(&self.projects, id)?;
        match project.archive(now) {
            Ok(()) => {},
            Err(e) => return Err(AppError::Domain(e)),
        }
        self.projects.update(&project)?;
        Ok(project)
    }
}

} // verus!
