//! Loading the parents of a project or task, checking that they still accept
//! children, and making them active when work starts underneath them.
use crate::cycle::{Cycle, CycleView};
use crate::error::{store_failure, AppError, AppErrorView, DomainError, DomainErrorView};
use crate::ids::{CycleId, ObjectiveId, ProjectId};
use crate::objective::{Objective, ObjectiveView};
use crate::project::{Project, ProjectView};
use crate::repos::{CycleRepository, ObjectiveRepository, ProjectRepository};
use crate::services::{answers, lookup, reads_one, result_view};
use crate::status::{CycleStatus, EnsureActive, ObjectiveStatus, ProjectStatus};
use vstd::prelude::*;

verus! {

/// A project with the objective and the cycle above it.
pub struct Ancestry {
    pub cycle: Cycle,
    pub objective: Objective,
    pub project: Project,
}

/// The refusal of making a parent in status with text `from` active.
pub open spec fn activation_refused(from: Seq<char>) -> DomainErrorView {
    DomainErrorView::InvalidStatusTransition { from, to: "active"@ }
}

/// Whether `cycle`, `objective` and `project` are stored, each the parent of
/// the next, with `project` stored under `project_id`.
pub open spec fn stored_ancestry(
    cycles: Map<u128, CycleView>,
    objectives: Map<u128, ObjectiveView>,
    projects: Map<u128, ProjectView>,
    project_id: u128,
    cycle: CycleView,
    objective: ObjectiveView,
    project: ProjectView,
) -> bool {
    &&& projects.contains_key(project_id) && projects[project_id] == project
    &&& project.id == project_id
    &&& objectives.contains_key(project.objective_id) && objectives[project.objective_id]
        == objective
    &&& objective.id == project.objective_id
    &&& cycles.contains_key(objective.cycle_id) && cycles[objective.cycle_id] == cycle
    &&& cycle.id == objective.cycle_id
}

/// The stored line above and including the project `project_id`, read from
/// the project up: the cycle, the objective and the project, or the error of
/// the first of them that is missing.
pub open spec fn line_of(
    cycles: Map<u128, CycleView>,
    objectives: Map<u128, ObjectiveView>,
    projects: Map<u128, ProjectView>,
    project_id: u128,
) -> Result<(CycleView, ObjectiveView, ProjectView), AppErrorView> {
    match lookup(projects, "project"@, project_id) {
        Err(e) => Err(e),
        Ok(project) => match lookup(objectives, "objective"@, project.objective_id) {
            Err(e) => Err(e),
            Ok(objective) => match lookup(cycles, "cycle"@, objective.cycle_id) {
                Err(e) => Err(e),
                Ok(cycle) => Ok((cycle, objective, project)),
            },
        },
    }
}

/// Whether the entities of a line carry the identifiers they are stored under:
/// the project `project_id`, its objective under the project's `objective_id`,
/// and the cycle under the objective's `cycle_id`.
pub open spec fn held_under_keys(line: (CycleView, ObjectiveView, ProjectView), project_id: u128) -> bool {
    &&& line.2.id == project_id
    &&& line.1.id == line.2.objective_id
    &&& line.0.id == line.1.cycle_id
}

/// What adding a child under the objective `objective_id` decides, read from
/// the objective up: the objective and then its cycle must be stored and still
/// accept children, a refusal of each carrying its own message.
pub open spec fn objective_line_open(
    cycles: Map<u128, CycleView>,
    objectives: Map<u128, ObjectiveView>,
    objective_id: u128,
    objective_message: Seq<char>,
    cycle_message: Seq<char>,
) -> Result<(), AppErrorView> {
    match lookup(objectives, "objective"@, objective_id) {
        Err(e) => Err(e),
        Ok(objective) => if !objective.status.allows_children() {
            Err(AppErrorView::Conflict { message: objective_message })
        } else {
            match lookup(cycles, "cycle"@, objective.cycle_id) {
                Err(e) => Err(e),
                Ok(cycle) => if !cycle.status.allows_tree_mutation() {
                    Err(AppErrorView::Conflict { message: cycle_message })
                } else {
                    Ok(())
                },
            }
        },
    }
}

/// The views of a loaded line, or the error of loading it.
pub open spec fn ancestry_view(r: Result<Ancestry, AppError>) -> Result<
    (CycleView, ObjectiveView, ProjectView),
    AppErrorView,
> {
    match r {
        Ok(a) => Ok((a.cycle@, a.objective@, a.project@)),
        Err(e) => Err(e@),
    }
}

/// What making `cycle` and `objective` active, because work starts under them,
/// decides: each becomes active unless it already is; a closed or archived
/// cycle, or a completed or archived objective, refuses.
pub open spec fn parents_activation(cycle: CycleView, objective: ObjectiveView, now: int) -> Result<
    (CycleView, ObjectiveView),
    DomainErrorView,
> {
    if cycle.ensure_active_outcome() is None {
        Err(activation_refused(cycle.status.text()))
    } else if objective.ensure_active_outcome() is None {
        Err(activation_refused(objective.status.text()))
    } else {
        Ok((cycle.ensured_active(now), objective.ensured_active(now)))
    }
}

/// The stores after writing `decided` into them.
pub open spec fn line_stored(
    cycles: Map<u128, CycleView>,
    objectives: Map<u128, ObjectiveView>,
    projects: Map<u128, ProjectView>,
    decided: (CycleView, ObjectiveView, ProjectView),
) -> (Map<u128, CycleView>, Map<u128, ObjectiveView>, Map<u128, ProjectView>) {
    (
        cycles.insert(decided.0.id, decided.0),
        objectives.insert(decided.1.id, decided.1),
        projects.insert(decided.2.id, decided.2),
    )
}

/// Each store after holds what it held before or its entity of `decided`.
pub open spec fn line_partly_stored(
    before: (Map<u128, CycleView>, Map<u128, ObjectiveView>, Map<u128, ProjectView>),
    after: (Map<u128, CycleView>, Map<u128, ObjectiveView>, Map<u128, ProjectView>),
    decided: (CycleView, ObjectiveView, ProjectView),
) -> bool {
    &&& after.0 == before.0 || after.0 == before.0.insert(decided.0.id, decided.0)
    &&& after.1 == before.1 || after.1 == before.1.insert(decided.1.id, decided.1)
    &&& after.2 == before.2 || after.2 == before.2.insert(decided.2.id, decided.2)
}

/// Loads the stored objective with this identifier; a missing one is not found.
pub fn load_objective<O: ObjectiveRepository>(objectives: &O, objective_id: ObjectiveId) -> (r:
    Result<Objective, AppError>)
    ensures
        reads_one(objectives.objectives(), "objective"@, objective_id@, result_view(r)),
        r matches Ok(o) ==> o@.id == objective_id@,
{
    match objectives.get(objective_id) {
        Ok(Some(o)) => Ok(o),
        Ok(None) => Err(AppError::not_found("objective", objective_id.to_string())),
        Err(e) => Err(e),
    }
}

/// Loads the stored cycle of an objective; a missing one is not found.
pub fn load_cycle<C: CycleRepository>(cycles: &C, objective: &Objective) -> (r: Result<
    Cycle,
    AppError,
>)
    ensures
        reads_one(cycles.cycles(), "cycle"@, objective@.cycle_id, result_view(r)),
        r matches Ok(c) ==> c@.id == objective@.cycle_id,
{
    let cycle_id: CycleId = objective.cycle_id();
    match cycles.get(cycle_id) {
        Ok(Some(c)) => Ok(c),
        Ok(None) => Err(AppError::not_found("cycle", cycle_id.to_string())),
        Err(e) => Err(e),
    }
}

/// Loads the stored project with this identifier; a missing one is not found.
pub fn load_project<P: ProjectRepository>(projects: &P, project_id: ProjectId) -> (r: Result<
    Project,
    AppError,
>)
    ensures
        reads_one(projects.projects(), "project"@, project_id@, result_view(r)),
        r matches Ok(p) ==> p@.id == project_id@,
{
    match projects.get(project_id) {
        Ok(Some(p)) => Ok(p),
        Ok(None) => Err(AppError::not_found("project", project_id.to_string())),
        Err(e) => Err(e),
    }
}

/// Loads a stored project with its objective and cycle.
pub fn load_ancestry<C, O, P>(cycles: &C, objectives: &O, projects: &P, project_id: ProjectId) -> (r:
    Result<Ancestry, AppError>) where C: CycleRepository, O: ObjectiveRepository, P: ProjectRepository
    ensures
        r matches Ok(a) ==> stored_ancestry(
            cycles.cycles(),
            objectives.objectives(),
            projects.projects(),
            project_id@,
            a.cycle@,
            a.objective@,
            a.project@,
        ),
        answers(
            line_of(cycles.cycles(), objectives.objectives(), projects.projects(), project_id@),
            ancestry_view(r),
        ),
{
    let project = load_project(projects, project_id)?;
    let objective = load_objective(objectives, project.objective_id())?;
    let cycle = load_cycle(cycles, &objective)?;
    Ok(Ancestry { cycle, objective, project })
}

/// Stores each parent that was activated; parents that already were active are
/// not written. On an error, each store holds either what it held or the
/// activated parent.
pub fn persist_activated<C, O, P>(
    cycles: &mut C,
    objectives: &mut O,
    projects: &mut P,
    cycle: &Cycle,
    cycle_change: EnsureActive,
    objective: &Objective,
    objective_change: EnsureActive,
    project: Option<(&Project, EnsureActive)>,
) -> (r: Result<(), AppError>) where C: CycleRepository, O: ObjectiveRepository, P: ProjectRepository
    requires
        old(cycles).cycles().contains_key(cycle@.id),
        old(objectives).objectives().contains_key(objective@.id),
        project matches Some((p, _)) ==> old(projects).projects().contains_key(p@.id),
    ensures
        r is Ok ==> final(cycles).cycles() == (if cycle_change == EnsureActive::Activated {
            old(cycles).cycles().insert(cycle@.id, cycle@)
        } else {
            old(cycles).cycles()
        }),
        r is Ok ==> final(objectives).objectives() == (if objective_change
            == EnsureActive::Activated {
            old(objectives).objectives().insert(objective@.id, objective@)
        } else {
            old(objectives).objectives()
        }),
        r is Ok ==> final(projects).projects() == (match project {
            Some((p, EnsureActive::Activated)) => old(projects).projects().insert(p@.id, p@),
            _ => old(projects).projects(),
        }),
        final(cycles).cycles() == old(cycles).cycles() || final(cycles).cycles() == old(cycles).cycles().insert(cycle@.id, cycle@),
        final(objectives).objectives() == old(objectives).objectives() || final(objectives).objectives() == old(objectives).objectives().insert(objective@.id, objective@),
        final(projects).projects() == old(projects).projects() || (match project {
            Some((p, _)) => final(projects).projects() == old(projects).projects().insert(p@.id, p@),
            None => false,
        }),
        r matches Err(e) ==> store_failure(e@),
{
    if cycle_change == EnsureActive::Activated {
        cycles.update(cycle)?;
    }
    if objective_change == EnsureActive::Activated {
        objectives.update(objective)?;
    }
    match project {
        Some((p, EnsureActive::Activated)) => {
            projects.update(p)?;
        },
        _ => {},
    }
    Ok(())
}

/// Makes a cycle active unless it already is; a closed or archived one is refused.
pub fn ensure_cycle(cycle: &mut Cycle, now: crate::calendar::Timestamp) -> (r: Result<
    EnsureActive,
    AppError,
>)
    ensures
        match old(cycle)@.ensure_active_outcome() {
            Some(change) => r == Ok::<EnsureActive, AppError>(change) && final(cycle)@ == old(
                cycle,
            )@.ensured_active(now@),
            None => r matches Err(e) && e@ == AppErrorView::Domain(
                activation_refused(old(cycle)@.status.text()),
            ) && final(cycle)@ == old(cycle)@,
        },
{
    match cycle.ensure_active(now) {
        Ok(change) => Ok(change),
        Err(e) => Err(AppError::Domain(e)),
    }
}

/// Makes an objective active unless it already is; a completed or archived one
/// is refused.
pub fn ensure_objective(objective: &mut Objective, now: crate::calendar::Timestamp) -> (r: Result<
    EnsureActive,
    AppError,
>)
    ensures
        match old(objective)@.ensure_active_outcome() {
            Some(change) => r == Ok::<EnsureActive, AppError>(change) && final(objective)@ == old(
                objective,
            )@.ensured_active(now@),
            None => r matches Err(e) && e@ == AppErrorView::Domain(
                activation_refused(old(objective)@.status.text()),
            ) && final(objective)@ == old(objective)@,
        },
{
    match objective.ensure_active(now) {
        Ok(change) => Ok(change),
        Err(e) => Err(AppError::Domain(e)),
    }
}

/// Makes a project active unless it already is; a completed or archived one is
/// refused.
pub fn ensure_project(project: &mut Project, now: crate::calendar::Timestamp) -> (r: Result<
    EnsureActive,
    AppError,
>)
    ensures
        match old(project)@.ensure_active_outcome() {
            Some(change) => r == Ok::<EnsureActive, AppError>(change) && final(project)@ == old(
                project,
            )@.ensured_active(now@),
            None => r matches Err(e) && e@ == AppErrorView::Domain(
                activation_refused(old(project)@.status.text()),
            ) && final(project)@ == old(project)@,
        },
{
    match project.ensure_active(now) {
        Ok(change) => Ok(change),
        Err(e) => Err(AppError::Domain(e)),
    }
}

/// Refuses adding children under a closed or archived cycle, with `message`.
pub fn ensure_cycle_open(cycle: &Cycle, message: &str) -> (r: Result<(), AppError>)
    ensures
        r is Ok <==> cycle@.status.allows_tree_mutation(),
        r matches Err(e) ==> e@ == (AppErrorView::Conflict { message: message@ }),
{
    if !cycle.status().allows_tree_mutation() {
        return Err(AppError::conflict(message));
    }
    Ok(())
}

/// Refuses adding children under a completed or archived objective, with `message`.
pub fn ensure_objective_open(objective: &Objective, message: &str) -> (r: Result<(), AppError>)
    ensures
        r is Ok <==> objective@.status.allows_children(),
        r matches Err(e) ==> e@ == (AppErrorView::Conflict { message: message@ }),
{
    if !objective.status().allows_children() {
        return Err(AppError::conflict(message));
    }
    Ok(())
}

} // verus!
