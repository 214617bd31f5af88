//! Turning a finished request into the next message.
//!
//! A response is a success only when the transport status was in the
//! success range and the payload decoded under the shape the request
//! expects; every other outcome becomes `Msg::Error`, never a silent drop.
//! A success resolves to the follow-on message of the request that was
//! issued: a `ChangeScene` for the plain fetches, the next workflow step
//! for the assign-task fetches, `RefreshScene` after a write that created
//! an entity, and a fresh task fetch after an assignment change.  An
//! explicit "not found" payload resolves to `Msg::Null`, leaving the
//! current scene in place.

use vstd::prelude::*;
use vstd::string::StrSliceExecFns;
use crate::domain::ListProject;
use crate::domain::ListWorker;
use crate::domain::ProjectDetails;
use crate::domain::SpecListProject;
use crate::domain::SpecListWorker;
use crate::domain::SpecProjectDetails;
use crate::domain::SpecTaskDetails;
use crate::domain::SpecUser;
use crate::domain::SpecWorkerDetails;
use crate::domain::TaskDetails;
use crate::domain::User;
use crate::domain::WorkerDetails;
use crate::gateway::ApiRequest;
use crate::gateway::SpecApiRequest;
use crate::msg::Msg;
use crate::msg::SpecMsg;
use crate::views::ProjectDetailsView;
use crate::views::ProjectsView;
use crate::views::Scene;
use crate::views::SpecScene;
use crate::views::TaskDetailsView;
use crate::views::UsersView;
use crate::views::WorkerDetailsView;
use crate::views::WorkersView;

verus! {

/// A successfully decoded response payload.  `Project`, `Worker` and `Task`
/// carry `None` when the server explicitly reports the entity absent.
#[derive(Debug, PartialEq)]
pub enum FetchPayload {
    Projects(Vec<ListProject>),
    Workers(Vec<ListWorker>),
    Users(Vec<User>),
    Project(Option<ProjectDetails>),
    Worker(Option<WorkerDetails>),
    Task(Option<TaskDetails>),
    /// The identifier a creating write returns.
    Id(i32),
    /// The empty result of an assignment change.
    Unit,
}

/// Spec-level form of a payload, over sequences instead of vectors.
pub ghost enum SpecFetchPayload {
    Projects(Seq<SpecListProject>),
    Workers(Seq<SpecListWorker>),
    Users(Seq<SpecUser>),
    Project(Option<SpecProjectDetails>),
    Worker(Option<SpecWorkerDetails>),
    Task(Option<SpecTaskDetails>),
    Id(i32),
    Unit,
}

impl DeepView for FetchPayload {
    type V = SpecFetchPayload;

    open spec fn deep_view(&self) -> SpecFetchPayload {
        match self {
            FetchPayload::Projects(ps) => SpecFetchPayload::Projects(ps.deep_view()),
            FetchPayload::Workers(ws) => SpecFetchPayload::Workers(ws.deep_view()),
            FetchPayload::Users(us) => SpecFetchPayload::Users(us.deep_view()),
            FetchPayload::Project(p) => SpecFetchPayload::Project(p.deep_view()),
            FetchPayload::Worker(w) => SpecFetchPayload::Worker(w.deep_view()),
            FetchPayload::Task(t) => SpecFetchPayload::Task(t.deep_view()),
            FetchPayload::Id(id) => SpecFetchPayload::Id(*id),
            FetchPayload::Unit => SpecFetchPayload::Unit,
        }
    }
}

/// How a request ended, as the platform layer reports it.
#[derive(Debug, PartialEq)]
pub enum FetchOutcome {
    /// Transport failure or a status outside the success range.
    HttpFailure,
    /// The body did not decode under the expected shape.
    DecodeFailure,
    /// The server answered with an application-level error string.
    ServerError(String),
    Success(FetchPayload),
}

/// Spec-level form of an outcome.
pub ghost enum SpecFetchOutcome {
    HttpFailure,
    DecodeFailure,
    ServerError(Seq<char>),
    Success(SpecFetchPayload),
}

impl DeepView for FetchOutcome {
    type V = SpecFetchOutcome;

    open spec fn deep_view(&self) -> SpecFetchOutcome {
        match self {
            FetchOutcome::HttpFailure => SpecFetchOutcome::HttpFailure,
            FetchOutcome::DecodeFailure => SpecFetchOutcome::DecodeFailure,
            FetchOutcome::ServerError(s) => SpecFetchOutcome::ServerError(s.deep_view()),
            FetchOutcome::Success(p) => SpecFetchOutcome::Success(p.deep_view()),
        }
    }
}

/// The message a successful payload resolves to, given the request that was
/// issued.  A payload whose shape does not belong to the request counts as
/// a decode failure.
pub open spec fn success_spec(req: SpecApiRequest, p: SpecFetchPayload) -> SpecMsg {
    match (req, p) {
        (SpecApiRequest::GetProjects, SpecFetchPayload::Projects(projects)) => SpecMsg::ChangeScene(
            SpecScene::Projects { projects },
        ),
        (SpecApiRequest::GetWorkers, SpecFetchPayload::Workers(workers)) => SpecMsg::ChangeScene(
            SpecScene::Workers { workers },
        ),
        (SpecApiRequest::GetUsers, SpecFetchPayload::Users(users)) => SpecMsg::ChangeScene(
            SpecScene::Users { users },
        ),
        (SpecApiRequest::GetProject(_), SpecFetchPayload::Project(Some(project))) => SpecMsg::ChangeScene(
            SpecScene::ProjectDetails { project },
        ),
        (SpecApiRequest::GetProject(_), SpecFetchPayload::Project(None)) => SpecMsg::Null,
        (SpecApiRequest::GetWorker(_), SpecFetchPayload::Worker(Some(worker))) => SpecMsg::ChangeScene(
            SpecScene::WorkerDetails { worker },
        ),
        (SpecApiRequest::GetWorker(_), SpecFetchPayload::Worker(None)) => SpecMsg::Null,
        (SpecApiRequest::GetTask(_), SpecFetchPayload::Task(Some(task))) => SpecMsg::ChangeScene(
            SpecScene::TaskDetails { task },
        ),
        (SpecApiRequest::GetTask(_), SpecFetchPayload::Task(None)) => SpecMsg::Null,
        (SpecApiRequest::GetTaskForAssign(_), SpecFetchPayload::Task(Some(task))) => SpecMsg::ViewAssignTask(
            task,
        ),
        (SpecApiRequest::GetTaskForAssign(_), SpecFetchPayload::Task(None)) => SpecMsg::Null,
        (SpecApiRequest::GetWorkersForAssign, SpecFetchPayload::Workers(workers)) => SpecMsg::PostViewAssignTask(
            workers,
        ),
        (SpecApiRequest::AddProject(_), SpecFetchPayload::Id(_)) => SpecMsg::RefreshScene,
        (SpecApiRequest::AddWorker(_), SpecFetchPayload::Id(_)) => SpecMsg::RefreshScene,
        (SpecApiRequest::AddTask(_, _), SpecFetchPayload::Id(_)) => SpecMsg::RefreshScene,
        (SpecApiRequest::AssignTask(task_id, _), SpecFetchPayload::Unit) => SpecMsg::GetTask(
            task_id,
        ),
        (SpecApiRequest::UnassignTask(task_id), SpecFetchPayload::Unit) => SpecMsg::GetTask(
            task_id,
        ),
        _ => SpecMsg::Error("JSON error?"@),
    }
}

/// The message any outcome of `req` resolves to: every failure becomes
/// `Error`, a success resolves per `success_spec`.
pub open spec fn response_spec(req: SpecApiRequest, outcome: SpecFetchOutcome) -> SpecMsg {
    match outcome {
        SpecFetchOutcome::HttpFailure => SpecMsg::Error("Not 200"@),
        SpecFetchOutcome::DecodeFailure => SpecMsg::Error("JSON error?"@),
        SpecFetchOutcome::ServerError(s) => SpecMsg::Error(s),
        SpecFetchOutcome::Success(p) => success_spec(req, p),
    }
}

/// Resolves a finished request to the message to dispatch next.
pub fn response_msg(req: &ApiRequest, outcome: FetchOutcome) -> (m: Msg)
    ensures
        m.deep_view() == response_spec(req.deep_view(), outcome.deep_view()),
{
    match outcome {
        FetchOutcome::HttpFailure => Msg::Error("Not 200".to_owned()),
        FetchOutcome::DecodeFailure => Msg::Error("JSON error?".to_owned()),
        FetchOutcome::ServerError(s) => Msg::Error(s),
        FetchOutcome::Success(p) => match (req, p) {
            (ApiRequest::GetProjects, FetchPayload::Projects(projects)) => Msg::ChangeScene(
                Scene::Projects(ProjectsView { projects }),
            ),
            (ApiRequest::GetWorkers, FetchPayload::Workers(workers)) => Msg::ChangeScene(
                Scene::Workers(WorkersView { workers }),
            ),
            (ApiRequest::GetUsers, FetchPayload::Users(users)) => Msg::ChangeScene(
                Scene::Users(UsersView { users }),
            ),
            (ApiRequest::GetProject(_), FetchPayload::Project(Some(project))) => Msg::ChangeScene(
                Scene::ProjectDetails(ProjectDetailsView { project }),
            ),
            (ApiRequest::GetProject(_), FetchPayload::Project(None)) => Msg::Null,
            (ApiRequest::GetWorker(_), FetchPayload::Worker(Some(worker))) => Msg::ChangeScene(
                Scene::WorkerDetails(WorkerDetailsView { worker }),
            ),
            (ApiRequest::GetWorker(_), FetchPayload::Worker(None)) => Msg::Null,
            (ApiRequest::GetTask(_), FetchPayload::Task(Some(task))) => Msg::ChangeScene(
                Scene::TaskDetails(TaskDetailsView { task }),
            ),
            (ApiRequest::GetTask(_), FetchPayload::Task(None)) => Msg::Null,
            (ApiRequest::GetTaskForAssign(_), FetchPayload::Task(Some(task))) => Msg::ViewAssignTask(
                task,
            ),
            (ApiRequest::GetTaskForAssign(_), FetchPayload::Task(None)) => Msg::Null,
            (ApiRequest::GetWorkersForAssign, FetchPayload::Workers(workers)) => Msg::PostViewAssignTask(
                workers,
            ),
            (ApiRequest::AddProject(_), FetchPayload::Id(_)) => Msg::RefreshScene,
            (ApiRequest::AddWorker(_), FetchPayload::Id(_)) => Msg::RefreshScene,
            (ApiRequest::AddTask(_, _), FetchPayload::Id(_)) => Msg::RefreshScene,
            (ApiRequest::AssignTask(task_id, _), FetchPayload::Unit) => Msg::GetTask(*task_id),
            (ApiRequest::UnassignTask(task_id), FetchPayload::Unit) => Msg::GetTask(*task_id),
            _ => Msg::Error("JSON error?".to_owned()),
        },
    }
}

} // verus!
