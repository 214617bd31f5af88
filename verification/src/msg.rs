//! Messages and the router.
//!
//! A `Msg` is the only way anything happens: navigation events, resolved
//! authentication, fetched data and button presses all arrive as messages,
//! and the update engine consumes them one at a time.  `route` is the pure
//! function from the address bar's path segments to the message that should
//! be dispatched; unrecognized or empty paths resolve to `Msg::Null` so a
//! transiently unroutable address never disrupts the current scene.

use vstd::prelude::*;
use crate::auth::AuthState;
use crate::auth::SpecAuthState;
use crate::decimal::parse_i32_or;
use crate::decimal::parse_with_default;
use crate::domain::ListWorker;
use crate::domain::ProjectId;
use crate::domain::ProjectName;
use crate::domain::SpecListWorker;
use crate::domain::SpecTaskDetails;
use crate::domain::TaskDetails;
use crate::domain::TaskId;
use crate::domain::TaskName;
use crate::domain::WorkerId;
use crate::domain::WorkerName;
use crate::text::str_eq;
use crate::views::Scene;
use crate::views::SpecScene;

verus! {

/// One step's worth of input to the update engine.
#[derive(Debug, PartialEq)]
pub enum Msg {
    /// Do nothing; terminal.
    Null,
    /// A failed request's description; clears the in-flight slot.
    Error(String),
    /// Arm the location and authentication bridges; sent once at startup.
    Init,
    /// The identity provider resolved.
    AuthReady(AuthState),
    /// Re-read the address bar and dispatch what the router says.
    Route,
    /// Delegate to the authentication gate; state arrives later via
    /// `AuthReady`.
    Login,
    Logout,
    /// Make `scene` current and write its fragment to the address bar.
    ChangeScene(Scene),
    /// Re-derive and dispatch the fetch that reproduces the current scene.
    RefreshScene,
    GetProjects,
    GetUsers,
    GetWorkers,
    GetProject(ProjectId),
    GetWorker(WorkerId),
    GetTask(TaskId),
    AddProject(ProjectName),
    AddTask((TaskName, ProjectId)),
    AddWorker(WorkerName),
    /// First step of the assign-task workflow: fetch the task.
    PreViewAssignTask(TaskId),
    /// Second step: stash the task, fetch the candidate workers.
    ViewAssignTask(TaskDetails),
    /// Third step: combine the stashed task with the fetched workers.
    PostViewAssignTask(Vec<ListWorker>),
    AssignTask((TaskId, WorkerId)),
    UnassignTask(TaskId),
}

/// Spec-level form of a message, over sequences instead of vectors.
pub ghost enum SpecMsg {
    Null,
    Error(Seq<char>),
    Init,
    AuthReady(SpecAuthState),
    Route,
    Login,
    Logout,
    ChangeScene(SpecScene),
    RefreshScene,
    GetProjects,
    GetUsers,
    GetWorkers,
    GetProject(ProjectId),
    GetWorker(WorkerId),
    GetTask(TaskId),
    AddProject(Seq<char>),
    AddTask((Seq<char>, ProjectId)),
    AddWorker(Seq<char>),
    PreViewAssignTask(TaskId),
    ViewAssignTask(SpecTaskDetails),
    PostViewAssignTask(Seq<SpecListWorker>),
    AssignTask((TaskId, WorkerId)),
    UnassignTask(TaskId),
}

impl DeepView for Msg {
    type V = SpecMsg;

    open spec fn deep_view(&self) -> SpecMsg {
        match self {
            Msg::Null => SpecMsg::Null,
            Msg::Error(s) => SpecMsg::Error(s.deep_view()),
            Msg::Init => SpecMsg::Init,
            Msg::AuthReady(a) => SpecMsg::AuthReady(a.deep_view()),
            Msg::Route => SpecMsg::Route,
            Msg::Login => SpecMsg::Login,
            Msg::Logout => SpecMsg::Logout,
            Msg::ChangeScene(s) => SpecMsg::ChangeScene(s.deep_view()),
            Msg::RefreshScene => SpecMsg::RefreshScene,
            Msg::GetProjects => SpecMsg::GetProjects,
            Msg::GetUsers => SpecMsg::GetUsers,
            Msg::GetWorkers => SpecMsg::GetWorkers,
            Msg::GetProject(id) => SpecMsg::GetProject(*id),
            Msg::GetWorker(id) => SpecMsg::GetWorker(*id),
            Msg::GetTask(id) => SpecMsg::GetTask(*id),
            Msg::AddProject(name) => SpecMsg::AddProject(name.deep_view()),
            Msg::AddTask(args) => SpecMsg::AddTask((args.0.deep_view(), args.1)),
            Msg::AddWorker(name) => SpecMsg::AddWorker(name.deep_view()),
            Msg::PreViewAssignTask(id) => SpecMsg::PreViewAssignTask(*id),
            Msg::ViewAssignTask(task) => SpecMsg::ViewAssignTask(task.deep_view()),
            Msg::PostViewAssignTask(workers) => SpecMsg::PostViewAssignTask(workers.deep_view()),
            Msg::AssignTask(args) => SpecMsg::AssignTask(*args),
            Msg::UnassignTask(id) => SpecMsg::UnassignTask(*id),
        }
    }
}

/// What the router resolves a path to: an ordered match against the fixed
/// path words, identifiers read with fallback `0`, and `Null` for empty or
/// unrecognized paths.
pub open spec fn route_spec(path: Seq<Seq<char>>) -> SpecMsg {
    if path.len() == 1 {
        if path[0] == "projects"@ {
            SpecMsg::GetProjects
        } else if path[0] == "workers"@ {
            SpecMsg::GetWorkers
        } else if path[0] == "users"@ {
            SpecMsg::GetUsers
        } else {
            SpecMsg::Null
        }
    } else if path.len() == 2 {
        if path[0] == "project"@ {
            SpecMsg::GetProject(parse_i32_or(path[1], 0))
        } else if path[0] == "worker"@ {
            SpecMsg::GetWorker(parse_i32_or(path[1], 0))
        } else if path[0] == "task"@ {
            SpecMsg::GetTask(parse_i32_or(path[1], 0))
        } else if path[0] == "assign"@ {
            SpecMsg::PreViewAssignTask(parse_i32_or(path[1], 0))
        } else {
            SpecMsg::Null
        }
    } else {
        SpecMsg::Null
    }
}

/// Resolves a raw hash fragment, as the address bar holds it, to the
/// message to dispatch: the `#/` marker is trimmed, the rest split into
/// segments and routed.
pub fn route_hash(raw: &str) -> (m: Msg)
    ensures
        m.deep_view() == route_spec(
            crate::text::split_slash(crate::text::trim_route_prefix(raw@)),
        ),
{
    let segs = crate::text::split_hash_path(raw);
    route(&segs)
}

/// Resolves the address bar's path segments to the message to dispatch.
pub fn route(path: &Vec<String>) -> (m: Msg)
    ensures
        m.deep_view() == route_spec(path.deep_view()),
{
    if path.len() == 1 {
        let s0 = path[0].as_str();
        if str_eq(s0, "projects") {
            Msg::GetProjects
        } else if str_eq(s0, "workers") {
            Msg::GetWorkers
        } else if str_eq(s0, "users") {
            Msg::GetUsers
        } else {
            Msg::Null
        }
    } else if path.len() == 2 {
        let s0 = path[0].as_str();
        let s1 = path[1].as_str();
        if str_eq(s0, "project") {
            Msg::GetProject(parse_with_default(s1, 0))
        } else if str_eq(s0, "worker") {
            Msg::GetWorker(parse_with_default(s1, 0))
        } else if str_eq(s0, "task") {
            Msg::GetTask(parse_with_default(s1, 0))
        } else if str_eq(s0, "assign") {
            Msg::PreViewAssignTask(parse_with_default(s1, 0))
        } else {
            Msg::Null
        }
    } else {
        Msg::Null
    }
}

} // verus!
