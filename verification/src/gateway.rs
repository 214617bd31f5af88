//! The request gateway: what each network operation looks like on the wire.
//!
//! An `ApiRequest` names one remote operation together with the data it
//! carries; `build_request_plan` turns it into a concrete plan — method,
//! full URL and, exactly when the user is authenticated, a bearer
//! authorization header.  The platform layer performs the transfer; nothing
//! here blocks on authentication being resolved.

use vstd::prelude::*;
use vstd::string::StrSliceExecFns;
use vstd::string::StringExecFns;
use crate::auth::AuthState;
use crate::auth::SpecAuthState;
use crate::decimal::dec_str;
use crate::decimal::push_i32_dec;
use crate::domain::ProjectId;
use crate::domain::ProjectName;
use crate::domain::TaskId;
use crate::domain::TaskName;
use crate::domain::WorkerId;
use crate::domain::WorkerName;

verus! {

/// The HTTP method of a request.
#[derive(Clone, Copy, Debug, PartialEq, Eq, Structural)]
pub enum Method {
    Get,
    Post,
}

/// One remote operation, with the data it carries.  The two fetches of the
/// assign-task workflow have their own variants because their responses are
/// consumed differently from the plain detail fetches.
#[derive(Debug, PartialEq)]
pub enum ApiRequest {
    GetProjects,
    GetWorkers,
    GetUsers,
    GetProject(ProjectId),
    GetWorker(WorkerId),
    GetTask(TaskId),
    /// Task fetch whose result feeds the assign-task workflow.
    GetTaskForAssign(TaskId),
    /// Worker-list fetch whose result feeds the assign-task workflow.
    GetWorkersForAssign,
    AddProject(ProjectName),
    AddWorker(WorkerName),
    AddTask(TaskName, ProjectId),
    AssignTask(TaskId, WorkerId),
    UnassignTask(TaskId),
}

/// Spec-level form of a request, over sequences instead of strings.
pub ghost enum SpecApiRequest {
    GetProjects,
    GetWorkers,
    GetUsers,
    GetProject(ProjectId),
    GetWorker(WorkerId),
    GetTask(TaskId),
    GetTaskForAssign(TaskId),
    GetWorkersForAssign,
    AddProject(Seq<char>),
    AddWorker(Seq<char>),
    AddTask(Seq<char>, ProjectId),
    AssignTask(TaskId, WorkerId),
    UnassignTask(TaskId),
}

impl Clone for ApiRequest {
    fn clone(&self) -> (res: Self)
        ensures
            res == *self,
    {
        match self {
            ApiRequest::GetProjects => ApiRequest::GetProjects,
            ApiRequest::GetWorkers => ApiRequest::GetWorkers,
            ApiRequest::GetUsers => ApiRequest::GetUsers,
            ApiRequest::GetProject(id) => ApiRequest::GetProject(*id),
            ApiRequest::GetWorker(id) => ApiRequest::GetWorker(*id),
            ApiRequest::GetTask(id) => ApiRequest::GetTask(*id),
            ApiRequest::GetTaskForAssign(id) => ApiRequest::GetTaskForAssign(*id),
            ApiRequest::GetWorkersForAssign => ApiRequest::GetWorkersForAssign,
            ApiRequest::AddProject(name) => ApiRequest::AddProject(name.clone()),
            ApiRequest::AddWorker(name) => ApiRequest::AddWorker(name.clone()),
            ApiRequest::AddTask(name, pid) => ApiRequest::AddTask(name.clone(), *pid),
            ApiRequest::AssignTask(tid, wid) => ApiRequest::AssignTask(*tid, *wid),
            ApiRequest::UnassignTask(tid) => ApiRequest::UnassignTask(*tid),
        }
    }
}

impl DeepView for ApiRequest {
    type V = SpecApiRequest;

    open spec fn deep_view(&self) -> SpecApiRequest {
        match self {
            ApiRequest::GetProjects => SpecApiRequest::GetProjects,
            ApiRequest::GetWorkers => SpecApiRequest::GetWorkers,
            ApiRequest::GetUsers => SpecApiRequest::GetUsers,
            ApiRequest::GetProject(id) => SpecApiRequest::GetProject(*id),
            ApiRequest::GetWorker(id) => SpecApiRequest::GetWorker(*id),
            ApiRequest::GetTask(id) => SpecApiRequest::GetTask(*id),
            ApiRequest::GetTaskForAssign(id) => SpecApiRequest::GetTaskForAssign(*id),
            ApiRequest::GetWorkersForAssign => SpecApiRequest::GetWorkersForAssign,
            ApiRequest::AddProject(name) => SpecApiRequest::AddProject(name.deep_view()),
            ApiRequest::AddWorker(name) => SpecApiRequest::AddWorker(name.deep_view()),
            ApiRequest::AddTask(name, pid) => SpecApiRequest::AddTask(name.deep_view(), *pid),
            ApiRequest::AssignTask(tid, wid) => SpecApiRequest::AssignTask(*tid, *wid),
            ApiRequest::UnassignTask(tid) => SpecApiRequest::UnassignTask(*tid),
        }
    }
}

/// The HTTP method each operation uses: reads fetch, writes post.
pub open spec fn request_method(r: SpecApiRequest) -> Method {
    match r {
        SpecApiRequest::GetProjects => Method::Get,
        SpecApiRequest::GetWorkers => Method::Get,
        SpecApiRequest::GetUsers => Method::Get,
        SpecApiRequest::GetProject(_) => Method::Get,
        SpecApiRequest::GetWorker(_) => Method::Get,
        SpecApiRequest::GetTask(_) => Method::Get,
        SpecApiRequest::GetTaskForAssign(_) => Method::Get,
        SpecApiRequest::GetWorkersForAssign => Method::Get,
        SpecApiRequest::AddProject(_) => Method::Post,
        SpecApiRequest::AddWorker(_) => Method::Post,
        SpecApiRequest::AddTask(_, _) => Method::Post,
        SpecApiRequest::AssignTask(_, _) => Method::Post,
        SpecApiRequest::UnassignTask(_) => Method::Post,
    }
}

/// The action part of each operation's URL, under the API root.
pub open spec fn request_action(r: SpecApiRequest) -> Seq<char> {
    match r {
        SpecApiRequest::GetProjects => "get_projects"@,
        SpecApiRequest::GetWorkers => "get_workers"@,
        SpecApiRequest::GetUsers => "get_users"@,
        SpecApiRequest::GetProject(id) => "get_project/"@ + dec_str(id as int),
        SpecApiRequest::GetWorker(id) => "get_worker/"@ + dec_str(id as int),
        SpecApiRequest::GetTask(id) => "get_task/"@ + dec_str(id as int),
        SpecApiRequest::GetTaskForAssign(id) => "get_task/"@ + dec_str(id as int),
        SpecApiRequest::GetWorkersForAssign => "get_workers"@,
        SpecApiRequest::AddProject(_) => "add_project"@,
        SpecApiRequest::AddWorker(_) => "add_worker"@,
        SpecApiRequest::AddTask(_, _) => "add_task"@,
        SpecApiRequest::AssignTask(_, _) => "assign_task"@,
        SpecApiRequest::UnassignTask(_) => "unassign_task"@,
    }
}

/// The authorization header value owed to a request: the bearer token
/// exactly when the user is authenticated, nothing otherwise.
pub open spec fn bearer_header(a: SpecAuthState) -> Option<Seq<char>> {
    match a {
        SpecAuthState::Yes(user) => Some("Bearer "@ + user.token),
        SpecAuthState::Unknown => None,
        SpecAuthState::No => None,
    }
}

/// A ready-to-send request: method, full URL, and the authorization header
/// when one is owed.  The body, for a write, is the data carried by the
/// `ApiRequest` itself, serialized by the platform layer.
#[derive(Debug, PartialEq)]
pub struct HttpRequestPlan {
    pub method: Method,
    pub url: String,
    pub authorization: Option<String>,
}

/// Builds the concrete plan for `req` against the API under `base`,
/// attaching the bearer token exactly when `auth` is authenticated.
pub fn build_request_plan(base: &str, auth: &AuthState, req: &ApiRequest) -> (plan:
    HttpRequestPlan)
    ensures
        plan.method == request_method(req.deep_view()),
        plan.url@ == base@ + "/api/"@ + request_action(req.deep_view()),
        plan.authorization.deep_view() == bearer_header(auth.deep_view()),
{
    let mut url = base.to_owned();
    url.append("/api/");
    let method: Method;
    match req {
        ApiRequest::GetProjects => {
            method = Method::Get;
            url.append("get_projects");
        },
        ApiRequest::GetWorkers => {
            method = Method::Get;
            url.append("get_workers");
        },
        ApiRequest::GetUsers => {
            method = Method::Get;
            url.append("get_users");
        },
        ApiRequest::GetProject(id) => {
            method = Method::Get;
            url.append("get_project/");
            push_i32_dec(&mut url, *id);
        },
        ApiRequest::GetWorker(id) => {
            method = Method::Get;
            url.append("get_worker/");
            push_i32_dec(&mut url, *id);
        },
        ApiRequest::GetTask(id) => {
            method = Method::Get;
            url.append("get_task/");
            push_i32_dec(&mut url, *id);
        },
        ApiRequest::GetTaskForAssign(id) => {
            method = Method::Get;
            url.append("get_task/");
            push_i32_dec(&mut url, *id);
        },
        ApiRequest::GetWorkersForAssign => {
            method = Method::Get;
            url.append("get_workers");
        },
        ApiRequest::AddProject(_) => {
            method = Method::Post;
            url.append("add_project");
        },
        ApiRequest::AddWorker(_) => {
            method = Method::Post;
            url.append("add_worker");
        },
        ApiRequest::AddTask(_, _) => {
            method = Method::Post;
            url.append("add_task");
        },
        ApiRequest::AssignTask(_, _) => {
            method = Method::Post;
            url.append("assign_task");
        },
        ApiRequest::UnassignTask(_) => {
            method = Method::Post;
            url.append("unassign_task");
        },
    }
    let authorization = match auth {
        AuthState::Yes(user) => {
            let mut h = "Bearer ".to_owned();
            h.append(user.token.as_str());
            Some(h)
        },
        AuthState::Unknown => None,
        AuthState::No => None,
    };
    proof {
        assert(url@ =~= base@ + "/api/"@ + request_action(req.deep_view()));
    }
    HttpRequestPlan { method, url, authorization }
}

} // verus!
