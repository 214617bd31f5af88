//! Entity snapshots exchanged with the remote API, and their spec-level
//! counterparts.
//!
//! Every executable type has a `Spec*` mirror whose `String` fields become
//! `Seq<char>` and whose `Vec` fields become `Seq`; `deep_view` maps one to
//! the other.  Contracts throughout the crate are stated over the mirrors.

use vstd::prelude::*;

verus! {

pub type ProjectName = String;

pub type ProjectId = i32;

pub type TaskName = String;

pub type TaskId = i32;

pub type WorkerName = String;

pub type WorkerId = i32;

/// A role granted to a user, with its permission codes.
#[derive(Debug, PartialEq)]
pub struct Role {
    pub id: String,
    pub perms: Vec<i32>,
}

pub ghost struct SpecRole {
    pub id: Seq<char>,
    pub perms: Seq<i32>,
}

impl DeepView for Role {
    type V = SpecRole;

    open spec fn deep_view(&self) -> SpecRole {
        SpecRole { id: self.id.deep_view(), perms: self.perms.deep_view() }
    }
}

/// A user account as the server lists it.
#[derive(Debug, PartialEq)]
pub struct User {
    pub id: String,
    pub roles: Vec<Role>,
}

pub ghost struct SpecUser {
    pub id: Seq<char>,
    pub roles: Seq<SpecRole>,
}

impl DeepView for User {
    type V = SpecUser;

    open spec fn deep_view(&self) -> SpecUser {
        SpecUser { id: self.id.deep_view(), roles: self.roles.deep_view() }
    }
}

/// A task as it appears inside a project or worker listing.
#[derive(Debug, PartialEq)]
pub struct ListTask {
    pub id: TaskId,
    pub name: TaskName,
}

pub ghost struct SpecListTask {
    pub id: TaskId,
    pub name: Seq<char>,
}

impl DeepView for ListTask {
    type V = SpecListTask;

    open spec fn deep_view(&self) -> SpecListTask {
        SpecListTask { id: self.id, name: self.name.deep_view() }
    }
}

/// A project as it appears in the project list.
#[derive(Debug, PartialEq)]
pub struct ListProject {
    pub id: ProjectId,
    pub name: ProjectName,
}

pub ghost struct SpecListProject {
    pub id: ProjectId,
    pub name: Seq<char>,
}

impl DeepView for ListProject {
    type V = SpecListProject;

    open spec fn deep_view(&self) -> SpecListProject {
        SpecListProject { id: self.id, name: self.name.deep_view() }
    }
}

impl Clone for ListProject {
    fn clone(&self) -> (res: Self)
        ensures
            res == *self,
    {
        ListProject { id: self.id, name: self.name.clone() }
    }
}

/// A worker as it appears in the worker list.
#[derive(Debug, PartialEq)]
pub struct ListWorker {
    pub id: WorkerId,
    pub name: WorkerName,
}

pub ghost struct SpecListWorker {
    pub id: WorkerId,
    pub name: Seq<char>,
}

impl DeepView for ListWorker {
    type V = SpecListWorker;

    open spec fn deep_view(&self) -> SpecListWorker {
        SpecListWorker { id: self.id, name: self.name.deep_view() }
    }
}

impl Clone for ListWorker {
    fn clone(&self) -> (res: Self)
        ensures
            res == *self,
    {
        ListWorker { id: self.id, name: self.name.clone() }
    }
}

/// The full snapshot of one project, with its tasks.
#[derive(Debug, PartialEq)]
pub struct ProjectDetails {
    pub id: ProjectId,
    pub name: ProjectName,
    pub tasks: Vec<ListTask>,
}

pub ghost struct SpecProjectDetails {
    pub id: ProjectId,
    pub name: Seq<char>,
    pub tasks: Seq<SpecListTask>,
}

impl DeepView for ProjectDetails {
    type V = SpecProjectDetails;

    open spec fn deep_view(&self) -> SpecProjectDetails {
        SpecProjectDetails {
            id: self.id,
            name: self.name.deep_view(),
            tasks: self.tasks.deep_view(),
        }
    }
}

/// The full snapshot of one worker, with the tasks assigned to them.
#[derive(Debug, PartialEq)]
pub struct WorkerDetails {
    pub id: WorkerId,
    pub name: WorkerName,
    pub tasks: Vec<ListTask>,
}

pub ghost struct SpecWorkerDetails {
    pub id: WorkerId,
    pub name: Seq<char>,
    pub tasks: Seq<SpecListTask>,
}

impl DeepView for WorkerDetails {
    type V = SpecWorkerDetails;

    open spec fn deep_view(&self) -> SpecWorkerDetails {
        SpecWorkerDetails {
            id: self.id,
            name: self.name.deep_view(),
            tasks: self.tasks.deep_view(),
        }
    }
}

/// The full snapshot of one task: its project and, when assigned, its worker.
#[derive(Debug, PartialEq)]
pub struct TaskDetails {
    pub id: TaskId,
    pub name: TaskName,
    pub project: ListProject,
    pub worker: Option<ListWorker>,
}

pub ghost struct SpecTaskDetails {
    pub id: TaskId,
    pub name: Seq<char>,
    pub project: SpecListProject,
    pub worker: Option<SpecListWorker>,
}

impl DeepView for TaskDetails {
    type V = SpecTaskDetails;

    open spec fn deep_view(&self) -> SpecTaskDetails {
        SpecTaskDetails {
            id: self.id,
            name: self.name.deep_view(),
            project: self.project.deep_view(),
            worker: match self.worker {
                Some(w) => Some(w.deep_view()),
                None => None,
            },
        }
    }
}

impl Clone for TaskDetails {
    fn clone(&self) -> (res: Self)
        ensures
            res == *self,
    {
        TaskDetails {
            id: self.id,
            name: self.name.clone(),
            project: self.project.clone(),
            worker: match &self.worker {
                Some(w) => Some(w.clone()),
                None => None,
            },
        }
    }
}

/// Body of the request that creates a project.
#[derive(Debug, PartialEq)]
pub struct AddProjectParams {
    pub name: ProjectName,
}

/// Body of the request that creates a worker.
#[derive(Debug, PartialEq)]
pub struct AddWorkerParams {
    pub name: WorkerName,
}

/// Body of the request that creates a task inside a project.
#[derive(Debug, PartialEq)]
pub struct AddTaskParams {
    pub name: TaskName,
    pub project_id: ProjectId,
}

/// Body of the request that assigns a task to a worker.
#[derive(Debug, PartialEq)]
pub struct AssignTaskParams {
    pub task_id: TaskId,
    pub worker_id: WorkerId,
}

/// Body of the request that removes a task's assignment.
#[derive(Debug, PartialEq)]
pub struct UnassignTaskParams {
    pub task_id: TaskId,
}

} // verus!
