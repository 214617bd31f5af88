//! Scenes: the mutually exclusive view-states of the application.
//!
//! Exactly one scene is current at any time; each variant carries the data
//! its renderer needs.  `hash_path` projects a scene onto its canonical
//! address-bar fragment, stated by the spec function `scene_path`; the
//! router module proves the round-trip back.

use vstd::prelude::*;
use vstd::string::StrSliceExecFns;
use vstd::string::StringExecFns;
use crate::decimal::dec_str;
use crate::decimal::push_i32_dec;
use crate::domain::ListProject;
use crate::domain::ListWorker;
use crate::domain::ProjectDetails;
use crate::domain::SpecListProject;
use crate::domain::SpecListWorker;
use crate::domain::SpecProjectDetails;
use crate::domain::SpecTaskDetails;
use crate::domain::SpecUser;
use crate::domain::SpecWorkerDetails;
use crate::domain::TaskDetails;
use crate::domain::User;
use crate::domain::WorkerDetails;

verus! {

/// The empty scene's (empty) view data.
#[derive(Debug, PartialEq)]
pub struct NullView;

/// View data of the project list.
#[derive(Debug, PartialEq)]
pub struct ProjectsView {
    pub projects: Vec<ListProject>,
}

/// View data of the worker list.
#[derive(Debug, PartialEq)]
pub struct WorkersView {
    pub workers: Vec<ListWorker>,
}

/// View data of the user list.
#[derive(Debug, PartialEq)]
pub struct UsersView {
    pub users: Vec<User>,
}

/// View data of the assign-task form: the task and the candidate workers.
#[derive(Debug, PartialEq)]
pub struct AssignTaskView {
    pub task: TaskDetails,
    pub workers: Vec<ListWorker>,
}

/// View data of one project's detail page.
#[derive(Debug, PartialEq)]
pub struct ProjectDetailsView {
    pub project: ProjectDetails,
}

/// View data of one worker's detail page.
#[derive(Debug, PartialEq)]
pub struct WorkerDetailsView {
    pub worker: WorkerDetails,
}

/// View data of one task's detail page.
#[derive(Debug, PartialEq)]
pub struct TaskDetailsView {
    pub task: TaskDetails,
}

/// The current view-state of the application, exactly one at a time.
#[derive(Debug, PartialEq)]
pub enum Scene {
    Null,
    Projects(ProjectsView),
    Workers(WorkersView),
    Users(UsersView),
    ProjectDetails(ProjectDetailsView),
    WorkerDetails(WorkerDetailsView),
    TaskDetails(TaskDetailsView),
    AssignTask(AssignTaskView),
}

/// Spec-level form of a scene, over sequences instead of vectors.
pub ghost enum SpecScene {
    Null,
    Projects { projects: Seq<SpecListProject> },
    Workers { workers: Seq<SpecListWorker> },
    Users { users: Seq<SpecUser> },
    ProjectDetails { project: SpecProjectDetails },
    WorkerDetails { worker: SpecWorkerDetails },
    TaskDetails { task: SpecTaskDetails },
    AssignTask { task: SpecTaskDetails, workers: Seq<SpecListWorker> },
}

impl DeepView for Scene {
    type V = SpecScene;

    open spec fn deep_view(&self) -> SpecScene {
        match self {
            Scene::Null => SpecScene::Null,
            Scene::Projects(v) => SpecScene::Projects { projects: v.projects.deep_view() },
            Scene::Workers(v) => SpecScene::Workers { workers: v.workers.deep_view() },
            Scene::Users(v) => SpecScene::Users { users: v.users.deep_view() },
            Scene::ProjectDetails(v) => SpecScene::ProjectDetails {
                project: v.project.deep_view(),
            },
            Scene::WorkerDetails(v) => SpecScene::WorkerDetails { worker: v.worker.deep_view() },
            Scene::TaskDetails(v) => SpecScene::TaskDetails { task: v.task.deep_view() },
            Scene::AssignTask(v) => SpecScene::AssignTask {
                task: v.task.deep_view(),
                workers: v.workers.deep_view(),
            },
        }
    }
}

/// The canonical address-bar fragment of a scene: one fixed word per list
/// scene, and `<word>/<id>` carrying the identifying key of a detail scene.
pub open spec fn scene_path(s: SpecScene) -> Seq<char> {
    match s {
        SpecScene::Null => Seq::<char>::empty(),
        SpecScene::Projects { .. } => "projects"@,
        SpecScene::Workers { .. } => "workers"@,
        SpecScene::Users { .. } => "users"@,
        SpecScene::ProjectDetails { project } => "project/"@ + dec_str(project.id as int),
        SpecScene::WorkerDetails { worker } => "worker/"@ + dec_str(worker.id as int),
        SpecScene::TaskDetails { task } => "task/"@ + dec_str(task.id as int),
        SpecScene::AssignTask { task, .. } => "assign/"@ + dec_str(task.id as int),
    }
}

impl Scene {
    /// The canonical address-bar fragment of this scene.
    pub fn hash_path(&self) -> (s: String)
        ensures
            s@ == scene_path(self.deep_view()),
    {
        match self {
            Scene::Null => String::new(),
            Scene::Projects(_) => "projects".to_owned(),
            Scene::Workers(_) => "workers".to_owned(),
            Scene::Users(_) => "users".to_owned(),
            Scene::ProjectDetails(view) => {
                let mut s = "project/".to_owned();
                push_i32_dec(&mut s, view.project.id);
                s
            },
            Scene::WorkerDetails(view) => {
                let mut s = "worker/".to_owned();
                push_i32_dec(&mut s, view.worker.id);
                s
            },
            Scene::TaskDetails(view) => {
                let mut s = "task/".to_owned();
                push_i32_dec(&mut s, view.task.id);
                s
            },
            Scene::AssignTask(view) => {
                let mut s = "assign/".to_owned();
                push_i32_dec(&mut s, view.task.id);
                s
            },
        }
    }
}

} // verus!
