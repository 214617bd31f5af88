//! The update engine: the single mutation point of the application.
//!
//! `update` consumes one message at a time, mutates the model and returns
//! the ordered effects the platform layer must carry out.  The whole step
//! is stated by the spec function `step`, so every handler's behaviour —
//! which state changes, which messages are emitted, which single request is
//! issued — is pinned down for every model and every message.

use vstd::prelude::*;
use crate::auth::AuthState;
use crate::auth::SpecAuthState;
use crate::domain::SpecTaskDetails;
use crate::domain::TaskDetails;
use crate::gateway::ApiRequest;
use crate::gateway::SpecApiRequest;
use crate::msg::Msg;
use crate::msg::SpecMsg;
use crate::views::AssignTaskView;
use crate::views::Scene;
use crate::views::SpecScene;
use crate::views::scene_path;

verus! {

/// The transient slot of the two-step assign-task workflow: it carries the
/// fetched task across the boundary between the two dependent requests,
/// and is empty at workflow entry and exit.
#[derive(Debug, PartialEq)]
pub struct Temp {
    pub task: Option<TaskDetails>,
}

impl DeepView for Temp {
    type V = Option<SpecTaskDetails>;

    open spec fn deep_view(&self) -> Option<SpecTaskDetails> {
        self.task.deep_view()
    }
}

impl Default for Temp {
    fn default() -> (res: Self)
        ensures
            res.task == Option::<TaskDetails>::None,
    {
        Temp { task: None }
    }
}

/// All application state the engine owns: authentication, the current
/// scene, the single in-flight request slot, and the transient workflow
/// slot.
#[derive(Debug, PartialEq)]
pub struct Model {
    pub auth_state: AuthState,
    pub scene: Scene,
    /// The in-flight slot: at most one outstanding request, overwritten
    /// when a new one is issued and cleared on `Error`.
    pub task: Option<ApiRequest>,
    pub temp: Temp,
}

/// Spec-level form of the model.
pub ghost struct SpecModel {
    pub auth_state: SpecAuthState,
    pub scene: SpecScene,
    pub task: Option<SpecApiRequest>,
    pub temp: Option<SpecTaskDetails>,
}

impl DeepView for Model {
    type V = SpecModel;

    open spec fn deep_view(&self) -> SpecModel {
        SpecModel {
            auth_state: self.auth_state.deep_view(),
            scene: self.scene.deep_view(),
            task: self.task.deep_view(),
            temp: self.temp.deep_view(),
        }
    }
}

/// The state every session starts from: authentication unresolved, the
/// empty scene, no request in flight, the workflow slot empty.
pub open spec fn init_model() -> SpecModel {
    SpecModel {
        auth_state: SpecAuthState::Unknown,
        scene: SpecScene::Null,
        task: None,
        temp: None,
    }
}

impl Model {
    /// A fresh model in the initial state.
    pub fn new() -> (m: Model)
        ensures
            m.deep_view() == init_model(),
    {
        Model {
            auth_state: AuthState::Unknown,
            scene: Scene::Null,
            task: None,
            temp: Temp::default(),
        }
    }
}

/// One effect the platform layer must carry out, in order.
#[derive(Debug, PartialEq)]
pub enum Effect {
    /// Dispatch this message next, before any externally-arriving one.
    Emit(Msg),
    /// Perform this request; its outcome comes back as a later message.
    Issue(ApiRequest),
    /// Write this fragment to the address bar, without re-triggering the
    /// navigation callback.
    SetPath(String),
    /// Read the address bar, route it, and dispatch the resulting message.
    ResolveRoute,
    /// Register the location and authentication callbacks; once, at
    /// startup.
    ArmBridges,
    /// Start the identity provider's login flow.
    TriggerLogin,
    /// Start the identity provider's logout flow.
    TriggerLogout,
}

/// Spec-level form of an effect.
pub ghost enum SpecEffect {
    Emit(SpecMsg),
    Issue(SpecApiRequest),
    SetPath(Seq<char>),
    ResolveRoute,
    ArmBridges,
    TriggerLogin,
    TriggerLogout,
}

impl DeepView for Effect {
    type V = SpecEffect;

    open spec fn deep_view(&self) -> SpecEffect {
        match self {
            Effect::Emit(m) => SpecEffect::Emit(m.deep_view()),
            Effect::Issue(r) => SpecEffect::Issue(r.deep_view()),
            Effect::SetPath(p) => SpecEffect::SetPath(p.deep_view()),
            Effect::ResolveRoute => SpecEffect::ResolveRoute,
            Effect::ArmBridges => SpecEffect::ArmBridges,
            Effect::TriggerLogin => SpecEffect::TriggerLogin,
            Effect::TriggerLogout => SpecEffect::TriggerLogout,
        }
    }
}

/// What one engine step leaves behind: the new state and the ordered
/// effects.
pub ghost struct SpecStep {
    pub auth_state: SpecAuthState,
    pub scene: SpecScene,
    pub task: Option<SpecApiRequest>,
    pub temp: Option<SpecTaskDetails>,
    pub effects: Seq<SpecEffect>,
}

/// A step that changes nothing and has no effects.
pub open spec fn stay(pre: SpecModel) -> SpecStep {
    SpecStep {
        auth_state: pre.auth_state,
        scene: pre.scene,
        task: pre.task,
        temp: pre.temp,
        effects: Seq::empty(),
    }
}

/// A step that only emits effects.
pub open spec fn emit_only(pre: SpecModel, effects: Seq<SpecEffect>) -> SpecStep {
    SpecStep { effects, ..stay(pre) }
}

/// A step that issues `req`: the in-flight slot is overwritten with `req`
/// and the single `Issue` effect performs it.
pub open spec fn issue(pre: SpecModel, req: SpecApiRequest) -> SpecStep {
    SpecStep { task: Some(req), effects: seq![SpecEffect::Issue(req)], ..stay(pre) }
}

/// The message that re-fetches the data of the current scene, keyed by the
/// scene's own identifying data: what `RefreshScene` dispatches.
pub open spec fn refresh_msg(scene: SpecScene) -> SpecMsg {
    match scene {
        SpecScene::Null => SpecMsg::Null,
        SpecScene::Projects { .. } => SpecMsg::GetProjects,
        SpecScene::Workers { .. } => SpecMsg::GetWorkers,
        SpecScene::Users { .. } => SpecMsg::GetUsers,
        SpecScene::ProjectDetails { project } => SpecMsg::GetProject(project.id),
        SpecScene::WorkerDetails { worker } => SpecMsg::GetWorker(worker.id),
        SpecScene::TaskDetails { task } => SpecMsg::GetTask(task.id),
        SpecScene::AssignTask { task, .. } => SpecMsg::ViewAssignTask(task),
    }
}

/// The complete behaviour of the engine on one message: the next state and
/// the ordered effects, for every model and every message.
pub open spec fn step(pre: SpecModel, msg: SpecMsg) -> SpecStep {
    match msg {
        SpecMsg::Null => stay(pre),
        SpecMsg::Error(_) => SpecStep { task: None, ..stay(pre) },
        SpecMsg::Init => emit_only(pre, seq![SpecEffect::ArmBridges]),
        SpecMsg::Login => emit_only(pre, seq![SpecEffect::TriggerLogin]),
        SpecMsg::Logout => emit_only(pre, seq![SpecEffect::TriggerLogout]),
        SpecMsg::Route => emit_only(pre, seq![SpecEffect::ResolveRoute]),
        SpecMsg::AuthReady(auth) => SpecStep {
            auth_state: auth,
            effects: seq![SpecEffect::Emit(SpecMsg::Route)],
            ..stay(pre)
        },
        SpecMsg::ChangeScene(scene) => SpecStep {
            scene,
            effects: seq![SpecEffect::SetPath(scene_path(scene))],
            ..stay(pre)
        },
        SpecMsg::RefreshScene => emit_only(
            pre,
            seq![SpecEffect::Emit(refresh_msg(pre.scene))],
        ),
        SpecMsg::GetProjects => issue(pre, SpecApiRequest::GetProjects),
        SpecMsg::GetUsers => issue(pre, SpecApiRequest::GetUsers),
        SpecMsg::GetWorkers => issue(pre, SpecApiRequest::GetWorkers),
        SpecMsg::GetProject(id) => issue(pre, SpecApiRequest::GetProject(id)),
        SpecMsg::GetWorker(id) => issue(pre, SpecApiRequest::GetWorker(id)),
        SpecMsg::GetTask(id) => issue(pre, SpecApiRequest::GetTask(id)),
        SpecMsg::AddProject(name) => issue(pre, SpecApiRequest::AddProject(name)),
        SpecMsg::AddTask(args) => issue(pre, SpecApiRequest::AddTask(args.0, args.1)),
        SpecMsg::AddWorker(name) => issue(pre, SpecApiRequest::AddWorker(name)),
        SpecMsg::PreViewAssignTask(id) => issue(pre, SpecApiRequest::GetTaskForAssign(id)),
        SpecMsg::ViewAssignTask(task) => SpecStep {
            temp: Some(task),
            ..issue(pre, SpecApiRequest::GetWorkersForAssign)
        },
        SpecMsg::PostViewAssignTask(workers) => match pre.temp {
            None => stay(pre),
            Some(task) => SpecStep {
                temp: None,
                effects: seq![
                    SpecEffect::Emit(
                        SpecMsg::ChangeScene(SpecScene::AssignTask { task, workers }),
                    ),
                ],
                ..stay(pre)
            },
        },
        SpecMsg::AssignTask(args) => issue(pre, SpecApiRequest::AssignTask(args.0, args.1)),
        SpecMsg::UnassignTask(id) => issue(pre, SpecApiRequest::UnassignTask(id)),
    }
}

/// Consumes one message: mutates the model and returns the effects, exactly
/// as `step` says.
pub fn update(model: &mut Model, msg: Msg) -> (effects: Vec<Effect>)
    ensures
        ({
            let st = step(old(model).deep_view(), msg.deep_view());
            &&& final(model).auth_state.deep_view() == st.auth_state
            &&& final(model).scene.deep_view() == st.scene
            &&& final(model).task.deep_view() == st.task
            &&& final(model).temp.deep_view() == st.temp
            &&& effects.deep_view() == st.effects
        }),
{
    let ghost pre = model.deep_view();
    let ghost spec_msg = msg.deep_view();
    let effects: Vec<Effect> = match msg {
        Msg::Null => Vec::new(),
        Msg::Error(_) => {
            model.task = None;
            Vec::new()
        },
        Msg::Init => vec![Effect::ArmBridges],
        Msg::Login => vec![Effect::TriggerLogin],
        Msg::Logout => vec![Effect::TriggerLogout],
        Msg::Route => vec![Effect::ResolveRoute],
        Msg::AuthReady(auth) => {
            model.auth_state = auth;
            vec![Effect::Emit(Msg::Route)]
        },
        Msg::ChangeScene(scene) => {
            let path = scene.hash_path();
            model.scene = scene;
            vec![Effect::SetPath(path)]
        },
        Msg::RefreshScene => {
            let m = match &model.scene {
                Scene::Null => Msg::Null,
                Scene::Projects(_) => Msg::GetProjects,
                Scene::Workers(_) => Msg::GetWorkers,
                Scene::Users(_) => Msg::GetUsers,
                Scene::ProjectDetails(view) => Msg::GetProject(view.project.id),
                Scene::WorkerDetails(view) => Msg::GetWorker(view.worker.id),
                Scene::TaskDetails(view) => Msg::GetTask(view.task.id),
                Scene::AssignTask(view) => Msg::ViewAssignTask(view.task.clone()),
            };
            vec![Effect::Emit(m)]
        },
        Msg::GetProjects => {
            model.task = Some(ApiRequest::GetProjects);
            vec![Effect::Issue(ApiRequest::GetProjects)]
        },
        Msg::GetUsers => {
            model.task = Some(ApiRequest::GetUsers);
            vec![Effect::Issue(ApiRequest::GetUsers)]
        },
        Msg::GetWorkers => {
            model.task = Some(ApiRequest::GetWorkers);
            vec![Effect::Issue(ApiRequest::GetWorkers)]
        },
        Msg::GetProject(id) => {
            model.task = Some(ApiRequest::GetProject(id));
            vec![Effect::Issue(ApiRequest::GetProject(id))]
        },
        Msg::GetWorker(id) => {
            model.task = Some(ApiRequest::GetWorker(id));
            vec![Effect::Issue(ApiRequest::GetWorker(id))]
        },
        Msg::GetTask(id) => {
            model.task = Some(ApiRequest::GetTask(id));
            vec![Effect::Issue(ApiRequest::GetTask(id))]
        },
        Msg::AddProject(name) => {
            let req = ApiRequest::AddProject(name);
            model.task = Some(req.clone());
            vec![Effect::Issue(req)]
        },
        Msg::AddTask(args) => {
            let req = ApiRequest::AddTask(args.0, args.1);
            model.task = Some(req.clone());
            vec![Effect::Issue(req)]
        },
        Msg::AddWorker(name) => {
            let req = ApiRequest::AddWorker(name);
            model.task = Some(req.clone());
            vec![Effect::Issue(req)]
        },
        Msg::PreViewAssignTask(id) => {
            model.task = Some(ApiRequest::GetTaskForAssign(id));
            vec![Effect::Issue(ApiRequest::GetTaskForAssign(id))]
        },
        Msg::ViewAssignTask(task) => {
            model.temp.task = Some(task);
            model.task = Some(ApiRequest::GetWorkersForAssign);
            vec![Effect::Issue(ApiRequest::GetWorkersForAssign)]
        },
        Msg::PostViewAssignTask(workers) => match model.temp.task.take() {
            None => Vec::new(),
            Some(task) => vec![
                Effect::Emit(Msg::ChangeScene(Scene::AssignTask(AssignTaskView { task, workers }))),
            ],
        },
        Msg::AssignTask(args) => {
            model.task = Some(ApiRequest::AssignTask(args.0, args.1));
            vec![Effect::Issue(ApiRequest::AssignTask(args.0, args.1))]
        },
        Msg::UnassignTask(id) => {
            model.task = Some(ApiRequest::UnassignTask(id));
            vec![Effect::Issue(ApiRequest::UnassignTask(id))]
        },
    };
    proof {
        assert(effects.deep_view() =~= step(pre, spec_msg).effects);
    }
    effects
}

} // verus!
