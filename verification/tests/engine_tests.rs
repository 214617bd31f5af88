use frontend::auth::AuthState;
use frontend::auth::AuthUser;
use frontend::domain::ListProject;
use frontend::domain::ListWorker;
use frontend::domain::TaskDetails;
use frontend::engine::update;
use frontend::engine::Effect;
use frontend::engine::Model;
use frontend::gateway::ApiRequest;
use frontend::msg::route_hash;
use frontend::msg::Msg;
use frontend::response::response_msg;
use frontend::response::FetchOutcome;
use frontend::response::FetchPayload;
use frontend::views::AssignTaskView;
use frontend::views::ProjectsView;
use frontend::views::Scene;
use frontend::views::TaskDetailsView;

fn sample_task(id: i32) -> TaskDetails {
    TaskDetails {
        id,
        name: "wire".to_string(),
        project: ListProject { id: 2, name: "site".to_string() },
        worker: None,
    }
}

#[test]
fn fresh_model_is_empty() {
    let m = Model::new();
    assert_eq!(m.auth_state, AuthState::Unknown);
    assert_eq!(m.scene, Scene::Null);
    assert_eq!(m.task, None);
    assert_eq!(m.temp.task, None);
}

#[test]
fn null_is_a_no_op() {
    let mut m = Model::new();
    let effects = update(&mut m, Msg::Null);
    assert!(effects.is_empty());
    assert_eq!(m.scene, Scene::Null);
}

#[test]
fn error_clears_in_flight_slot() {
    let mut m = Model::new();
    update(&mut m, Msg::GetProjects);
    assert_eq!(m.task, Some(ApiRequest::GetProjects));
    let effects = update(&mut m, Msg::Error("boom".to_string()));
    assert!(effects.is_empty());
    assert_eq!(m.task, None);
}

#[test]
fn issuing_overwrites_the_handle() {
    let mut m = Model::new();
    update(&mut m, Msg::GetProjects);
    assert_eq!(m.task, Some(ApiRequest::GetProjects));
    let effects = update(&mut m, Msg::GetWorkers);
    assert_eq!(m.task, Some(ApiRequest::GetWorkers));
    assert_eq!(effects, vec![Effect::Issue(ApiRequest::GetWorkers)]);
}

#[test]
fn refresh_scene_emits_live_refetch() {
    let mut m = Model::new();
    m.scene = Scene::TaskDetails(TaskDetailsView { task: sample_task(9) });
    let effects = update(&mut m, Msg::RefreshScene);
    assert_eq!(effects, vec![Effect::Emit(Msg::GetTask(9))]);

    m.scene = Scene::Projects(ProjectsView { projects: vec![] });
    let effects = update(&mut m, Msg::RefreshScene);
    assert_eq!(effects, vec![Effect::Emit(Msg::GetProjects)]);

    m.scene = Scene::Null;
    let effects = update(&mut m, Msg::RefreshScene);
    assert_eq!(effects, vec![Effect::Emit(Msg::Null)]);
}

#[test]
fn change_scene_writes_path_and_scene_atomically() {
    let mut m = Model::new();
    let scene = Scene::Projects(ProjectsView {
        projects: vec![ListProject { id: 1, name: "site".to_string() }],
    });
    let effects = update(&mut m, Msg::ChangeScene(scene));
    assert_eq!(effects, vec![Effect::SetPath("projects".to_string())]);
    assert!(matches!(m.scene, Scene::Projects(_)));
}

#[test]
fn auth_ready_stores_state_and_reroutes() {
    let mut m = Model::new();
    let user = AuthUser { name: "ada".to_string(), token: "tok".to_string() };
    let effects = update(&mut m, Msg::AuthReady(AuthState::Yes(user)));
    assert_eq!(effects, vec![Effect::Emit(Msg::Route)]);
    assert!(matches!(m.auth_state, AuthState::Yes(_)));
}

#[test]
fn post_view_assign_task_with_empty_slot_is_a_no_op() {
    let mut m = Model::new();
    let effects = update(
        &mut m,
        Msg::PostViewAssignTask(vec![ListWorker { id: 4, name: "ada".to_string() }]),
    );
    assert!(effects.is_empty());
    assert_eq!(m.scene, Scene::Null);
    assert_eq!(m.temp.task, None);
}

#[test]
fn assign_task_workflow_carries_the_task_across() {
    let mut m = Model::new();
    let effects = update(&mut m, Msg::ViewAssignTask(sample_task(9)));
    assert_eq!(m.temp.task, Some(sample_task(9)));
    assert_eq!(m.task, Some(ApiRequest::GetWorkersForAssign));
    assert_eq!(effects, vec![Effect::Issue(ApiRequest::GetWorkersForAssign)]);

    let workers = vec![ListWorker { id: 4, name: "ada".to_string() }];
    let effects = update(&mut m, Msg::PostViewAssignTask(workers.clone()));
    assert_eq!(m.temp.task, None);
    assert_eq!(
        effects,
        vec![Effect::Emit(Msg::ChangeScene(Scene::AssignTask(AssignTaskView {
            task: sample_task(9),
            workers,
        })))]
    );
}

#[test]
fn responses_collapse_failures_to_error() {
    let req = ApiRequest::GetProjects;
    assert_eq!(
        response_msg(&req, FetchOutcome::HttpFailure),
        Msg::Error("Not 200".to_string())
    );
    assert_eq!(
        response_msg(&req, FetchOutcome::DecodeFailure),
        Msg::Error("JSON error?".to_string())
    );
    assert_eq!(
        response_msg(&req, FetchOutcome::ServerError("boom".to_string())),
        Msg::Error("boom".to_string())
    );
    let mismatched = FetchOutcome::Success(FetchPayload::Workers(vec![]));
    assert_eq!(response_msg(&req, mismatched), Msg::Error("JSON error?".to_string()));
}

#[test]
fn absent_entity_resolves_to_null() {
    assert_eq!(
        response_msg(&ApiRequest::GetProject(5), FetchOutcome::Success(FetchPayload::Project(None))),
        Msg::Null
    );
    assert_eq!(
        response_msg(
            &ApiRequest::GetTaskForAssign(5),
            FetchOutcome::Success(FetchPayload::Task(None))
        ),
        Msg::Null
    );
}

#[test]
fn add_project_success_refreshes_never_changes_scene() {
    let req = ApiRequest::AddProject("homepage".to_string());
    let msg = response_msg(&req, FetchOutcome::Success(FetchPayload::Id(17)));
    assert_eq!(msg, Msg::RefreshScene);
    assert!(!matches!(msg, Msg::ChangeScene(_)));
    let on_error = response_msg(&req, FetchOutcome::HttpFailure);
    assert!(!matches!(on_error, Msg::ChangeScene(_)));
}

#[test]
fn projects_scenario_from_startup_to_path_writeback() {
    let mut m = Model::new();

    let effects = update(&mut m, Msg::Init);
    assert_eq!(effects, vec![Effect::ArmBridges]);

    let user = AuthUser { name: "ada".to_string(), token: "tok".to_string() };
    let effects = update(&mut m, Msg::AuthReady(AuthState::Yes(user)));
    assert_eq!(effects, vec![Effect::Emit(Msg::Route)]);

    let effects = update(&mut m, Msg::Route);
    assert_eq!(effects, vec![Effect::ResolveRoute]);

    let routed = route_hash("#/projects");
    assert_eq!(routed, Msg::GetProjects);

    let effects = update(&mut m, routed);
    assert_eq!(effects, vec![Effect::Issue(ApiRequest::GetProjects)]);
    assert_eq!(m.task, Some(ApiRequest::GetProjects));

    let fetched = vec![ListProject { id: 1, name: "site".to_string() }];
    let resolved = response_msg(
        &ApiRequest::GetProjects,
        FetchOutcome::Success(FetchPayload::Projects(fetched)),
    );
    let effects = update(&mut m, resolved);
    assert_eq!(effects, vec![Effect::SetPath("projects".to_string())]);
    assert!(matches!(m.scene, Scene::Projects(_)));
}

#[test]
fn assignment_success_fetches_the_task_not_the_scene() {
    let mut m = Model::new();
    let effects = update(&mut m, Msg::AssignTask((7, 3)));
    assert_eq!(effects, vec![Effect::Issue(ApiRequest::AssignTask(7, 3))]);
    assert_eq!(m.task, Some(ApiRequest::AssignTask(7, 3)));

    let resolved = response_msg(
        &ApiRequest::AssignTask(7, 3),
        FetchOutcome::Success(FetchPayload::Unit),
    );
    assert_eq!(resolved, Msg::GetTask(7));
    assert_ne!(resolved, Msg::RefreshScene);

    let resolved = response_msg(
        &ApiRequest::UnassignTask(7),
        FetchOutcome::Success(FetchPayload::Unit),
    );
    assert_eq!(resolved, Msg::GetTask(7));
}

#[test]
fn login_logout_and_route_only_delegate() {
    let mut m = Model::new();
    assert_eq!(update(&mut m, Msg::Login), vec![Effect::TriggerLogin]);
    assert_eq!(update(&mut m, Msg::Logout), vec![Effect::TriggerLogout]);
    assert_eq!(m.auth_state, AuthState::Unknown);
    assert_eq!(m.scene, Scene::Null);
}
