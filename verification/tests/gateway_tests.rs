use frontend::auth::AuthState;
use frontend::auth::AuthUser;
use frontend::gateway::build_request_plan;
use frontend::gateway::ApiRequest;
use frontend::gateway::Method;

#[test]
fn authenticated_requests_carry_the_bearer_token() {
    let auth = AuthState::Yes(AuthUser {
        name: "ada".to_string(),
        token: "tok123".to_string(),
    });
    let plan = build_request_plan("https://host", &auth, &ApiRequest::GetProject(5));
    assert_eq!(plan.method, Method::Get);
    assert_eq!(plan.url, "https://host/api/get_project/5");
    assert_eq!(plan.authorization, Some("Bearer tok123".to_string()));
}

#[test]
fn unauthenticated_requests_are_sent_bare() {
    let plan = build_request_plan("https://host", &AuthState::No, &ApiRequest::GetProjects);
    assert_eq!(plan.method, Method::Get);
    assert_eq!(plan.url, "https://host/api/get_projects");
    assert_eq!(plan.authorization, None);

    let plan = build_request_plan("https://host", &AuthState::Unknown, &ApiRequest::GetUsers);
    assert_eq!(plan.authorization, None);
    assert_eq!(plan.url, "https://host/api/get_users");
}

#[test]
fn writes_use_post_and_their_action_paths() {
    let auth = AuthState::No;
    let plan = build_request_plan("h", &auth, &ApiRequest::AddProject("x".to_string()));
    assert_eq!(plan.method, Method::Post);
    assert_eq!(plan.url, "h/api/add_project");

    let plan = build_request_plan("h", &auth, &ApiRequest::AssignTask(7, 3));
    assert_eq!(plan.method, Method::Post);
    assert_eq!(plan.url, "h/api/assign_task");

    let plan = build_request_plan("h", &auth, &ApiRequest::UnassignTask(7));
    assert_eq!(plan.method, Method::Post);
    assert_eq!(plan.url, "h/api/unassign_task");
}

#[test]
fn workflow_fetches_share_the_plain_actions() {
    let auth = AuthState::No;
    let plan = build_request_plan("h", &auth, &ApiRequest::GetTaskForAssign(9));
    assert_eq!(plan.method, Method::Get);
    assert_eq!(plan.url, "h/api/get_task/9");

    let plan = build_request_plan("h", &auth, &ApiRequest::GetWorkersForAssign);
    assert_eq!(plan.url, "h/api/get_workers");
}

#[test]
fn negative_identifiers_render_with_their_sign() {
    let plan = build_request_plan("h", &AuthState::No, &ApiRequest::GetWorker(-5));
    assert_eq!(plan.url, "h/api/get_worker/-5");
}
