use frontend::decimal::parse_with_default;
use frontend::domain::ListProject;
use frontend::domain::ListTask;
use frontend::domain::ListWorker;
use frontend::domain::ProjectDetails;
use frontend::domain::TaskDetails;
use frontend::msg::route;
use frontend::msg::route_hash;
use frontend::msg::Msg;
use frontend::text::split_hash_path;
use frontend::text::str_eq;
use frontend::views::ProjectDetailsView;
use frontend::views::ProjectsView;
use frontend::views::Scene;
use frontend::views::TaskDetailsView;

fn segs(parts: &[&str]) -> Vec<String> {
    parts.iter().map(|s| s.to_string()).collect()
}

#[test]
fn router_tie_breaks() {
    assert_eq!(route(&segs(&["project", "notanumber"])), Msg::GetProject(0));
    assert_eq!(route(&segs(&[])), Msg::Null);
    assert_eq!(route(&segs(&["assign", "7"])), Msg::PreViewAssignTask(7));
}

#[test]
fn router_list_paths() {
    assert_eq!(route(&segs(&["projects"])), Msg::GetProjects);
    assert_eq!(route(&segs(&["workers"])), Msg::GetWorkers);
    assert_eq!(route(&segs(&["users"])), Msg::GetUsers);
}

#[test]
fn router_detail_paths() {
    assert_eq!(route(&segs(&["project", "12"])), Msg::GetProject(12));
    assert_eq!(route(&segs(&["worker", "3"])), Msg::GetWorker(3));
    assert_eq!(route(&segs(&["task", "99"])), Msg::GetTask(99));
}

#[test]
fn router_unrecognized_paths_resolve_to_null() {
    assert_eq!(route(&segs(&["bogus"])), Msg::Null);
    assert_eq!(route(&segs(&["project"])), Msg::Null);
    assert_eq!(route(&segs(&["project", "1", "extra"])), Msg::Null);
    assert_eq!(route(&segs(&["", ""])), Msg::Null);
}

#[test]
fn hash_fragment_is_trimmed_and_split() {
    assert_eq!(split_hash_path("#/project/7"), segs(&["project", "7"]));
    assert_eq!(split_hash_path(""), segs(&[]));
    assert_eq!(split_hash_path("#/"), segs(&[]));
    assert_eq!(split_hash_path("projects"), segs(&["projects"]));
    assert_eq!(split_hash_path("#/projects/"), segs(&["projects"]));
    assert_eq!(split_hash_path("#/a//b"), segs(&["a", "", "b"]));
    assert_eq!(split_hash_path("#/#/projects"), segs(&["projects"]));
}

#[test]
fn remaining_scene_paths_are_canonical() {
    let task = TaskDetails {
        id: 7,
        name: "wire".to_string(),
        project: ListProject { id: 2, name: "site".to_string() },
        worker: None,
    };
    let assign = Scene::AssignTask(frontend::views::AssignTaskView {
        task,
        workers: vec![ListWorker { id: 4, name: "ada".to_string() }],
    });
    assert_eq!(assign.hash_path(), "assign/7");
    assert_eq!(route(&split_hash_path(&assign.hash_path())), Msg::PreViewAssignTask(7));

    let negative = Scene::ProjectDetails(ProjectDetailsView {
        project: ProjectDetails { id: -5, name: "odd".to_string(), tasks: vec![] },
    });
    assert_eq!(negative.hash_path(), "project/-5");
    assert_eq!(route(&split_hash_path(&negative.hash_path())), Msg::GetProject(-5));
}

#[test]
fn route_hash_end_to_end() {
    assert_eq!(route_hash("#/projects"), Msg::GetProjects);
    assert_eq!(route_hash("#/task/5"), Msg::GetTask(5));
    assert_eq!(route_hash(""), Msg::Null);
    assert_eq!(route_hash("#/mid-redirect?state=x"), Msg::Null);
}

#[test]
fn non_ascii_segments_fall_back_like_any_malformed_id() {
    assert_eq!(split_hash_path("#/worker/\u{fc}"), segs(&["worker", "\u{fc}"]));
    assert_eq!(route(&segs(&["worker", "\u{fc}"])), Msg::GetWorker(0));
    assert_eq!(parse_with_default("\u{0663}", 1), 1);
}

#[test]
fn parse_with_default_exact_values() {
    assert_eq!(parse_with_default("7", 0), 7);
    assert_eq!(parse_with_default("notanumber", 0), 0);
    assert_eq!(parse_with_default("-12", 0), -12);
    assert_eq!(parse_with_default("+5", 0), 5);
    assert_eq!(parse_with_default("", 42), 42);
    assert_eq!(parse_with_default("2147483647", 0), 2147483647);
    assert_eq!(parse_with_default("2147483648", 9), 9);
    assert_eq!(parse_with_default("-2147483648", 0), -2147483648);
    assert_eq!(parse_with_default("-2147483649", 9), 9);
    assert_eq!(parse_with_default("1e3", 5), 5);
    assert_eq!(parse_with_default("007", 0), 7);
}

#[test]
fn str_eq_compares_contents() {
    assert!(str_eq("projects", "projects"));
    assert!(!str_eq("projects", "project"));
    assert!(!str_eq("worker", "assign"));
    assert!(str_eq("", ""));
}

#[test]
fn scene_hash_paths_are_canonical() {
    assert_eq!(Scene::Null.hash_path(), "");
    assert_eq!(
        Scene::Projects(ProjectsView { projects: vec![] }).hash_path(),
        "projects"
    );
    let scene = Scene::ProjectDetails(ProjectDetailsView {
        project: ProjectDetails {
            id: 42,
            name: "homepage".to_string(),
            tasks: vec![ListTask { id: 1, name: "draft".to_string() }],
        },
    });
    assert_eq!(scene.hash_path(), "project/42");
}

#[test]
fn scene_path_routes_back_to_same_variant() {
    let scene = Scene::TaskDetails(TaskDetailsView {
        task: TaskDetails {
            id: 9,
            name: "wire".to_string(),
            project: ListProject { id: 2, name: "site".to_string() },
            worker: Some(ListWorker { id: 4, name: "ada".to_string() }),
        },
    });
    let path = scene.hash_path();
    assert_eq!(route(&split_hash_path(&path)), Msg::GetTask(9));

    let list = Scene::Projects(ProjectsView { projects: vec![] });
    assert_eq!(route(&split_hash_path(&list.hash_path())), Msg::GetProjects);

    assert_eq!(route(&split_hash_path(&Scene::Null.hash_path())), Msg::Null);
}
