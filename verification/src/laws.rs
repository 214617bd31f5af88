//! The properties the engine guarantees, each proved for every state and
//! every input.
//!
//! The scene/path/router round-trip, the refresh discipline, the
//! write-then-refresh rule, the single-in-flight-request discipline and the
//! workflow slot's no-op case are stated here as proof functions over the
//! spec-level model, so a reader can see the guarantees in one place and
//! the verifier holds the engine to them.

use vstd::prelude::*;
use crate::decimal::dec_str;
use crate::decimal::is_digit;
use crate::decimal::lemma_dec_str_chars;
use crate::decimal::lemma_parse_dec_str;
use crate::domain::SpecListProject;
use crate::domain::SpecListWorker;
use crate::domain::SpecProjectDetails;
use crate::domain::SpecTaskDetails;
use crate::domain::SpecUser;
use crate::domain::SpecWorkerDetails;
use crate::engine::SpecEffect;
use crate::engine::SpecModel;
use crate::engine::SpecStep;
use crate::engine::refresh_msg;
use crate::engine::stay;
use crate::engine::step;
use crate::gateway::SpecApiRequest;
use crate::msg::SpecMsg;
use crate::msg::route_spec;
use crate::response::SpecFetchOutcome;
use crate::response::SpecFetchPayload;
use crate::response::response_spec;
use crate::response::success_spec;
use crate::text::lemma_split_head;
use crate::text::lemma_split_unbroken;
use crate::text::split_slash;
use crate::views::SpecScene;
use crate::views::scene_path;

verus! {

/// The message the router dispatches for a scene's canonical path: the
/// refetch of the same variant, keyed by the scene's own identifying data.
pub open spec fn scene_route_msg(s: SpecScene) -> SpecMsg {
    match s {
        SpecScene::Null => SpecMsg::Null,
        SpecScene::Projects { .. } => SpecMsg::GetProjects,
        SpecScene::Workers { .. } => SpecMsg::GetWorkers,
        SpecScene::Users { .. } => SpecMsg::GetUsers,
        SpecScene::ProjectDetails { project } => SpecMsg::GetProject(project.id),
        SpecScene::WorkerDetails { worker } => SpecMsg::GetWorker(worker.id),
        SpecScene::TaskDetails { task } => SpecMsg::GetTask(task.id),
        SpecScene::AssignTask { task, .. } => SpecMsg::PreViewAssignTask(task.id),
    }
}

/// Whether dispatching `m` reconstructs a scene of the same variant as `s`:
/// the engine issues the fetch keyed by `s`'s identifying data, and every
/// same-shape successful response resolves to a `ChangeScene` of that
/// variant — for the assign-task scene, through the three-step workflow.
pub open spec fn scene_reconstructs(pre: SpecModel, m: SpecMsg, s: SpecScene) -> bool {
    match s {
        SpecScene::Null => m is Null && step(pre, m) == stay(pre),
        SpecScene::Projects { .. } => {
            &&& step(pre, m).task == Some(SpecApiRequest::GetProjects)
            &&& forall|projects: Seq<SpecListProject>|
                success_spec(SpecApiRequest::GetProjects, SpecFetchPayload::Projects(projects))
                    == SpecMsg::ChangeScene(SpecScene::Projects { projects })
        },
        SpecScene::Workers { .. } => {
            &&& step(pre, m).task == Some(SpecApiRequest::GetWorkers)
            &&& forall|workers: Seq<SpecListWorker>|
                success_spec(SpecApiRequest::GetWorkers, SpecFetchPayload::Workers(workers))
                    == SpecMsg::ChangeScene(SpecScene::Workers { workers })
        },
        SpecScene::Users { .. } => {
            &&& step(pre, m).task == Some(SpecApiRequest::GetUsers)
            &&& forall|users: Seq<SpecUser>|
                success_spec(SpecApiRequest::GetUsers, SpecFetchPayload::Users(users))
                    == SpecMsg::ChangeScene(SpecScene::Users { users })
        },
        SpecScene::ProjectDetails { project } => {
            &&& step(pre, m).task == Some(SpecApiRequest::GetProject(project.id))
            &&& forall|fresh: SpecProjectDetails|
                success_spec(
                    SpecApiRequest::GetProject(project.id),
                    SpecFetchPayload::Project(Some(fresh)),
                ) == SpecMsg::ChangeScene(SpecScene::ProjectDetails { project: fresh })
        },
        SpecScene::WorkerDetails { worker } => {
            &&& step(pre, m).task == Some(SpecApiRequest::GetWorker(worker.id))
            &&& forall|fresh: SpecWorkerDetails|
                success_spec(
                    SpecApiRequest::GetWorker(worker.id),
                    SpecFetchPayload::Worker(Some(fresh)),
                ) == SpecMsg::ChangeScene(SpecScene::WorkerDetails { worker: fresh })
        },
        SpecScene::TaskDetails { task } => {
            &&& step(pre, m).task == Some(SpecApiRequest::GetTask(task.id))
            &&& forall|fresh: SpecTaskDetails|
                success_spec(
                    SpecApiRequest::GetTask(task.id),
                    SpecFetchPayload::Task(Some(fresh)),
                ) == SpecMsg::ChangeScene(SpecScene::TaskDetails { task: fresh })
        },
        SpecScene::AssignTask { task, .. } => {
            &&& step(pre, m).task == Some(SpecApiRequest::GetTaskForAssign(task.id))
            &&& forall|fresh: SpecTaskDetails|
                success_spec(
                    SpecApiRequest::GetTaskForAssign(task.id),
                    SpecFetchPayload::Task(Some(fresh)),
                ) == SpecMsg::ViewAssignTask(fresh)
            &&& forall|mid: SpecModel, fresh: SpecTaskDetails|
                (#[trigger] step(mid, SpecMsg::ViewAssignTask(fresh))).temp == Some(fresh)
                    && step(mid, SpecMsg::ViewAssignTask(fresh)).task == Some(
                    SpecApiRequest::GetWorkersForAssign,
                )
            &&& forall|workers: Seq<SpecListWorker>|
                success_spec(
                    SpecApiRequest::GetWorkersForAssign,
                    SpecFetchPayload::Workers(workers),
                ) == SpecMsg::PostViewAssignTask(workers)
            &&& forall|mid: SpecModel, workers: Seq<SpecListWorker>|
                mid.temp is Some ==> (#[trigger] step(
                    mid,
                    SpecMsg::PostViewAssignTask(workers),
                )).effects == seq![
                    SpecEffect::Emit(
                        SpecMsg::ChangeScene(
                            SpecScene::AssignTask { task: mid.temp->0, workers },
                        ),
                    ),
                ]
        },
    }
}

/// Splitting a word, a separator and an unbroken tail yields exactly the
/// word and the tail.
proof fn lemma_split_word_id(word: Seq<char>, rest: Seq<char>)
    requires
        forall|i: int| 0 <= i < word.len() ==> word[i] != '/',
        rest.len() >= 1,
        forall|i: int| 0 <= i < rest.len() ==> rest[i] != '/',
    ensures
        split_slash(word + seq!['/'] + rest) == seq![word, rest],
{
    let s = word + seq!['/'] + rest;
    lemma_split_head(s, word.len() as int);
    assert(s.subrange(0, word.len() as int) =~= word);
    assert(s.subrange(word.len() as int + 1, s.len() as int) =~= rest);
    lemma_split_unbroken(rest);
    assert(split_slash(s) =~= seq![word, rest]);
}

/// Law: the router inverts the scene-to-path projection — routing the
/// canonical path of any scene dispatches exactly the message that
/// reconstructs a scene of the same variant, keyed by the scene's live
/// identifying data, and resolving that message does reconstruct it.
pub proof fn lemma_scene_path_round_trip(pre: SpecModel, s: SpecScene)
    ensures
        route_spec(split_slash(scene_path(s))) == scene_route_msg(s),
        scene_reconstructs(pre, scene_route_msg(s), s),
{
    match s {
        SpecScene::Null => {
            assert(split_slash(scene_path(s)) =~= Seq::<Seq<char>>::empty());
        },
        SpecScene::Projects { .. } => {
            reveal_strlit("projects");
            lemma_split_unbroken("projects"@);
        },
        SpecScene::Workers { .. } => {
            reveal_strlit("workers");
            reveal_strlit("projects");
            lemma_split_unbroken("workers"@);
        },
        SpecScene::Users { .. } => {
            reveal_strlit("users");
            reveal_strlit("projects");
            reveal_strlit("workers");
            lemma_split_unbroken("users"@);
        },
        SpecScene::ProjectDetails { project } => {
            reveal_strlit("project/");
            reveal_strlit("project");
            lemma_detail_path("project/"@, "project"@, project.id);
            lemma_parse_dec_str(project.id);
        },
        SpecScene::WorkerDetails { worker } => {
            reveal_strlit("worker/");
            reveal_strlit("worker");
            reveal_strlit("project");
            lemma_detail_path("worker/"@, "worker"@, worker.id);
            lemma_parse_dec_str(worker.id);
        },
        SpecScene::TaskDetails { task } => {
            reveal_strlit("task/");
            reveal_strlit("task");
            reveal_strlit("project");
            reveal_strlit("worker");
            lemma_detail_path("task/"@, "task"@, task.id);
            lemma_parse_dec_str(task.id);
        },
        SpecScene::AssignTask { task, .. } => {
            reveal_strlit("assign/");
            reveal_strlit("assign");
            reveal_strlit("project");
            reveal_strlit("worker");
            reveal_strlit("task");
            lemma_detail_path("assign/"@, "assign"@, task.id);
            lemma_parse_dec_str(task.id);
            assert(split_slash(scene_path(s)) == seq!["assign"@, dec_str(task.id as int)]);
            assert("assign"@ != "project"@);
            assert("assign"@ != "worker"@) by {
                assert("assign"@[0] == 'a');
                assert("worker"@[0] == 'w');
            }
            assert("assign"@ != "task"@);
            assert(route_spec(seq!["assign"@, dec_str(task.id as int)])
                == SpecMsg::PreViewAssignTask(task.id));
        },
    }
}

/// A detail path `<word>/<id>` splits into its word and the identifier's
/// decimal text.
proof fn lemma_detail_path(prefix: Seq<char>, word: Seq<char>, id: i32)
    requires
        prefix =~= word + seq!['/'],
        forall|i: int| 0 <= i < word.len() ==> word[i] != '/',
    ensures
        split_slash(prefix + dec_str(id as int)) == seq![word, dec_str(id as int)],
{
    lemma_dec_str_chars(id);
    let rest = dec_str(id as int);
    assert(forall|i: int| 0 <= i < rest.len() ==> rest[i] != '/') by {
        assert(forall|i: int|
            0 <= i < rest.len() ==> (is_digit(#[trigger] rest[i]) || rest[i] == '-'));
    }
    assert(prefix + rest =~= word + seq!['/'] + rest);
    lemma_split_word_id(word, rest);
}

/// Law: `RefreshScene` changes no state and emits exactly the fetch message
/// keyed by the live scene's identifying data; on every scene but the empty
/// one, that message is a real refetch, never a no-op.
pub proof fn lemma_refresh_emits_live_refetch(pre: SpecModel)
    ensures
        step(pre, SpecMsg::RefreshScene) == refresh_step(pre),
        !(pre.scene is Null) ==> !(refresh_msg(pre.scene) is Null),
{
}

/// What the `RefreshScene` step is: the state kept, one emitted refetch.
pub open spec fn refresh_step(pre: SpecModel) -> SpecStep {
    SpecStep {
        effects: seq![SpecEffect::Emit(refresh_msg(pre.scene))],
        ..stay(pre)
    }
}

/// Law: a successful entity-creating write resolves to `RefreshScene`, and
/// no outcome of such a write ever resolves to a direct `ChangeScene`: a
/// write never assumes which scene is displayed.
pub proof fn lemma_writes_refresh_not_change_scene(
    name: Seq<char>,
    pid: i32,
    outcome: SpecFetchOutcome,
)
    ensures
        forall|id: i32|
            response_spec(
                SpecApiRequest::AddProject(name),
                SpecFetchOutcome::Success(SpecFetchPayload::Id(id)),
            ) == SpecMsg::RefreshScene,
        forall|id: i32|
            response_spec(
                SpecApiRequest::AddWorker(name),
                SpecFetchOutcome::Success(SpecFetchPayload::Id(id)),
            ) == SpecMsg::RefreshScene,
        forall|id: i32|
            response_spec(
                SpecApiRequest::AddTask(name, pid),
                SpecFetchOutcome::Success(SpecFetchPayload::Id(id)),
            ) == SpecMsg::RefreshScene,
        !(response_spec(SpecApiRequest::AddProject(name), outcome) is ChangeScene),
        !(response_spec(SpecApiRequest::AddWorker(name), outcome) is ChangeScene),
        !(response_spec(SpecApiRequest::AddTask(name, pid), outcome) is ChangeScene),
{
}

/// Law: at most one request handle is ever occupied.  A step holds at most
/// one `Issue` effect; when it issues, the slot holds exactly the issued
/// request, superseding any prior handle; `Error` clears the slot; and a
/// step that issues nothing and is not an `Error` leaves the slot alone.
pub proof fn lemma_single_in_flight(pre: SpecModel, msg: SpecMsg)
    ensures
        ({
            let st = step(pre, msg);
            &&& forall|i: int, j: int|
                (0 <= i < st.effects.len() && 0 <= j < st.effects.len()
                    && (#[trigger] st.effects[i]) is Issue && (#[trigger] st.effects[j]) is Issue)
                    ==> i == j
            &&& forall|i: int|
                (0 <= i < st.effects.len() && (#[trigger] st.effects[i]) is Issue) ==> st.task
                    == Some(st.effects[i]->Issue_0)
            &&& msg is Error ==> st.task is None
            &&& (!(msg is Error) && (forall|i: int|
                0 <= i < st.effects.len() ==> !((#[trigger] st.effects[i]) is Issue))) ==> st.task
                == pre.task
        }),
{
    let st = step(pre, msg);
    match msg {
        SpecMsg::GetProjects => {
            assert(st.effects[0] is Issue);
        },
        SpecMsg::GetUsers => {
            assert(st.effects[0] is Issue);
        },
        SpecMsg::GetWorkers => {
            assert(st.effects[0] is Issue);
        },
        SpecMsg::GetProject(_) => {
            assert(st.effects[0] is Issue);
        },
        SpecMsg::GetWorker(_) => {
            assert(st.effects[0] is Issue);
        },
        SpecMsg::GetTask(_) => {
            assert(st.effects[0] is Issue);
        },
        SpecMsg::AddProject(_) => {
            assert(st.effects[0] is Issue);
        },
        SpecMsg::AddTask(_) => {
            assert(st.effects[0] is Issue);
        },
        SpecMsg::AddWorker(_) => {
            assert(st.effects[0] is Issue);
        },
        SpecMsg::PreViewAssignTask(_) => {
            assert(st.effects[0] is Issue);
        },
        SpecMsg::ViewAssignTask(_) => {
            assert(st.effects[0] is Issue);
        },
        SpecMsg::AssignTask(_) => {
            assert(st.effects[0] is Issue);
        },
        SpecMsg::UnassignTask(_) => {
            assert(st.effects[0] is Issue);
        },
        _ => {},
    }
}

/// Law: the third workflow step with an empty transient slot is a no-op —
/// no state change, no effects.
pub proof fn lemma_post_view_assign_task_empty_noop(
    pre: SpecModel,
    workers: Seq<SpecListWorker>,
)
    requires
        pre.temp is None,
    ensures
        step(pre, SpecMsg::PostViewAssignTask(workers)) == stay(pre),
{
}

/// Law: a successful assignment change resolves to a fresh fetch of the
/// task it changed, never to `RefreshScene`, whatever scene is current.
pub proof fn lemma_assignment_fetches_task(task_id: i32, worker_id: i32)
    ensures
        response_spec(
            SpecApiRequest::AssignTask(task_id, worker_id),
            SpecFetchOutcome::Success(SpecFetchPayload::Unit),
        ) == SpecMsg::GetTask(task_id),
        response_spec(
            SpecApiRequest::UnassignTask(task_id),
            SpecFetchOutcome::Success(SpecFetchPayload::Unit),
        ) == SpecMsg::GetTask(task_id),
{
}

} // verus!
