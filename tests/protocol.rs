use restaurant_planner::chat::{ChatContent, Part, Role};
use restaurant_planner::console::user_turn;
use restaurant_planner::conversation::Conversation;
use restaurant_planner::dispatcher::{dispatch, search_request, ToolRequest};
use restaurant_planner::gemini::read_response;
use restaurant_planner::orchestrator::{ChatError, Episode, Step, MAX_TOOL_ROUNDS};
use restaurant_planner::planner::init_restaurant_planner;

fn model_text(t: &str) -> ChatContent {
    ChatContent { role: Role::MODEL, parts: vec![Part::Text(t.to_string())] }
}

fn model_call(name: &str, args: &str) -> ChatContent {
    ChatContent {
        role: Role::MODEL,
        parts: vec![Part::FunctionCall { name: name.to_string(), args: args.to_string() }],
    }
}

fn seeded_store(user: &str) -> Conversation {
    let mut store = Conversation::from_turns(init_restaurant_planner());
    store.append(user_turn(user.to_string()));
    store
}

#[test]
fn text_reply_ends_the_episode_with_one_turn() {
    let store = seeded_store("こんにちは");
    let mut episode = Episode::start(store.snapshot(), MAX_TOOL_ROUNDS);
    let step = episode.on_reply(model_text("どちらのオフィスですか？")).unwrap();
    match step {
        Step::Done(turn) => {
            assert_eq!(turn.role, Role::MODEL);
            assert!(matches!(&turn.parts[0], Part::Text(t) if t == "どちらのオフィスですか？"));
        }
        _ => panic!("expected the episode to end"),
    }
    assert_eq!(episode.contents().len(), 4);
    assert_eq!(episode.new_turns().len(), 1);
    assert!(!episode.awaiting_tool());
}

#[test]
fn known_tool_call_appends_call_then_named_response() {
    let store = seeded_store("ラーメンを食べたい");
    let mut episode = Episode::start(store.snapshot(), MAX_TOOL_ROUNDS);
    let step = episode.on_reply(model_call("search_location", r#"{"q":"渋谷 ラーメン"}"#)).unwrap();
    match step {
        Step::RunTool(ToolRequest::SearchLocation { query }) => assert_eq!(query, "渋谷 ラーメン 周辺"),
        _ => panic!("expected a tool run"),
    }
    assert!(episode.awaiting_tool());
    assert_eq!(episode.contents().len(), 4);
    episode.on_tool_result("[]".to_string());
    assert_eq!(episode.contents().len(), 5);
    let response = &episode.contents()[4];
    assert_eq!(response.role, Role::MODEL);
    assert!(matches!(&response.parts[0], Part::FunctionResponse { name, result } if name == "search_location" && result == "[]"));
}

#[test]
fn unknown_tool_is_answered_with_null() {
    assert!(dispatch(&"unknown_tool".to_string(), &"{}".to_string()).is_none());
    let store = seeded_store("何か");
    let mut episode = Episode::start(store.snapshot(), MAX_TOOL_ROUNDS);
    let step = episode.on_reply(model_call("unknown_tool", "{}")).unwrap();
    assert!(matches!(step, Step::AskAgain));
    assert!(!episode.awaiting_tool());
    let turns = episode.new_turns();
    assert_eq!(turns.len(), 2);
    assert!(matches!(&turns[0].parts[0], Part::FunctionCall { name, .. } if name == "unknown_tool"));
    assert!(matches!(&turns[1].parts[0], Part::FunctionResponse { name, result } if name == "unknown_tool" && result == "null"));
}

#[test]
fn dispatch_adds_the_nearby_suffix() {
    match dispatch(&"search_location".to_string(), &r#"{"q":"渋谷 中華料理"}"#.to_string()) {
        Some(ToolRequest::SearchLocation { query }) => assert_eq!(query, "渋谷 中華料理 周辺"),
        None => panic!("search_location is known"),
    }
    match dispatch(&"search_location".to_string(), &"{}".to_string()) {
        Some(ToolRequest::SearchLocation { query }) => assert_eq!(query, " 周辺"),
        None => panic!("search_location is known"),
    }
}

#[test]
fn history_only_grows() {
    let mut store = seeded_store("ラーメン");
    let before = store.snapshot();
    let mut episode = Episode::start(store.snapshot(), MAX_TOOL_ROUNDS);
    episode.on_reply(model_call("unknown_tool", "{}")).unwrap();
    episode.on_reply(model_call("search_location", r#"{"q":"x"}"#)).unwrap();
    episode.on_tool_result("[]".to_string());
    episode.on_reply(model_text("done")).unwrap();
    store.extend(episode.new_turns());
    let after = store.snapshot();
    assert_eq!(after.len(), before.len() + 5);
    for (a, b) in before.iter().zip(after.iter()) {
        assert_eq!(a.to_json(), b.to_json());
    }
}

#[test]
fn snapshots_without_append_are_equal() {
    let store = seeded_store("ラーメン");
    let first = store.snapshot();
    let second = store.snapshot();
    assert_eq!(first.len(), second.len());
    for (a, b) in first.iter().zip(second.iter()) {
        assert_eq!(a.to_json(), b.to_json());
    }
}

#[test]
fn snapshot_does_not_see_later_appends() {
    let mut store = seeded_store("ラーメン");
    let first = store.snapshot();
    store.append(model_text("later"));
    assert_eq!(first.len(), 3);
    assert_eq!(store.len(), 4);
}

#[test]
fn ramen_episode_stores_six_turns() {
    let mut store = seeded_store("ラーメンを食べたい");
    let mut episode = Episode::start(store.snapshot(), MAX_TOOL_ROUNDS);
    let first = read_response(
        200,
        r#"{"candidates":[{"content":{"parts":[{"functionCall":{"name":"search_location","args":{"q":"渋谷 ラーメン"}}}]}}]}"#.to_string(),
    )
    .unwrap();
    match episode.on_reply(first).unwrap() {
        Step::RunTool(ToolRequest::SearchLocation { query }) => assert_eq!(query, "渋谷 ラーメン 周辺"),
        _ => panic!("expected a search"),
    }
    episode.on_tool_result(r#"[{"name":"麺屋A","rating":4.5,"reviews":120}]"#.to_string());
    let second = read_response(
        200,
        r#"{"candidates":[{"content":{"parts":[{"text":"麺屋Aはいかがですか（評価4.5、120件）"}]}}]}"#.to_string(),
    )
    .unwrap();
    let last = match episode.on_reply(second).unwrap() {
        Step::Done(turn) => turn,
        _ => panic!("expected the final answer"),
    };
    assert!(matches!(&last.parts[0], Part::Text(t) if t == "麺屋Aはいかがですか（評価4.5、120件）"));
    store.extend(episode.new_turns());
    let turns = store.snapshot();
    assert_eq!(turns.len(), 6);
    assert_eq!(turns[0].role, Role::USER);
    assert_eq!(turns[1].role, Role::MODEL);
    assert!(matches!(&turns[2].parts[0], Part::Text(t) if t == "ラーメンを食べたい"));
    assert!(matches!(&turns[3].parts[0], Part::FunctionCall { name, .. } if name == "search_location"));
    assert!(matches!(&turns[4].parts[0], Part::FunctionResponse { name, result } if name == "search_location" && result == r#"[{"name":"麺屋A","rating":4.5,"reviews":120}]"#));
    assert_eq!(turns[5].to_json(), last.to_json());
}

#[test]
fn reply_with_neither_text_nor_call_is_a_defect() {
    let store = seeded_store("x");
    let mut episode = Episode::start(store.snapshot(), MAX_TOOL_ROUNDS);
    let reply = read_response(200, r#"{"candidates":[{"content":{"parts":[{"thought":"?"}]}}]}"#.to_string()).unwrap();
    assert!(matches!(episode.on_reply(reply), Err(ChatError::MalformedReply)));
    assert_eq!(episode.contents().len(), 3);
}

#[test]
fn reply_without_parts_is_refused() {
    let store = seeded_store("x");
    let mut episode = Episode::start(store.snapshot(), MAX_TOOL_ROUNDS);
    let reply = read_response(200, r#"{"candidates":[]}"#.to_string()).unwrap();
    assert!(matches!(episode.on_reply(reply), Err(ChatError::EmptyReply)));
    assert_eq!(episode.contents().len(), 3);
}

#[test]
fn transport_failure_leaves_the_store_unchanged() {
    let store = seeded_store("x");
    let before = store.len();
    let err = read_response(500, "boom".to_string()).unwrap_err();
    assert!(matches!(err, ChatError::Transport { status: 500, ref body } if body == "boom"));
    assert_eq!(store.len(), before);
}

#[test]
fn tool_rounds_are_bounded() {
    let store = seeded_store("x");
    let mut episode = Episode::start(store.snapshot(), 2);
    episode.on_reply(model_call("unknown_tool", "{}")).unwrap();
    episode.on_reply(model_call("unknown_tool", "{}")).unwrap();
    let len = episode.contents().len();
    assert!(matches!(episode.on_reply(model_call("unknown_tool", "{}")), Err(ChatError::RoundLimitExceeded)));
    assert_eq!(episode.contents().len(), len);
}

#[test]
fn search_request_asks_around_the_query() {
    let ToolRequest::SearchLocation { query } = search_request("渋谷 ラーメン".to_string());
    assert_eq!(query, "渋谷 ラーメン 周辺");
}

#[test]
fn classify_prefers_text_then_call() {
    let text = Part::classify("{}".to_string(), Some("hi".to_string()), Some(("f".to_string(), "{}".to_string())));
    assert!(matches!(&text, Part::Text(t) if t == "hi"));
    let call = Part::classify("{}".to_string(), None, Some(("f".to_string(), r#"{"q":1}"#.to_string())));
    assert!(matches!(&call, Part::FunctionCall { name, args } if name == "f" && args == r#"{"q":1}"#));
    let other = Part::classify(r#"{"x":1}"#.to_string(), None, None);
    assert!(matches!(&other, Part::Other(raw) if raw == r#"{"x":1}"#));
}

#[test]
fn each_tool_round_adds_two_turns() {
    let store = seeded_store("ラーメン");
    let mut episode = Episode::start(store.snapshot(), MAX_TOOL_ROUNDS);
    let mut sent = episode.contents().len();
    for (q, result) in [("渋谷", "[1]"), ("恵比寿", "[2]"), ("原宿", "[]")] {
        let args = format!(r#"{{"q":"{}"}}"#, q);
        assert!(matches!(episode.on_reply(model_call("search_location", &args)).unwrap(), Step::RunTool(_)));
        episode.on_tool_result(result.to_string());
        let turns = episode.contents();
        assert_eq!(turns.len(), sent + 2);
        assert!(matches!(&turns[sent].parts[0], Part::FunctionCall { args: a, .. } if *a == args));
        assert!(matches!(&turns[sent + 1].parts[0], Part::FunctionResponse { name, result: r } if name == "search_location" && r == result));
        sent = turns.len();
    }
    assert_eq!(sent, 3 + 6);
}
