use kirogpt::pipeline::{
    classify, flatten_history, Action, Classification, IncomingMessage, Kind, Pipeline,
    ReferencedMessage, Stage,
};
use kirogpt::registry::ProcessingRegistry;
use kirogpt::{AppData, ChatCompletionResponse, ChatDocument, Choice, Message, PromptDocument, Usage};

const BOT: u64 = 1000;

fn app() -> AppData {
    AppData {
        username: "bot".to_string(),
        bot_id: BOT,
        all_prompts: vec![
            PromptDocument { prompt_id: "expert".to_string(), prompt: "E".to_string() },
            PromptDocument { prompt_id: "jb".to_string(), prompt: "J".to_string() },
            PromptDocument { prompt_id: "uwu".to_string(), prompt: "Hi {FULL_NAME}".to_string() },
        ],
    }
}

fn msg(id: u64, content: &str, mentions: Vec<u64>, referenced: Option<ReferencedMessage>) -> IncomingMessage {
    IncomingMessage { id, author_id: 7, channel_id: 300, content: content.to_string(), mentions, referenced }
}

fn m(role: &str, content: &str) -> Message {
    Message { role: role.to_string(), content: content.to_string() }
}

fn response(contents: &[&str]) -> ChatCompletionResponse {
    ChatCompletionResponse {
        id: "r".to_string(),
        object: "chat.completion".to_string(),
        created: 0,
        choices: contents
            .iter()
            .enumerate()
            .map(|(i, c)| Choice { index: i as i64, message: m("assistant", c), finish_reason: "stop".to_string() })
            .collect(),
        usage: Usage::default(),
    }
}

#[test]
fn classify_reply_to_bot_is_continuation() {
    let e = msg(1, "hi", vec![BOT], Some(ReferencedMessage { id: 55, author_id: BOT }));
    assert_eq!(classify(&e, BOT), Classification::Continuation { anchor: 55 });
}

#[test]
fn classify_reply_to_other_with_mention_is_new() {
    let e = msg(1, "hi", vec![3, BOT], Some(ReferencedMessage { id: 55, author_id: 3 }));
    assert_eq!(classify(&e, BOT), Classification::New);
}

#[test]
fn classify_ping_and_ignore() {
    assert_eq!(classify(&msg(1, "!ping", vec![], None), BOT), Classification::Ping);
    assert_eq!(classify(&msg(1, "!ping ", vec![], None), BOT), Classification::Ignore);
    assert_eq!(classify(&msg(1, "hello", vec![4], None), BOT), Classification::Ignore);
}

#[test]
fn ping_starts_no_pipeline() {
    let mut reg = ProcessingRegistry::new();
    let (p, a) = Pipeline::start(&msg(1, "!ping", vec![], None), &app(), &mut reg);
    assert!(p.is_none());
    assert_eq!(a, Action::Pong { channel_id: 300 });
    assert!(!reg.contains(1));
}

#[test]
fn flatten_history_keeps_order() {
    let docs = vec![
        ChatDocument { id: "1".to_string(), messages: vec![m("user", "a"), m("assistant", "b")] },
        ChatDocument { id: "2".to_string(), messages: vec![m("user", "c")] },
    ];
    assert_eq!(flatten_history(&docs), vec![m("user", "a"), m("assistant", "b"), m("user", "c")]);
}

#[test]
fn new_conversation_is_inserted_once() {
    let mut reg = ProcessingRegistry::new();
    let e = msg(10, "<@1000> hello, there", vec![BOT], None);
    let (p, a) = Pipeline::start(&e, &app(), &mut reg);
    let mut p = p.unwrap();
    assert_eq!(p.kind, Kind::New);
    assert!(reg.contains(10));
    match a {
        Action::CallCompletion { channel_id, request } => {
            assert_eq!(channel_id, 300);
            assert_eq!(request.model, "gpt-3.5-turbo".to_string());
            assert_eq!(request.messages, vec![m("user", " hellothere")]);
        }
        other => panic!("unexpected action {:?}", other),
    }
    let a = p.on_completion(Some(response(&["first", "answer"])), &mut reg);
    assert!(!reg.contains(10));
    assert_eq!(a, Action::SendReply { channel_id: 300, reply_to: 10, content: "answer".to_string() });
    let a = p.on_reply_sent(Some(4242));
    assert_eq!(
        a,
        Action::Insert {
            document: ChatDocument {
                id: "4242".to_string(),
                messages: vec![m("user", " hellothere"), m("assistant", "answer")],
            },
        }
    );
    p.on_stored(true);
    assert_eq!(p.stage, Stage::Done);
}

#[test]
fn continuation_appends_one_assistant_message() {
    let mut reg = ProcessingRegistry::new();
    let e = msg(11, "and then?", vec![], Some(ReferencedMessage { id: 900, author_id: BOT }));
    let (p, a) = Pipeline::start(&e, &app(), &mut reg);
    let mut p = p.unwrap();
    assert_eq!(a, Action::FetchHistory { anchor: 900 });
    assert!(reg.contains(900));
    let prior = vec![m("user", "q"), m("assistant", "a")];
    let a = p.on_history(vec![ChatDocument { id: "900".to_string(), messages: prior.clone() }], &app(), &mut reg);
    let mut expected = prior.clone();
    expected.push(m("user", "and then?"));
    match a {
        Action::CallCompletion { request, .. } => assert_eq!(request.messages, expected),
        other => panic!("unexpected action {:?}", other),
    }
    assert!(reg.contains(900));
    p.on_completion(Some(response(&["more"])), &mut reg);
    assert!(!reg.contains(900));
    let a = p.on_reply_sent(Some(901));
    expected.push(m("assistant", "more"));
    assert_eq!(a, Action::Update { anchor: "900".to_string(), messages: expected });
    p.on_stored(false);
    assert_eq!(p.stage, Stage::Aborted);
}

#[test]
fn reply_without_stored_conversation_does_nothing() {
    let mut reg = ProcessingRegistry::new();
    let e = msg(12, "hm", vec![], Some(ReferencedMessage { id: 800, author_id: BOT }));
    let (p, _) = Pipeline::start(&e, &app(), &mut reg);
    let mut p = p.unwrap();
    let a = p.on_history(Vec::new(), &app(), &mut reg);
    assert_eq!(a, Action::Nothing);
    assert_eq!(p.stage, Stage::Aborted);
    assert!(!reg.contains(800));
}

#[test]
fn reply_already_in_flight_is_dropped() {
    let mut reg = ProcessingRegistry::new();
    let e = msg(12, "hm", vec![], Some(ReferencedMessage { id: 800, author_id: BOT }));
    let (first, _) = Pipeline::start(&e, &app(), &mut reg);
    assert!(first.is_some());
    let (second, a) = Pipeline::start(&e, &app(), &mut reg);
    assert!(second.is_none());
    assert_eq!(a, Action::Nothing);
    assert!(reg.contains(800));
}

#[test]
fn uwu_without_quote_warns_then_deletes() {
    let mut reg = ProcessingRegistry::new();
    let e = msg(13, "!uwu test", vec![BOT], None);
    let (p, a) = Pipeline::start(&e, &app(), &mut reg);
    let mut p = p.unwrap();
    assert_eq!(
        a,
        Action::SendWarning { channel_id: 300, reply_to: 13, content: "You need to provide a name.".to_string() }
    );
    assert_eq!(p.stage, Stage::Warning);
    assert!(!reg.contains(13));
    let a = p.on_warning_sent(Some(77));
    assert_eq!(a, Action::DeleteAfter { channel_id: 300, message_id: 77, seconds: 5 });
    assert_eq!(p.stage, Stage::Done);
}

#[test]
fn missing_snippet_aborts_and_releases() {
    let mut reg = ProcessingRegistry::new();
    let mut data = app();
    data.all_prompts.pop();
    let (p, a) = Pipeline::start(&msg(14, "hi", vec![BOT], None), &data, &mut reg);
    assert_eq!(a, Action::Nothing);
    assert_eq!(p.unwrap().stage, Stage::Aborted);
    assert!(!reg.contains(14));
}

#[test]
fn failed_completion_aborts_and_releases() {
    let mut reg = ProcessingRegistry::new();
    let (p, _) = Pipeline::start(&msg(15, "hi", vec![BOT], None), &app(), &mut reg);
    let mut p = p.unwrap();
    assert_eq!(p.on_completion(None, &mut reg), Action::Nothing);
    assert_eq!(p.stage, Stage::Aborted);
    assert!(!reg.contains(15));
}

#[test]
fn empty_choices_abort_and_release() {
    let mut reg = ProcessingRegistry::new();
    let (p, _) = Pipeline::start(&msg(16, "hi", vec![BOT], None), &app(), &mut reg);
    let mut p = p.unwrap();
    assert_eq!(p.on_completion(Some(response(&[])), &mut reg), Action::Nothing);
    assert_eq!(p.stage, Stage::Aborted);
    assert!(!reg.contains(16));
}

#[test]
fn failed_reply_stores_nothing() {
    let mut reg = ProcessingRegistry::new();
    let (p, _) = Pipeline::start(&msg(17, "hi", vec![BOT], None), &app(), &mut reg);
    let mut p = p.unwrap();
    p.on_completion(Some(response(&["x"])), &mut reg);
    assert_eq!(p.on_reply_sent(None), Action::Nothing);
    assert_eq!(p.stage, Stage::Aborted);
}
