//! Tests for the streaming decoder, the retry policy and executor, and
//! the session and collection registries.

use grok_rust_sdk::chat::{ChatChunk, ChatResponse, Choice, Message, Model, Role, Usage};
use grok_rust_sdk::collections::{Collection, CollectionManager};
use grok_rust_sdk::decoder::StreamDecoder;
use grok_rust_sdk::error::GrokError;
use grok_rust_sdk::executor::{
    completion_of_response, executor_step, is_retryable, run_attempts, AttemptOutcome,
    StepAction,
};
use grok_rust_sdk::retry::RetryPolicy;
use grok_rust_sdk::session::{Session, SessionManager};

fn chunks_equal(a: &ChatChunk, b: &ChatChunk) -> bool {
    if a.id != b.id || a.object != b.object || a.created != b.created || a.model != b.model {
        return false;
    }
    if a.choices.len() != b.choices.len() {
        return false;
    }
    for (ca, cb) in a.choices.iter().zip(b.choices.iter()) {
        if ca.index != cb.index || ca.finish_reason != cb.finish_reason {
            return false;
        }
        if ca.delta.role != cb.delta.role || ca.delta.content != cb.delta.content {
            return false;
        }
        match (&ca.delta.tool_calls, &cb.delta.tool_calls) {
            (None, None) => {}
            (Some(ta), Some(tb)) => {
                if ta.len() != tb.len() {
                    return false;
                }
                for (da, db) in ta.iter().zip(tb.iter()) {
                    if da.index != db.index || da.id != db.id {
                        return false;
                    }
                    match (&da.function, &db.function) {
                        (None, None) => {}
                        (Some(fa), Some(fb)) => {
                            if fa.name != fb.name || fa.arguments != fb.arguments {
                                return false;
                            }
                        }
                        _ => return false,
                    }
                }
            }
            _ => return false,
        }
    }
    true
}

fn decode_all(chunks: &[&[u8]]) -> Vec<ChatChunk> {
    let mut decoder = StreamDecoder::new();
    let mut events = Vec::new();
    for chunk in chunks {
        events.extend(decoder.push_chunk(chunk));
    }
    events
}

#[test]
fn stream_decoder_two_chunk_scenario() {
    let mut decoder = StreamDecoder::new();
    let first =
        decoder.push_chunk(b"event: d\ndata: {\"choices\":[{\"delta\":{\"content\":\"Hi\"}}]}\nda");
    assert_eq!(first.len(), 1);
    let choice = &first[0].choices[0];
    assert_eq!(choice.delta.content, Some("Hi".to_string()));
    assert!(!decoder.done);

    let second = decoder.push_chunk(b"ta: [DONE]\n");
    assert_eq!(second.len(), 0);
    assert!(decoder.done);

    // Once finished, further input is never processed.
    let third = decoder.push_chunk(b"data: {\"choices\":[{\"delta\":{\"content\":\"x\"}}]}\n");
    assert_eq!(third.len(), 0);
}

#[test]
fn stream_decoder_chunking_invariance() {
    let text: &[u8] = b"ignored line\ndata: {\"choices\":[{\"delta\":{\"role\":\"assistant\",\"content\":\"He\"}}]}\ndata: {\"choices\":[{\"index\":1,\"delta\":{\"content\":\"llo\"}}]}\n\ndata: {broken\ndata: {\"choices\":[{\"delta\":{\"content\":\"!\"},\"finish_reason\":\"stop\"}]}\n";
    let whole = decode_all(&[text]);
    assert_eq!(whole.len(), 3);
    assert_eq!(whole[0].choices[0].delta.content, Some("He".to_string()));
    assert_eq!(whole[0].choices[0].delta.role, Some(Role::Assistant));
    assert_eq!(whole[1].choices[0].index, 1);
    assert_eq!(whole[2].choices[0].finish_reason, Some("stop".to_string()));

    // Split at every possible byte offset: the decoded events never change.
    for split in 0..=text.len() {
        let events = decode_all(&[&text[..split], &text[split..]]);
        assert_eq!(events.len(), whole.len());
        for (a, b) in events.iter().zip(whole.iter()) {
            assert!(chunks_equal(a, b));
        }
    }
}

#[test]
fn stream_decoder_sentinel_ends_sequence() {
    // Valid-looking frames after the sentinel, in the same chunk, are
    // never processed.
    let events = decode_all(&[
        b"data: {\"choices\":[{\"delta\":{\"content\":\"a\"}}]}\ndata: [DONE]\ndata: {\"choices\":[{\"delta\":{\"content\":\"b\"}}]}\n",
    ]);
    assert_eq!(events.len(), 1);
    assert_eq!(events[0].choices[0].delta.content, Some("a".to_string()));
}

#[test]
fn stream_decoder_skips_bad_frames() {
    // A frame that fails structural decoding is skipped; later frames in
    // the same and later chunks still decode.
    let events = decode_all(&[
        b"data: {not json}\ndata: {\"nochoices\":1}\n",
        b"data: {\"choices\":[{\"delta\":{\"content\":\"ok\"}}]}\n",
    ]);
    assert_eq!(events.len(), 1);
    assert_eq!(events[0].choices[0].delta.content, Some("ok".to_string()));
}

#[test]
fn stream_decoder_tool_call_fragments() {
    let events = decode_all(&[
        b"data: {\"id\":\"c1\",\"object\":\"chat.completion.chunk\",\"created\":7,\"model\":\"m\",\"choices\":[{\"delta\":{\"tool_calls\":[{\"index\":2,\"id\":\"t1\",\"function\":{\"name\":\"f\",\"arguments\":\"{}\"}}]}}]}\n",
    ]);
    assert_eq!(events.len(), 1);
    assert_eq!(events[0].id, "c1");
    assert_eq!(events[0].created, 7);
    let tcs = events[0].choices[0].delta.tool_calls.as_ref().unwrap();
    assert_eq!(tcs.len(), 1);
    assert_eq!(tcs[0].index, 2);
    assert_eq!(tcs[0].id, Some("t1".to_string()));
    let f = tcs[0].function.as_ref().unwrap();
    assert_eq!(f.name, Some("f".to_string()));
    assert_eq!(f.arguments, Some("{}".to_string()));
}

#[test]
fn retry_policy_delays() {
    let policy = RetryPolicy {
        base_delay_ms: 1000,
        delay_cap_ms: 60_000,
        max_retries: 3,
    };
    assert_eq!(policy.delay_ms(0), 1000);
    assert_eq!(policy.delay_ms(1), 2000);
    assert_eq!(policy.delay_ms(2), 4000);
    assert_eq!(policy.delay_ms(5), 32_000);
    assert_eq!(policy.delay_ms(6), 60_000);
    assert_eq!(policy.delay_ms(100), 60_000);

    // Non-decreasing in the attempt number, bounded by the cap.
    let mut last = 0u64;
    for attempt in 0..80 {
        let d = policy.delay_ms(attempt);
        assert!(d >= last);
        assert!(d <= 60_000);
        last = d;
    }

    let defaults = RetryPolicy::default();
    assert_eq!(defaults.base_delay_ms, 1000);
    assert_eq!(defaults.delay_cap_ms, 60_000);
    assert_eq!(defaults.max_retries, 3);
}

#[test]
fn retry_decision() {
    let policy = RetryPolicy::default();
    let d = policy.decide(0, true);
    assert!(d.should_retry);
    assert_eq!(d.delay_ms, 1000);
    let d = policy.decide(3, true);
    assert!(!d.should_retry);
    let d = policy.decide(0, false);
    assert!(!d.should_retry);
}

#[test]
fn outcome_classification() {
    assert!(is_retryable(&AttemptOutcome::HttpStatus {
        status: 429,
        body: String::new()
    }));
    assert!(is_retryable(&AttemptOutcome::HttpStatus {
        status: 500,
        body: String::new()
    }));
    assert!(is_retryable(&AttemptOutcome::HttpStatus {
        status: 502,
        body: String::new()
    }));
    assert!(is_retryable(&AttemptOutcome::NetworkFailure(
        "timeout".to_string()
    )));
    assert!(!is_retryable(&AttemptOutcome::HttpStatus {
        status: 400,
        body: String::new()
    }));
    assert!(!is_retryable(&AttemptOutcome::HttpStatus {
        status: 404,
        body: String::new()
    }));
    assert!(!is_retryable(&AttemptOutcome::MalformedBody(
        "bad".to_string()
    )));
}

fn canned_response(content: &str) -> ChatResponse {
    ChatResponse {
        id: "resp-1".to_string(),
        model: "grok-4".to_string(),
        usage: Some(Usage {
            prompt_tokens: 5,
            completion_tokens: 3,
            total_tokens: 8,
        }),
        choices: vec![Choice {
            index: 0,
            message: Message::assistant(content),
            finish_reason: Some("stop".to_string()),
        }],
    }
}

#[test]
fn executor_retries_transient_outcomes() {
    let policy = RetryPolicy::default();

    // Transient outcomes are retried up to max_retries times; the last
    // outcome is surfaced verbatim.
    let outcomes = vec![
        AttemptOutcome::HttpStatus {
            status: 429,
            body: "slow down".to_string(),
        },
        AttemptOutcome::HttpStatus {
            status: 500,
            body: "oops".to_string(),
        },
        AttemptOutcome::HttpStatus {
            status: 502,
            body: "bad gateway".to_string(),
        },
        AttemptOutcome::NetworkFailure("timeout".to_string()),
    ];
    let (result, attempts) = run_attempts(&policy, outcomes);
    assert_eq!(attempts, 4);
    match result {
        Err(GrokError::Http(m)) => assert_eq!(m, "timeout"),
        other => panic!("unexpected result: {:?}", other),
    }

    // Terminal statuses are not retried at all.
    for status in [400u16, 404] {
        let outcomes = vec![
            AttemptOutcome::HttpStatus {
                status,
                body: "no".to_string(),
            },
            AttemptOutcome::Completed(canned_response("never")),
            AttemptOutcome::Completed(canned_response("never")),
            AttemptOutcome::Completed(canned_response("never")),
        ];
        let (result, attempts) = run_attempts(&policy, outcomes);
        assert_eq!(attempts, 1);
        match result {
            Err(GrokError::Api { status: s, message }) => {
                assert_eq!(s, status);
                assert_eq!(message, "no");
            }
            other => panic!("unexpected result: {:?}", other),
        }
    }

    // A retryable failure followed by success recovers.
    let outcomes = vec![
        AttemptOutcome::NetworkFailure("flake".to_string()),
        AttemptOutcome::Completed(canned_response("Hello")),
        AttemptOutcome::Completed(canned_response("never")),
        AttemptOutcome::Completed(canned_response("never")),
    ];
    let (result, attempts) = run_attempts(&policy, outcomes);
    assert_eq!(attempts, 2);
    assert_eq!(result.unwrap().message.content, "Hello");
}

#[test]
fn executor_step_actions() {
    let policy = RetryPolicy::default();
    let action = executor_step(
        &policy,
        0,
        AttemptOutcome::HttpStatus {
            status: 500,
            body: String::new(),
        },
    );
    match action {
        StepAction::RetryAfter(d) => assert_eq!(d, 1000),
        other => panic!("unexpected action: {:?}", other),
    }
    let action = executor_step(
        &policy,
        3,
        AttemptOutcome::HttpStatus {
            status: 500,
            body: "last".to_string(),
        },
    );
    assert!(matches!(action, StepAction::Fail(GrokError::Api { .. })));
    let action = executor_step(&policy, 0, AttemptOutcome::Completed(canned_response("hi")));
    match action {
        StepAction::Deliver(c) => assert_eq!(c.message.content, "hi"),
        other => panic!("unexpected action: {:?}", other),
    }
    let action = executor_step(&policy, 0, AttemptOutcome::MalformedBody("junk".to_string()));
    assert!(matches!(action, StepAction::Fail(GrokError::Json(_))));
}

#[test]
fn no_choices_is_terminal() {
    let resp = ChatResponse {
        id: "resp-2".to_string(),
        model: "grok-4".to_string(),
        usage: None,
        choices: vec![],
    };
    match completion_of_response(resp) {
        Err(GrokError::Api { status, message }) => {
            assert_eq!(status, 500);
            assert_eq!(message, "No choices returned");
        }
        other => panic!("unexpected result: {:?}", other),
    }

    let ok = completion_of_response(canned_response("Hello")).unwrap();
    assert_eq!(ok.id, "resp-1");
    assert_eq!(ok.model, "grok-4");
    assert_eq!(ok.message.content, "Hello");
    assert_eq!(ok.finish_reason, Some("stop".to_string()));
    assert_eq!(ok.usage.unwrap().total_tokens, 8);
}

#[test]
fn session_chat_turn_scenario() {
    // Create a session with a model and a title; run one turn against a
    // canned successful exchange.
    let mut session = Session::new(Model::Grok4FastReasoning, Some("T".to_string()));
    assert_eq!(session.id.len(), 36);
    assert_eq!(session.metadata().title, Some("T".to_string()));

    session.begin_turn("Hi");

    let policy = RetryPolicy::default();
    let outcomes = vec![
        AttemptOutcome::Completed(canned_response("Hello")),
        AttemptOutcome::Completed(canned_response("never")),
        AttemptOutcome::Completed(canned_response("never")),
        AttemptOutcome::Completed(canned_response("never")),
    ];
    let (result, _) = run_attempts(&policy, outcomes);
    let completion = result.unwrap();
    session.complete_turn(completion.message, completion.usage);

    let history = session.messages();
    assert_eq!(history.len(), 2);
    assert_eq!(history[0].role, Role::User);
    assert_eq!(history[0].content, "Hi");
    assert_eq!(history[1].role, Role::Assistant);
    assert_eq!(history[1].content, "Hello");
    assert_eq!(session.message_count(), 2);
    assert_eq!(session.metadata().total_tokens, 8);
}

#[test]
fn session_clear_history_keeps_system() {
    let mut session = Session::new(Model::Grok4, None);
    session.append(Message::system("rules"));
    session.begin_turn("hey");
    session.complete_turn(Message::assistant("yo"), None);
    assert_eq!(session.message_count(), 3);

    session.clear_history();
    let history = session.messages();
    assert_eq!(history.len(), 1);
    assert_eq!(history[0].role, Role::System);
    assert_eq!(history[0].content, "rules");
    assert_eq!(session.message_count(), 1);
}

#[test]
fn session_manager_crud() {
    let mut mgr = SessionManager::new();
    let id = mgr.create_session(Model::Grok4, Some("one".to_string()));
    assert_eq!(id.len(), 36);
    assert!(mgr.get_session(&id).is_some());
    assert!(mgr.get_session("missing").is_none());
    assert_eq!(mgr.list_sessions().len(), 1);

    // Deleting an unknown session is a reported error.
    match mgr.delete_session("nope") {
        Err(GrokError::Session(m)) => assert_eq!(m, "Session 'nope' not found"),
        other => panic!("unexpected result: {:?}", other),
    }
    assert!(mgr.delete_session(&id).is_ok());
    assert_eq!(mgr.list_sessions().len(), 0);
}

#[test]
fn session_manager_stats() {
    let mut mgr = SessionManager::new();
    let a = mgr.create_session(Model::Grok4, None);
    let b = mgr.create_session(Model::Grok3, None);

    let mut sa = mgr.take_session(&a).unwrap();
    sa.begin_turn("hi");
    sa.complete_turn(Message::assistant("yo"), Some(make_usage(8)));
    mgr.insert_session(sa);

    let mut sb = mgr.take_session(&b).unwrap();
    sb.begin_turn("ho");
    sb.complete_turn(Message::assistant("hey"), Some(make_usage(5)));
    sb.begin_turn("more");
    sb.complete_turn(Message::assistant("sure"), Some(make_usage(2)));
    mgr.insert_session(sb);

    let stats = mgr.stats();
    assert_eq!(stats.total_sessions, 2);
    assert_eq!(stats.total_messages, 6);
    assert_eq!(stats.total_tokens, 15);
}

fn make_usage(total: u32) -> Usage {
    Usage {
        prompt_tokens: 0,
        completion_tokens: 0,
        total_tokens: total,
    }
}

#[test]
fn collection_counters_recompute_not_drift() {
    let mut mgr = SessionManager::new();
    let a = mgr.create_session(Model::Grok4, Some("alpha".to_string()));
    let b = mgr.create_session(Model::Grok4, Some("beta".to_string()));

    let mut sa = mgr.take_session(&a).unwrap();
    sa.begin_turn("one");
    sa.complete_turn(Message::assistant("1"), Some(make_usage(10)));
    mgr.insert_session(sa);

    let mut sb = mgr.take_session(&b).unwrap();
    sb.begin_turn("two");
    sb.complete_turn(Message::assistant("2"), Some(make_usage(7)));
    sb.begin_turn("three");
    sb.complete_turn(Message::assistant("3"), Some(make_usage(4)));
    mgr.insert_session(sb);

    let mut coll = Collection::new("work", None, vec![]);

    // add A, add B, remove A: counters equal exactly B's own counters.
    coll.add_session(mgr.get_session(&a).unwrap(), &mgr).unwrap();
    coll.add_session(mgr.get_session(&b).unwrap(), &mgr).unwrap();
    assert_eq!(coll.metadata.session_count, 2);
    assert_eq!(coll.metadata.total_messages, 6);
    assert_eq!(coll.metadata.total_tokens, 21);

    let sa_id = a.clone();
    coll.remove_session(&sa_id, &mgr).unwrap();
    assert_eq!(coll.metadata.session_count, 1);
    assert_eq!(coll.metadata.total_messages, 4);
    assert_eq!(coll.metadata.total_tokens, 11);

    // Removing a non-member is a reported error.
    match coll.remove_session(&sa_id, &mgr) {
        Err(GrokError::Collection(m)) => {
            assert_eq!(m, format!("Session '{}' not in collection", sa_id))
        }
        other => panic!("unexpected result: {:?}", other),
    }
}

#[test]
fn collection_search_and_tags() {
    let mut sessions = SessionManager::new();
    let sid = sessions.create_session(Model::Grok4, Some("Weekly Report".to_string()));

    let mut coll = Collection::new(
        "Projects",
        Some("Everything WORK related".to_string()),
        vec!["work".to_string(), "Active".to_string()],
    );
    coll.add_session(sessions.get_session(&sid).unwrap(), &sessions)
        .unwrap();

    // Case-insensitive title search over member sessions.
    let hits = coll.search_sessions(&sessions, "report");
    assert_eq!(hits, vec![sid.clone()]);
    assert!(coll.search_sessions(&sessions, "nothing").is_empty());

    let mut mgr = CollectionManager::new();
    let cid = mgr.create_collection(
        "Projects",
        Some("Everything WORK related".to_string()),
        vec!["work".to_string(), "Active".to_string()],
    );
    assert!(mgr.get_collection(&cid).is_some());

    // Search covers name, description and tags, ignoring letter case.
    assert_eq!(mgr.search_collections("proj"), vec![cid.clone()]);
    assert_eq!(mgr.search_collections("work"), vec![cid.clone()]);
    assert_eq!(mgr.search_collections("active"), vec![cid.clone()]);
    assert!(mgr.search_collections("absent").is_empty());

    // Tag lookup is exact.
    assert_eq!(mgr.collections_by_tag("work"), vec![cid.clone()]);
    assert!(mgr.collections_by_tag("Work").is_empty());

    match mgr.delete_collection("nope") {
        Err(GrokError::Collection(m)) => assert_eq!(m, "Collection 'nope' not found"),
        other => panic!("unexpected result: {:?}", other),
    }
    assert!(mgr.delete_collection(&cid).is_ok());
    assert!(mgr.list_collections().is_empty());
}

#[test]
fn collection_manager_stats() {
    let sessions = SessionManager::new();
    let mut mgr = CollectionManager::new();
    let c1 = mgr.create_collection("one", None, vec![]);
    let _c2 = mgr.create_collection("two", None, vec![]);

    let mut coll = mgr.take_collection(&c1).unwrap();
    let mut smgr = sessions;
    let sid = smgr.create_session(Model::Grok4, None);
    let mut s = smgr.take_session(&sid).unwrap();
    s.begin_turn("hello");
    s.complete_turn(Message::assistant("hi"), Some(make_usage(3)));
    smgr.insert_session(s);
    coll.add_session(smgr.get_session(&sid).unwrap(), &smgr).unwrap();
    mgr.put_collection(coll);

    let stats = mgr.stats();
    assert_eq!(stats.total_collections, 2);
    assert_eq!(stats.total_sessions, 1);
    assert_eq!(stats.total_messages, 2);
    assert_eq!(stats.total_tokens, 3);
}
