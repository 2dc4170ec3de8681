use artificial_app::client::UpstreamError;
use artificial_app::handlers::{complete_exchange, interaction_request, session_start_request};
use artificial_app::transcript::{Role, TranscriptStore, Turn};

const START_TEXT: &str = "Start by responding with a random webpage of your choice. Ensure the styling is a nice, dark theme.";

#[test]
fn session_start_with_stubbed_reply() {
    let mut store = TranscriptStore::new();
    let req = session_start_request(&mut store, "sys");
    assert_eq!(req.history.len(), 1);
    assert_eq!(req.history[0].text, START_TEXT);
    let stub = Ok(vec!["```\n<html>A</html>\n```".to_string()]);
    let result = complete_exchange(&mut store, stub);
    assert_eq!(result.unwrap(), "<html>A</html>");
    let snap = store.snapshot();
    assert_eq!(snap.len(), 2);
    assert!(snap[0].role == Role::User);
    assert_eq!(snap[0].text, START_TEXT);
    assert!(snap[1].role == Role::Model);
    assert_eq!(snap[1].text, "<html>A</html>");
}

#[test]
fn session_start_clears_prior_history() {
    let mut store = TranscriptStore::new();
    store.append(Turn { role: Role::User, text: "stale".to_string() });
    store.append(Turn { role: Role::Model, text: "old page".to_string() });
    let req = session_start_request(&mut store, "sys");
    assert_eq!(req.history.len(), 1);
    assert_eq!(store.len(), 1);
}

#[test]
fn interaction_with_protocol_error_keeps_the_user_turn_only() {
    let mut store = TranscriptStore::new();
    store.append(Turn { role: Role::User, text: START_TEXT.to_string() });
    store.append(Turn { role: Role::Model, text: "<html>A</html>".to_string() });
    let req = interaction_request(&mut store, "sys", "button1");
    assert_eq!(req.history.len(), 3);
    let stub: Result<Vec<String>, UpstreamError> = Err(UpstreamError::Protocol(503));
    let result = complete_exchange(&mut store, stub);
    match result {
        Err(e) => assert_eq!(e.message(), "Gemini API returned error: 503"),
        Ok(_) => panic!("a failing call must surface an error"),
    }
    let snap = store.snapshot();
    assert_eq!(snap.len(), 3);
    assert!(snap[2].role == Role::User);
    assert_eq!(snap[2].text, "button1");
}

#[test]
fn interaction_success_appends_user_then_model() {
    let mut store = TranscriptStore::new();
    let _ = interaction_request(&mut store, "sys", "link7");
    let stub = Ok(vec!["```\n<p>next</p>\n```".to_string()]);
    let fragment = complete_exchange(&mut store, stub).unwrap();
    assert_eq!(fragment, "<p>next</p>");
    let snap = store.snapshot();
    assert_eq!(snap.len(), 2);
    assert_eq!(snap[0].text, "link7");
    assert_eq!(snap[1].text, "<p>next</p>");
}

#[test]
fn empty_candidate_reply_leaves_transcript_unchanged() {
    let mut store = TranscriptStore::new();
    let _ = interaction_request(&mut store, "sys", "button2");
    let before = store.len();
    let stub: Result<Vec<String>, UpstreamError> = Ok(vec![]);
    assert!(complete_exchange(&mut store, stub).is_err());
    assert_eq!(store.len(), before);
}

#[test]
fn interleaved_exchanges_lose_no_turns() {
    // N request handlers race on one store; the store serializes each
    // append, so however the begin and complete halves interleave, every
    // exchange contributes its user and its model turn: 2N in all.
    let n: usize = 5;
    let mut store = TranscriptStore::new();
    let mut pending = Vec::new();
    for k in 0..n {
        let id = format!("element{}", k);
        let _ = interaction_request(&mut store, "sys", &id);
        pending.push((k, format!("```\n<p>page{}</p>\n```", k)));
    }
    for (k, raw) in pending {
        let fragment = complete_exchange(&mut store, Ok(vec![raw])).unwrap();
        assert_eq!(fragment, format!("<p>page{}</p>", k));
    }
    let snap = store.snapshot();
    assert_eq!(snap.len(), 2 * n);
    for k in 0..n {
        let user = format!("element{}", k);
        let model = format!("<p>page{}</p>", k);
        assert_eq!(snap.iter().filter(|t| t.text == user).count(), 1);
        assert_eq!(snap.iter().filter(|t| t.text == model).count(), 1);
    }
}
