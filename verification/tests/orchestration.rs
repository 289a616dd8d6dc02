use chat_narrator::dispatch::{complete_submission, prepare_submission};
use chat_narrator::norm::{classify_operator_line, normalize_submission, OriginTag};
use chat_narrator::store::ConversationStore;
use chat_narrator::turn::Role;

#[test]
fn store_starts_with_system_turn() {
    let store = ConversationStore::new("너는 바둑 방송의 해설자다");
    assert_eq!(store.len(), 1);
    let snap = store.snapshot();
    assert_eq!(snap[0].role, Role::System);
    assert_eq!(snap[0].text, "너는 바둑 방송의 해설자다");
}

#[test]
fn system_turn_is_first_and_never_duplicated() {
    let mut store = ConversationStore::new("prompt");
    prepare_submission(&mut store, "hello", None);
    prepare_submission(&mut store, "나:둔다", Some(OriginTag::SelfMove));
    let _ = complete_submission(&mut store, Ok("좋은 수".to_string()));
    let snap = store.snapshot();
    assert_eq!(snap[0].role, Role::System);
    let system_count = snap.iter().filter(|t| t.role == Role::System).count();
    assert_eq!(system_count, 1);
}

#[test]
fn chat_submission_is_quote_wrapped_and_appends_one_user_turn() {
    let mut store = ConversationStore::new("prompt");
    let before = store.len();
    let snap = prepare_submission(&mut store, "hello", None);
    assert_eq!(store.len(), before + 1);
    assert_eq!(snap.len(), before + 1);
    let last = &snap[snap.len() - 1];
    assert_eq!(last.role, Role::User);
    assert_eq!(last.text, "채팅: \"hello\"");
}

#[test]
fn operator_self_move_line_is_classified_and_marked() {
    let line = "나:돌을 놓았다";
    assert_eq!(classify_operator_line(line), OriginTag::SelfMove);
    let normalized = normalize_submission(line, OriginTag::SelfMove);
    assert_eq!(normalized, "(나의 수) 나:돌을 놓았다");
}

#[test]
fn operator_opponent_move_line_is_classified_and_marked() {
    let line = "상대:축을 몰았다";
    assert_eq!(classify_operator_line(line), OriginTag::OpponentMove);
    let normalized = normalize_submission(line, OriginTag::OpponentMove);
    assert_eq!(normalized, "(상대의 수) 상대:축을 몰았다");
}

#[test]
fn untagged_operator_line_is_left_unchanged() {
    assert_eq!(classify_operator_line("그냥 한마디"), OriginTag::Untagged);
    assert_eq!(normalize_submission("그냥 한마디", OriginTag::Untagged), "그냥 한마디");
}

#[test]
fn failed_completion_keeps_user_turn_and_yields_no_fragments() {
    let mut store = ConversationStore::new("prompt");
    let snap = prepare_submission(&mut store, "hello", None);
    assert_eq!(snap.len(), 2);
    let outcome = complete_submission(&mut store, Err("api unreachable".to_string()));
    assert_eq!(outcome, Err("api unreachable".to_string()));
    assert_eq!(store.len(), 2);
    let after = store.snapshot();
    assert!(after.iter().all(|t| t.role != Role::Assistant));
    assert_eq!(after[1].role, Role::User);
    assert_eq!(after[1].text, "채팅: \"hello\"");
}

#[test]
fn successful_completion_appends_assistant_turn_and_segments_reply() {
    let mut store = ConversationStore::new("prompt");
    prepare_submission(&mut store, "hello", None);
    let outcome = complete_submission(&mut store, Ok("안녕! 반가워요.".to_string()));
    assert_eq!(outcome, Ok(vec!["안녕".to_string(), " 반가워요".to_string()]));
    assert_eq!(store.len(), 3);
    let snap = store.snapshot();
    assert_eq!(snap[2].role, Role::Assistant);
    assert_eq!(snap[2].text, "안녕! 반가워요.");
}

#[test]
fn snapshot_is_a_point_in_time_copy() {
    let mut store = ConversationStore::new("prompt");
    let snap = prepare_submission(&mut store, "first", None);
    assert_eq!(snap.len(), 2);
    prepare_submission(&mut store, "second", None);
    assert_eq!(snap.len(), 2);
    assert_eq!(store.len(), 3);
}

#[test]
fn interleaved_submissions_keep_each_user_turn_before_its_reply() {
    let mut store = ConversationStore::new("prompt");
    prepare_submission(&mut store, "first", None);
    prepare_submission(&mut store, "second", None);
    let _ = complete_submission(&mut store, Ok("reply one".to_string()));
    let _ = complete_submission(&mut store, Ok("reply two".to_string()));
    let snap = store.snapshot();
    assert_eq!(snap.len(), 5);
    assert_eq!(snap[0].role, Role::System);
    assert_eq!(snap[1].text, "채팅: \"first\"");
    assert_eq!(snap[2].text, "채팅: \"second\"");
    assert_eq!(snap[3].text, "reply one");
    assert_eq!(snap[4].text, "reply two");
    assert_eq!(snap[1].role, Role::User);
    assert_eq!(snap[3].role, Role::Assistant);
}
