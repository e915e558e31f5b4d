use rtm_signature::record::{RenderError, Signature};

fn record(members: &str) -> Signature {
    Signature::assemble(
        "A1".to_string(),
        "C1".to_string(),
        "CV1".to_string(),
        members.to_string(),
        1000,
        "nnnnnnn".to_string(),
        "sig".to_string(),
    )
}

#[test]
fn assemble_stores_every_field_unchanged() {
    let r = record("b:a");
    assert_eq!(r.appid, "A1");
    assert_eq!(r.clientid, "C1");
    assert_eq!(r.convid, "CV1");
    assert_eq!(r.members, "b:a");
    assert_eq!(r.timestamp, 1000);
    assert_eq!(r.nonce, "nnnnnnn");
    assert_eq!(r.signature, "sig");
}

#[test]
fn json_cmd_open_is_a_session_command() {
    let out = record("b:a").to_json_cmd("open".to_string()).unwrap();
    assert_eq!(
        out,
        "{\"cmd\": \"session\", \"op\":\"open\", \"appId\": \"A1\", \"peerId\": \"C1\", \
         \"t\": 1000, \"n\": \"nnnnnnn\", \"s\": \"sig\"}"
    );
}

#[test]
fn json_cmd_start_keeps_the_callers_member_order() {
    let out = record("b:a").to_json_cmd("start".to_string()).unwrap();
    assert_eq!(
        out,
        "{\"cmd\": \"conv\", \"op\":\"start\", \"appId\": \"A1\", \"peerId\": \"C1\", \
         \"t\": 1000, \"n\": \"nnnnnnn\", \"s\": \"sig\", \"m\": [\"b\",\"a\"]}"
    );
}

#[test]
fn json_cmd_add_carries_conversation_id() {
    let out = record("b:a").to_json_cmd("add".to_string()).unwrap();
    assert_eq!(
        out,
        "{\"cmd\": \"conv\", \"op\":\"add\", \"appId\": \"A1\", \"peerId\": \"C1\", \
         \"t\": 1000, \"n\": \"nnnnnnn\", \"s\": \"sig\", \"m\": [\"b\",\"a\"], \"cid\": \"CV1\"}"
    );
}

#[test]
fn json_cmd_remove_carries_conversation_id() {
    let out = record("b:a").to_json_cmd("remove".to_string()).unwrap();
    assert_eq!(
        out,
        "{\"cmd\": \"conv\", \"op\":\"remove\", \"appId\": \"A1\", \"peerId\": \"C1\", \
         \"t\": 1000, \"n\": \"nnnnnnn\", \"s\": \"sig\", \"m\": [\"b\",\"a\"], \"cid\": \"CV1\"}"
    );
}

#[test]
fn json_cmd_action_is_case_insensitive() {
    let lower = record("b:a").to_json_cmd("open".to_string()).unwrap();
    let upper = record("b:a").to_json_cmd("OPEN".to_string()).unwrap();
    assert_eq!(lower, upper);
}

#[test]
fn json_cmd_unknown_action_is_reported() {
    let out = record("b:a").to_json_cmd("poke".to_string());
    assert_eq!(out, Err(RenderError::UnsupportedAction));
}

#[test]
fn json_cmd_empty_members_render_as_one_empty_string() {
    let out = record("").to_json_cmd("start".to_string()).unwrap();
    assert_eq!(
        out,
        "{\"cmd\": \"conv\", \"op\":\"start\", \"appId\": \"A1\", \"peerId\": \"C1\", \
         \"t\": 1000, \"n\": \"nnnnnnn\", \"s\": \"sig\", \"m\": [\"\"]}"
    );
}

#[test]
fn json_cmd_escapes_quotes_and_control_characters_in_members() {
    let out = record("a\"b:c\nd").to_json_cmd("start".to_string()).unwrap();
    assert_eq!(
        out,
        "{\"cmd\": \"conv\", \"op\":\"start\", \"appId\": \"A1\", \"peerId\": \"C1\", \
         \"t\": 1000, \"n\": \"nnnnnnn\", \"s\": \"sig\", \"m\": [\"a\\\"b\",\"c\\nd\"]}"
    );
}

#[test]
fn record_string_lists_every_field() {
    let out = record("b:a").to_record_string();
    assert_eq!(
        out,
        "appid=A1, clientid=C1, convid=CV1, members=b:a, timestamp=1000, \
         nonce=nnnnnnn, signature=sig"
    );
}
