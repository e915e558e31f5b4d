use rtm_signature::members::sort_members;
use rtm_signature::message::gen_signature_message;

#[test]
fn build_open_has_empty_member_segment_and_no_conv_id() {
    let m = gen_signature_message(
        "open".to_string(),
        "A1".to_string(),
        "C1".to_string(),
        "".to_string(),
        "m1:m2".to_string(),
        1000,
        "nnnnnnn".to_string(),
    );
    assert_eq!(m, "A1:C1::1000:nnnnnnn");
}

#[test]
fn build_add_sorts_members_and_appends_invite() {
    let m = gen_signature_message(
        "add".to_string(),
        "A1".to_string(),
        "C1".to_string(),
        "CV1".to_string(),
        "b:a".to_string(),
        1000,
        "xxxxxxx".to_string(),
    );
    assert_eq!(m, "A1:C1:CV1:a:b:1000:xxxxxxx:invite");
}

#[test]
fn build_remove_sorts_members_and_appends_kick() {
    let m = gen_signature_message(
        "remove".to_string(),
        "A1".to_string(),
        "C1".to_string(),
        "CV1".to_string(),
        "b:a".to_string(),
        1000,
        "xxxxxxx".to_string(),
    );
    assert_eq!(m, "A1:C1:CV1:a:b:1000:xxxxxxx:kick");
}

#[test]
fn build_start_sorts_members_without_conv_id_or_token() {
    let m = gen_signature_message(
        "start".to_string(),
        "A1".to_string(),
        "C1".to_string(),
        "".to_string(),
        "b:a".to_string(),
        1000,
        "xxxxxxx".to_string(),
    );
    assert_eq!(m, "A1:C1:a:b:1000:xxxxxxx");
}

#[test]
fn build_action_is_case_insensitive() {
    let lower = gen_signature_message(
        "add".to_string(),
        "A1".to_string(),
        "C1".to_string(),
        "CV1".to_string(),
        "b:a".to_string(),
        1000,
        "xxxxxxx".to_string(),
    );
    let upper = gen_signature_message(
        "ADD".to_string(),
        "A1".to_string(),
        "C1".to_string(),
        "CV1".to_string(),
        "b:a".to_string(),
        1000,
        "xxxxxxx".to_string(),
    );
    assert_eq!(lower, upper);
}

#[test]
fn build_unknown_action_keeps_sorted_members_without_extras() {
    let m = gen_signature_message(
        "poke".to_string(),
        "A1".to_string(),
        "C1".to_string(),
        "CV1".to_string(),
        "b:a".to_string(),
        1000,
        "xxxxxxx".to_string(),
    );
    assert_eq!(m, "A1:C1:a:b:1000:xxxxxxx");
}

#[test]
fn build_negative_timestamp_renders_with_minus_sign() {
    let m = gen_signature_message(
        "open".to_string(),
        "A1".to_string(),
        "C1".to_string(),
        "".to_string(),
        "".to_string(),
        -5,
        "nnnnnnn".to_string(),
    );
    assert_eq!(m, "A1:C1::-5:nnnnnnn");
}

#[test]
fn build_smallest_timestamp_renders_exactly() {
    let m = gen_signature_message(
        "open".to_string(),
        "A1".to_string(),
        "C1".to_string(),
        "".to_string(),
        "".to_string(),
        i64::MIN,
        "nnnnnnn".to_string(),
    );
    assert_eq!(m, "A1:C1::-9223372036854775808:nnnnnnn");
}

#[test]
fn sort_members_orders_lexicographically() {
    assert_eq!(sort_members("b:a".to_string()), "a:b");
}

#[test]
fn sort_members_of_empty_is_empty() {
    assert_eq!(sort_members("".to_string()), "");
}

#[test]
fn sort_members_keeps_empty_segments() {
    assert_eq!(sort_members("b::a".to_string()), ":a:b");
}

#[test]
fn sort_members_is_idempotent() {
    let once = sort_members("delta:alpha:charlie:bravo".to_string());
    let twice = sort_members(once.clone());
    assert_eq!(once, twice);
    assert_eq!(once, "alpha:bravo:charlie:delta");
}
