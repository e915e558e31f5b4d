//! The canonical message builder: the exact colon-joined string that is
//! signed, with action-dependent field inclusion.

use vstd::prelude::*;
use crate::views_of;
use crate::action::{Action, spec_action_of, parse_action};
use crate::decimal::{spec_dec_i64, dec_string_i64};
use crate::members::{spec_sorted_members, sort_members};
use crate::segments::{spec_join_colon, join_colon};
use crate::signer::spec_sign;

verus! {

/// The fields of the canonical message, in order: app id; client id; the
/// conversation id (only for `add` and `remove`); an empty segment for
/// `open`, otherwise the sorted member list; the decimal timestamp; the
/// nonce; and a trailing token, `invite` for `add` or `kick` for `remove`.
pub open spec fn spec_message_fields(
    action: Seq<char>,
    appid: Seq<char>,
    clientid: Seq<char>,
    convid: Seq<char>,
    members: Seq<char>,
    t: int,
    n: Seq<char>,
) -> Seq<Seq<char>> {
    let a = spec_action_of(action);
    seq![appid, clientid] + (if a is Add || a is Remove {
        seq![convid]
    } else {
        Seq::<Seq<char>>::empty()
    }) + seq![
        if a is Open {
            Seq::<char>::empty()
        } else {
            spec_sorted_members(members)
        },
    ] + seq![spec_dec_i64(t), n] + (if a is Add {
        seq!["invite"@]
    } else if a is Remove {
        seq!["kick"@]
    } else {
        Seq::<Seq<char>>::empty()
    })
}

/// The canonical message: the fields joined with `:`.
pub open spec fn spec_message(
    action: Seq<char>,
    appid: Seq<char>,
    clientid: Seq<char>,
    convid: Seq<char>,
    members: Seq<char>,
    t: int,
    n: Seq<char>,
) -> Seq<char> {
    spec_join_colon(spec_message_fields(action, appid, clientid, convid, members, t, n))
}

/// Builds the canonical message to be signed: a pure function of its inputs,
/// producing a string even for empty fields (empty fields become empty
/// segments, so the positional structure is preserved).
pub fn gen_signature_message(
    action: String,
    appid: String,
    clientid: String,
    convid: String,
    members: String,
    t: i64,
    n: String,
) -> (r: String)
    ensures
        r@ == spec_message(action@, appid@, clientid@, convid@, members@, t as int, n@),
{
    let a = parse_action(action.as_str());
    let mut buf: Vec<String> = Vec::new();
    buf.push(appid);
    buf.push(clientid);
    match a {
        Action::Add | Action::Remove => buf.push(convid),
        _ => {},
    }
    match a {
        Action::Open => buf.push(String::new()),
        _ => buf.push(sort_members(members)),
    }
    buf.push(dec_string_i64(t));
    buf.push(n);
    match a {
        Action::Add => buf.push(String::from_str("invite")),
        Action::Remove => buf.push(String::from_str("kick")),
        _ => {},
    }
    let r = join_colon(&buf);
    proof {
        assert(views_of(buf@) =~= spec_message_fields(
            action@,
            appid@,
            clientid@,
            convid@,
            members@,
            t as int,
            n@,
        ));
    }
    r
}

/// Law: the pipeline is deterministic — for a fixed action, ids, member
/// list, timestamp, nonce and key, any two results that meet the contracts
/// of `gen_signature_message` and `sign` are the same signature, across
/// repeated calls and across independent re-signers.
pub proof fn lemma_signature_deterministic(
    action: Seq<char>,
    appid: Seq<char>,
    clientid: Seq<char>,
    convid: Seq<char>,
    members: Seq<char>,
    t: int,
    n: Seq<char>,
    key: Seq<char>,
    r1: Seq<char>,
    r2: Seq<char>,
)
    requires
        r1 == spec_sign(spec_message(action, appid, clientid, convid, members, t, n), key),
        r2 == spec_sign(spec_message(action, appid, clientid, convid, members, t, n), key),
    ensures
        r1 == r2,
{
}

} // verus!
