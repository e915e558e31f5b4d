//! The result record and its two renderings: a readable key=value line, and
//! the action-specific JSON command object.

use vstd::prelude::*;
use crate::views_of;
use crate::action::{Action, spec_action_of, parse_action};
use crate::decimal::{spec_dec_i64, dec_string_i64};
use crate::segments::{spec_split_colon, split_colon};
use crate::signer::spec_hex_digit;

verus! {

/// Why a command rendering was refused.
#[derive(Clone, Copy, PartialEq, Eq, Structural, Debug)]
pub enum RenderError {
    /// The action names no operation of the closed set, so no command shape
    /// exists for it.
    UnsupportedAction,
}

/// The JSON escape of one character, as the command encoder writes it:
/// `"` and `\` get a backslash; backspace, tab, newline, form feed and
/// carriage return get their short forms; the other control characters and
/// delete are written as a lowercase `\u00..` escape.
pub open spec fn spec_json_escape_char(c: char) -> Seq<char> {
    if c == '"' {
        seq!['\\', '"']
    } else if c == '\\' {
        seq!['\\', '\\']
    } else if c == '\u{8}' {
        seq!['\\', 'b']
    } else if c == '\t' {
        seq!['\\', 't']
    } else if c == '\n' {
        seq!['\\', 'n']
    } else if c == '\u{c}' {
        seq!['\\', 'f']
    } else if c == '\r' {
        seq!['\\', 'r']
    } else if (c as int) < 32 || c as int == 127 {
        seq!['\\', 'u', '0', '0', spec_hex_digit(c as int / 16), spec_hex_digit(c as int % 16)]
    } else {
        seq![c]
    }
}

/// A string escaped character by character.
pub open spec fn spec_json_escape(s: Seq<char>) -> Seq<char>
    decreases s.len(),
{
    if s.len() == 0 {
        Seq::empty()
    } else {
        spec_json_escape_char(s[0]) + spec_json_escape(s.drop_first())
    }
}

/// A JSON string: the escaped characters between double quotes.
pub open spec fn spec_json_string(s: Seq<char>) -> Seq<char> {
    seq!['"'] + spec_json_escape(s) + seq!['"']
}

pub open spec fn spec_json_items(elems: Seq<Seq<char>>) -> Seq<char>
    decreases elems.len(),
{
    if elems.len() == 0 {
        Seq::empty()
    } else if elems.len() == 1 {
        spec_json_string(elems[0])
    } else {
        spec_json_string(elems[0]) + seq![','] + spec_json_items(elems.drop_first())
    }
}

/// A compact JSON array of strings: elements in order, separated by `,`.
pub open spec fn spec_json_string_array(elems: Seq<Seq<char>>) -> Seq<char> {
    seq!['['] + spec_json_items(elems) + seq![']']
}

/// Relies on rustc_serialize::json::encode for Vec<String>: a compact JSON
/// array of strings — the elements in order, each between double quotes with
/// `"`, `\` and control characters escaped, separated by `,`. Encoding a
/// vector of strings into a String buffer cannot fail.
#[verifier::external_body]
fn json_encode_members(v: &Vec<String>) -> (r: String)
    ensures
        r@ == spec_json_string_array(views_of(v@)),
{
    rustc_serialize::json::encode(v).unwrap()
}

/// The result record: an immutable aggregate of every field the formatter
/// renders. The signature is only valid for the exact canonical message
/// built from these same values, so no field is mutated after signing.
pub struct Signature {
    pub appid: String,
    pub clientid: String,
    pub convid: String,
    pub members: String,
    pub timestamp: i64,
    pub nonce: String,
    pub signature: String,
}

/// The JSON command object for an operation of the closed set: `open` is a
/// session command; `start`, `add` and `remove` are conversation commands
/// carrying the member array, and `add`/`remove` also the conversation id.
pub open spec fn spec_json_cmd(
    a: Action,
    appid: Seq<char>,
    clientid: Seq<char>,
    convid: Seq<char>,
    members: Seq<char>,
    t: int,
    n: Seq<char>,
    s: Seq<char>,
) -> Seq<char>
    recommends
        !(a is Other),
{
    if a is Open {
        "{\"cmd\": \"session\", \"op\":\"open\", \"appId\": \""@ + appid + "\", \"peerId\": \""@
            + clientid + "\", \"t\": "@ + spec_dec_i64(t) + ", \"n\": \""@ + n + "\", \"s\": \""@
            + s + "\"}"@
    } else {
        let head = if a is Start {
            "{\"cmd\": \"conv\", \"op\":\"start\", \"appId\": \""@
        } else if a is Add {
            "{\"cmd\": \"conv\", \"op\":\"add\", \"appId\": \""@
        } else {
            "{\"cmd\": \"conv\", \"op\":\"remove\", \"appId\": \""@
        };
        let tail = if a is Start {
            "}"@
        } else {
            ", \"cid\": \""@ + convid + "\"}"@
        };
        head + appid + "\", \"peerId\": \""@ + clientid + "\", \"t\": "@ + spec_dec_i64(t)
            + ", \"n\": \""@ + n + "\", \"s\": \""@ + s + "\", \"m\": "@
            + spec_json_string_array(spec_split_colon(members)) + tail
    }
}

/// Every field of the record in a fixed, readable key=value line.
pub open spec fn spec_record_line(
    appid: Seq<char>,
    clientid: Seq<char>,
    convid: Seq<char>,
    members: Seq<char>,
    t: int,
    n: Seq<char>,
    s: Seq<char>,
) -> Seq<char> {
    "appid="@ + appid + ", clientid="@ + clientid + ", convid="@ + convid + ", members="@
        + members + ", timestamp="@ + spec_dec_i64(t) + ", nonce="@ + n + ", signature="@ + s
}

impl Signature {
    /// Bundles the inputs, timestamp, nonce and signature into the result
    /// record: pure aggregation, no transformation.
    pub fn assemble(
        appid: String,
        clientid: String,
        convid: String,
        members: String,
        timestamp: i64,
        nonce: String,
        signature: String,
    ) -> (r: Signature)
        ensures
            r.appid@ == appid@,
            r.clientid@ == clientid@,
            r.convid@ == convid@,
            r.members@ == members@,
            r.timestamp == timestamp,
            r.nonce@ == nonce@,
            r.signature@ == signature@,
    {
        Signature { appid, clientid, convid, members, timestamp, nonce, signature }
    }

    /// Renders the action-specific JSON command object. The member array is
    /// the raw split of the caller's member list, not the sorted form that
    /// was signed: the signature binds the sorted order, while the command
    /// keeps the caller's order. An action outside the closed set is
    /// reported as unsupported, never rendered.
    pub fn to_json_cmd(&self, action: String) -> (r: Result<String, RenderError>)
        ensures
            match r {
                Ok(out) => !(spec_action_of(action@) is Other) && out@ == spec_json_cmd(
                    spec_action_of(action@),
                    self.appid@,
                    self.clientid@,
                    self.convid@,
                    self.members@,
                    self.timestamp as int,
                    self.nonce@,
                    self.signature@,
                ),
                Err(e) => spec_action_of(action@) is Other && e
                    == RenderError::UnsupportedAction,
            },
    {
        let a = parse_action(action.as_str());
        match a {
            Action::Other => Err(RenderError::UnsupportedAction),
            Action::Open => {
                let mut out = String::from_str(
                    "{\"cmd\": \"session\", \"op\":\"open\", \"appId\": \"",
                );
                out.append(self.appid.as_str());
                out.append("\", \"peerId\": \"");
                out.append(self.clientid.as_str());
                out.append("\", \"t\": ");
                let ts = dec_string_i64(self.timestamp);
                out.append(ts.as_str());
                out.append(", \"n\": \"");
                out.append(self.nonce.as_str());
                out.append("\", \"s\": \"");
                out.append(self.signature.as_str());
                out.append("\"}");
                proof {
                    assert(out@ =~= spec_json_cmd(
                        spec_action_of(action@),
                        self.appid@,
                        self.clientid@,
                        self.convid@,
                        self.members@,
                        self.timestamp as int,
                        self.nonce@,
                        self.signature@,
                    ));
                }
                Ok(out)
            },
            _ => {
                let mut out = match a {
                    Action::Start => String::from_str(
                        "{\"cmd\": \"conv\", \"op\":\"start\", \"appId\": \"",
                    ),
                    Action::Add => String::from_str(
                        "{\"cmd\": \"conv\", \"op\":\"add\", \"appId\": \"",
                    ),
                    _ => String::from_str(
                        "{\"cmd\": \"conv\", \"op\":\"remove\", \"appId\": \"",
                    ),
                };
                out.append(self.appid.as_str());
                out.append("\", \"peerId\": \"");
                out.append(self.clientid.as_str());
                out.append("\", \"t\": ");
                let ts = dec_string_i64(self.timestamp);
                out.append(ts.as_str());
                out.append(", \"n\": \"");
                out.append(self.nonce.as_str());
                out.append("\", \"s\": \"");
                out.append(self.signature.as_str());
                out.append("\", \"m\": ");
                let pieces = split_colon(self.members.as_str());
                let arr = json_encode_members(&pieces);
                out.append(arr.as_str());
                match a {
                    Action::Start => out.append("}"),
                    _ => {
                        out.append(", \"cid\": \"");
                        out.append(self.convid.as_str());
                        out.append("\"}");
                    },
                }
                proof {
                    assert(out@ =~= spec_json_cmd(
                        spec_action_of(action@),
                        self.appid@,
                        self.clientid@,
                        self.convid@,
                        self.members@,
                        self.timestamp as int,
                        self.nonce@,
                        self.signature@,
                    ));
                }
                Ok(out)
            },
        }
    }

    /// Renders every field of the record in a fixed, readable key=value
    /// line: the debug-record output mode.
    pub fn to_record_string(&self) -> (r: String)
        ensures
            r@ == spec_record_line(
                self.appid@,
                self.clientid@,
                self.convid@,
                self.members@,
                self.timestamp as int,
                self.nonce@,
                self.signature@,
            ),
    {
        let mut out = String::from_str("appid=");
        out.append(self.appid.as_str());
        out.append(", clientid=");
        out.append(self.clientid.as_str());
        out.append(", convid=");
        out.append(self.convid.as_str());
        out.append(", members=");
        out.append(self.members.as_str());
        out.append(", timestamp=");
        let ts = dec_string_i64(self.timestamp);
        out.append(ts.as_str());
        out.append(", nonce=");
        out.append(self.nonce.as_str());
        out.append(", signature=");
        out.append(self.signature.as_str());
        proof {
            assert(out@ =~= spec_record_line(
                self.appid@,
                self.clientid@,
                self.convid@,
                self.members@,
                self.timestamp as int,
                self.nonce@,
                self.signature@,
            ));
        }
        out
    }
}

} // verus!
