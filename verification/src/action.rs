//! The closed set of request operations, decided once from the caller's
//! action string by case-insensitive comparison.

use vstd::prelude::*;

verus! {

/// A request operation. Anything outside the closed set is `Other`, and is
/// rejected where an action-specific rendering is required.
#[derive(Clone, Copy, PartialEq, Eq, Structural, Debug)]
pub enum Action {
    Open,
    Start,
    Add,
    Remove,
    Other,
}

/// `c` matches `k` (a lowercase ASCII letter) exactly or as its uppercase form.
pub open spec fn ci_char_eq(c: char, k: char) -> bool {
    c == k || ('A' <= c && c <= 'Z' && c as int + 32 == k as int)
}

/// `s` equals the lowercase word `w` up to ASCII case.
pub open spec fn ci_word_eq(s: Seq<char>, w: Seq<char>) -> bool {
    s.len() == w.len() && forall|i: int| 0 <= i < s.len() ==> ci_char_eq(s[i], #[trigger] w[i])
}

/// The operation named by `s`, compared case-insensitively.
pub open spec fn spec_action_of(s: Seq<char>) -> Action {
    if ci_word_eq(s, "open"@) {
        Action::Open
    } else if ci_word_eq(s, "start"@) {
        Action::Start
    } else if ci_word_eq(s, "add"@) {
        Action::Add
    } else if ci_word_eq(s, "remove"@) {
        Action::Remove
    } else {
        Action::Other
    }
}

fn eq_ci(s: &str, w: &str) -> (r: bool)
    ensures
        r == ci_word_eq(s@, w@),
{
    let n = s.unicode_len();
    if n != w.unicode_len() {
        return false;
    }
    let mut i: usize = 0;
    while i < n
        invariant
            i <= n,
            n == s@.len(),
            n == w@.len(),
            forall|j: int| 0 <= j < i ==> ci_char_eq(s@[j], #[trigger] w@[j]),
        decreases n - i,
    {
        let c = s.get_char(i);
        let k = w.get_char(i);
        let m = c == k || ('A' <= c && c <= 'Z' && (c as u32) + 32 == (k as u32));
        proof {
            assert((c as u32) as int == c as int);
            assert((k as u32) as int == k as int);
            assert(m == ci_char_eq(s@[i as int], w@[i as int]));
        }
        if !m {
            return false;
        }
        i += 1;
    }
    true
}

/// Decides the operation named by `action`, case-insensitively.
pub fn parse_action(action: &str) -> (a: Action)
    ensures
        a == spec_action_of(action@),
{
    if eq_ci(action, "open") {
        Action::Open
    } else if eq_ci(action, "start") {
        Action::Start
    } else if eq_ci(action, "add") {
        Action::Add
    } else if eq_ci(action, "remove") {
        Action::Remove
    } else {
        Action::Other
    }
}

} // verus!
