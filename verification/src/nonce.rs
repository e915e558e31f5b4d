//! The nonce generator: a fresh 7-character token per request, drawn from a
//! fixed 22-character alphabet. Its role is unpredictability, not uniqueness.

use vstd::prelude::*;

verus! {

/// The fixed 22-character nonce alphabet.
pub open spec fn spec_nonce_alphabet() -> Seq<char> {
    seq![
        'a', 'b', 'c', '1', '2', '3', 'd', 'e', 'f', '4', '5', '6', 'g', 'h', 'i', '7', '8', '9',
        'j', 'k', '0', '_',
    ]
}

/// Relies on rand::random: a value from the process-wide random source;
/// nothing is assumed of it.
#[verifier::external_body]
fn random_u64() -> u64 {
    rand::random::<u64>()
}

fn nonce_char(i: usize) -> (r: &'static str)
    requires
        i < 22,
    ensures
        r@ == seq![spec_nonce_alphabet()[i as int]],
{
    proof {
        reveal_strlit("a");
        reveal_strlit("b");
        reveal_strlit("c");
        reveal_strlit("1");
        reveal_strlit("2");
        reveal_strlit("3");
        reveal_strlit("d");
        reveal_strlit("e");
        reveal_strlit("f");
        reveal_strlit("4");
        reveal_strlit("5");
        reveal_strlit("6");
        reveal_strlit("g");
        reveal_strlit("h");
        reveal_strlit("i");
        reveal_strlit("7");
        reveal_strlit("8");
        reveal_strlit("9");
        reveal_strlit("j");
        reveal_strlit("k");
        reveal_strlit("0");
        reveal_strlit("_");
        assert("a"@ =~= seq!['a']);
        assert("b"@ =~= seq!['b']);
        assert("c"@ =~= seq!['c']);
        assert("1"@ =~= seq!['1']);
        assert("2"@ =~= seq!['2']);
        assert("3"@ =~= seq!['3']);
        assert("d"@ =~= seq!['d']);
        assert("e"@ =~= seq!['e']);
        assert("f"@ =~= seq!['f']);
        assert("4"@ =~= seq!['4']);
        assert("5"@ =~= seq!['5']);
        assert("6"@ =~= seq!['6']);
        assert("g"@ =~= seq!['g']);
        assert("h"@ =~= seq!['h']);
        assert("i"@ =~= seq!['i']);
        assert("7"@ =~= seq!['7']);
        assert("8"@ =~= seq!['8']);
        assert("9"@ =~= seq!['9']);
        assert("j"@ =~= seq!['j']);
        assert("k"@ =~= seq!['k']);
        assert("0"@ =~= seq!['0']);
        assert("_"@ =~= seq!['_']);
    }
    if i == 0 {
        "a"
    } else if i == 1 {
        "b"
    } else if i == 2 {
        "c"
    } else if i == 3 {
        "1"
    } else if i == 4 {
        "2"
    } else if i == 5 {
        "3"
    } else if i == 6 {
        "d"
    } else if i == 7 {
        "e"
    } else if i == 8 {
        "f"
    } else if i == 9 {
        "4"
    } else if i == 10 {
        "5"
    } else if i == 11 {
        "6"
    } else if i == 12 {
        "g"
    } else if i == 13 {
        "h"
    } else if i == 14 {
        "i"
    } else if i == 15 {
        "7"
    } else if i == 16 {
        "8"
    } else if i == 17 {
        "9"
    } else if i == 18 {
        "j"
    } else if i == 19 {
        "k"
    } else if i == 20 {
        "0"
    } else {
        "_"
    }
}

/// Generates a fresh nonce: exactly 7 characters, each drawn from the fixed
/// 22-character alphabet by the process-wide random source. Distinct calls
/// may collide; the field's role is unpredictability, not uniqueness.
pub fn nonce() -> (r: String)
    ensures
        r@.len() == 7,
        forall|i: int| 0 <= i < r@.len() ==> spec_nonce_alphabet().contains(#[trigger] r@[i]),
{
    let mut r = String::new();
    let mut j: usize = 0;
    while j < 7
        invariant
            j <= 7,
            r@.len() == j,
            forall|i: int| 0 <= i < r@.len() ==> spec_nonce_alphabet().contains(#[trigger] r@[i]),
        decreases 7 - j,
    {
        let idx = (random_u64() % 22) as usize;
        let c = nonce_char(idx);
        r.append(c);
        proof {
            assert(r@[j as int] == spec_nonce_alphabet()[idx as int]);
            assert(spec_nonce_alphabet().contains(r@[j as int]));
        }
        j += 1;
    }
    r
}

} // verus!
