//! The wire payload: a remote message carries the desired indicator
//! state as the one-character text `"1"` (on) or `"0"` (off). Any other
//! payload is malformed and is ignored by the receiver.

use vstd::prelude::*;

verus! {

/// The payload that announces the desired indicator state `on`.
pub open spec fn spec_payload(on: bool) -> Seq<char> {
    if on {
        seq!['1']
    } else {
        seq!['0']
    }
}

/// What a received payload means: `Some(desired)` for the two valid
/// payloads, `None` for every malformed one.
pub open spec fn spec_parse(s: Seq<char>) -> Option<bool> {
    if s == seq!['1'] {
        Some(true)
    } else if s == seq!['0'] {
        Some(false)
    } else {
        None
    }
}

/// Encodes an indicator state as the payload to put on the wire.
pub fn encode_state(on: bool) -> (r: String)
    ensures
        r@ == spec_payload(on),
{
    proof {
        reveal_strlit("1");
        reveal_strlit("0");
        assert("1"@ =~= seq!['1']);
        assert("0"@ =~= seq!['0']);
    }
    if on {
        String::from_str("1")
    } else {
        String::from_str("0")
    }
}

/// Parses a received payload; malformed payloads give `None`.
pub fn parse_payload(s: &str) -> (r: Option<bool>)
    ensures
        r == spec_parse(s@),
{
    proof {
        reveal_strlit("1");
        reveal_strlit("0");
        assert("1"@ =~= seq!['1']);
        assert("0"@ =~= seq!['0']);
    }
    let owned = s.to_owned();
    let one = String::from_str("1");
    let zero = String::from_str("0");
    if owned == one {
        Some(true)
    } else if owned == zero {
        Some(false)
    } else {
        None
    }
}

/// Law: parsing a payload the library itself encoded yields exactly the
/// state that was encoded, so a client's own messages are never
/// misread by its peers.
pub proof fn lemma_payload_round_trip(on: bool)
    ensures
        spec_parse(spec_payload(on)) == Some(on),
{
    assert(seq!['1'][0] == '1');
    assert(seq!['0'][0] == '0');
    assert(seq!['1'] != seq!['0']);
}

} // verus!
