//! Recognising the acknowledgment token in what the controller sends back.

use vstd::prelude::*;

verus! {

/// The acknowledgment token, the two letters `ok`.
pub open spec fn ack_token() -> Seq<u8> {
    seq!['o' as u8, 'k' as u8]
}

/// `token` stands in `text` at offset `at`.
pub open spec fn occurs_at(text: Seq<u8>, token: Seq<u8>, at: int) -> bool {
    &&& 0 <= at
    &&& at + token.len() <= text.len()
    &&& text.subrange(at, at + token.len()) == token
}

/// `text` holds the acknowledgment token somewhere. The match is on the
/// bare substring: the token counts wherever it stands, also inside
/// unrelated output.
pub open spec fn has_ack(text: Seq<u8>) -> bool {
    exists|at: int| occurs_at(text, ack_token(), at)
}

/// Scans one response for the acknowledgment token.
pub fn contains_ack(response: &[u8]) -> (found: bool)
    ensures
        found == has_ack(response@),
{
    if response.len() < 2 {
        return false;
    }
    let last: usize = response.len() - 1;
    let mut i: usize = 0;
    while i < last
        invariant
            last == response@.len() - 1,
            forall|at: int| 0 <= at < i ==> !occurs_at(response@, ack_token(), at),
        decreases last - i,
    {
        if response[i] == 'o' as u8 && response[i + 1] == 'k' as u8 {
            proof {
                assert(response@.subrange(i as int, i + 2) =~= ack_token());
                assert(occurs_at(response@, ack_token(), i as int));
            }
            return true;
        }
        proof {
            let window = response@.subrange(i as int, i + 2);
            assert(window[0] == response@[i as int]);
            assert(window[1] == response@[i + 1]);
            assert(ack_token()[0] == 'o' as u8 && ack_token()[1] == 'k' as u8);
        }
        i = i + 1;
    }
    false
}

/// The token is found wherever it is embedded: any bytes may stand before
/// it and after it.
pub proof fn lemma_ack_matches_anywhere(before: Seq<u8>, after: Seq<u8>)
    ensures
        has_ack(before + ack_token() + after),
{
    let text = before + ack_token() + after;
    let at = before.len() as int;
    assert(text.subrange(at, at + 2) =~= ack_token());
    assert(occurs_at(text, ack_token(), at));
}

/// A response that holds the token splits around one occurrence of it.
pub proof fn lemma_ack_splits(text: Seq<u8>) -> (at: int)
    requires
        has_ack(text),
    ensures
        0 <= at <= text.len() - 2,
        text == text.take(at) + ack_token() + text.skip(at + 2),
{
    let at = choose|at: int| occurs_at(text, ack_token(), at);
    assert(text =~= text.take(at) + text.subrange(at, at + 2) + text.skip(at + 2));
    at
}

/// A response shorter than the token never acknowledges.
pub proof fn lemma_short_response_has_no_ack(text: Seq<u8>)
    requires
        text.len() < 2,
    ensures
        !has_ack(text),
{
}

} // verus!
