//! The dictionary of tokens that a client hands to the mutators.

use libafl::mutators::Tokens;
use vstd::prelude::*;
use vstd::slice::slice_to_vec;
use vstd::utf8::encode_utf8;

verus! {

/// The engine's token dictionary. Verus sees nothing inside it; what it
/// holds is spoken of through [`tokens_held`] and [`tokens_seen`].
#[verifier::external_type_specification]
#[verifier::external_body]
pub struct ExTokens(Tokens);

/// The tokens of a dictionary, in the order in which they were added.
pub uninterp spec fn tokens_held(tokens: Tokens) -> Seq<Seq<u8>>;

/// The set by which a dictionary tells that it has seen a token before.
pub uninterp spec fn tokens_seen(tokens: Tokens) -> Set<Seq<u8>>;

/// `Tokens::new` of `libafl`. Trusted: the new dictionary holds no token and
/// has seen none.
pub assume_specification[ Tokens::new ]() -> (tokens: Tokens)
    ensures
        tokens_held(tokens) == Seq::<Seq<u8>>::empty(),
        tokens_seen(tokens) == Set::<Seq<u8>>::empty(),
;

/// `Tokens::add_token` of `libafl`. Trusted: the token counts as added if the
/// dictionary had not seen it; it is then appended to the tokens held; in
/// either case the dictionary has seen it afterwards.
pub assume_specification[ Tokens::add_token ](tokens: &mut Tokens, token: &Vec<u8>) -> (added:
    bool)
    ensures
        added == !tokens_seen(*old(tokens)).contains(token@),
        tokens_seen(*final(tokens)) == tokens_seen(*old(tokens)).insert(token@),
        tokens_held(*final(tokens)) == if added {
            tokens_held(*old(tokens)).push(token@)
        } else {
            tokens_held(*old(tokens))
        },
;

/// The bytes of each token given as text.
pub open spec fn token_bytes(extra_tokens: Seq<String>) -> Seq<Seq<u8>> {
    Seq::new(extra_tokens.len(), |i: int| encode_utf8(extra_tokens[i]@))
}

/// `items` without repetitions: each item where it first occurs.
pub open spec fn first_occurrences(items: Seq<Seq<u8>>) -> Seq<Seq<u8>>
    decreases items.len(),
{
    if items.len() == 0 {
        Seq::empty()
    } else {
        let before = first_occurrences(items.drop_last());
        if before.contains(items.last()) {
            before
        } else {
            before.push(items.last())
        }
    }
}

/// Builds the dictionary of a client from the tokens given as text: the
/// UTF-8 bytes of each, in the order given, repetitions left out.
pub fn collect_tokens(extra_tokens: &Vec<String>) -> (tokens: Tokens)
    ensures
        tokens_held(tokens) == first_occurrences(token_bytes(extra_tokens@)),
        tokens_seen(tokens) == tokens_held(tokens).to_set(),
{
    let mut tokens = Tokens::new();
    let mut i: usize = 0;
    assert(token_bytes(extra_tokens@).take(0) == Seq::<Seq<u8>>::empty());
    assert(tokens_held(tokens).to_set() == Set::<Seq<u8>>::empty());
    while i < extra_tokens.len()
        invariant
            i <= extra_tokens.len(),
            tokens_held(tokens) == first_occurrences(token_bytes(extra_tokens@).take(i as int)),
            tokens_seen(tokens) == tokens_held(tokens).to_set(),
        decreases extra_tokens.len() - i,
    {
        let bytes: Vec<u8> = slice_to_vec(extra_tokens[i].as_str().as_bytes());
        let ghost before = tokens_held(tokens);
        let ghost prefix = token_bytes(extra_tokens@).take(i + 1);
        let added = tokens.add_token(&bytes);
        proof {
            assert(prefix.drop_last() == token_bytes(extra_tokens@).take(i as int));
            assert(prefix.last() == bytes@);
            assert(before.to_set().contains(bytes@) == before.contains(bytes@));
            assert(tokens_held(tokens) == first_occurrences(prefix));
            if added {
                assert(before.push(bytes@).to_set() == before.to_set().insert(bytes@)) by {
                    assert forall|t: Seq<u8>| before.push(bytes@).contains(t) <==> (
                    before.contains(t) || t == bytes@) by {
                        if before.push(bytes@).contains(t) {
                            let j = choose|j: int|
                                0 <= j < before.push(bytes@).len() && before.push(bytes@)[j] == t;
                            if j < before.len() {
                                assert(before[j] == t);
                            }
                        }
                        if before.contains(t) {
                            let j = choose|j: int| 0 <= j < before.len() && before[j] == t;
                            assert(before.push(bytes@)[j] == t);
                        }
                        if t == bytes@ {
                            assert(before.push(bytes@)[before.len() as int] == t);
                        }
                    }
                }
            } else {
                assert(before.to_set().insert(bytes@) == before.to_set());
            }
        }
        i = i + 1;
    }
    assert(token_bytes(extra_tokens@).take(extra_tokens.len() as int) == token_bytes(
        extra_tokens@,
    ));
    tokens
}

/// Leaving out repetitions loses no token and keeps none twice.
pub proof fn law_first_occurrences(items: Seq<Seq<u8>>)
    ensures
        first_occurrences(items).no_duplicates(),
        forall|t: Seq<u8>| #[trigger] first_occurrences(items).contains(t) ==> items.contains(t),
        forall|t: Seq<u8>| #[trigger] items.contains(t) ==> first_occurrences(items).contains(t),
        first_occurrences(items).len() <= items.len(),
    decreases items.len(),
{
    if items.len() > 0 {
        let head = items.drop_last();
        let before = first_occurrences(head);
        let out = first_occurrences(items);
        law_first_occurrences(head);
        assert forall|t: Seq<u8>| #[trigger] out.contains(t) implies items.contains(t) by {
            let j = choose|j: int| 0 <= j < out.len() && out[j] == t;
            if j < before.len() {
                assert(before[j] == t);
                assert(before.contains(t));
                assert(head.contains(t));
                let k = choose|k: int| 0 <= k < head.len() && head[k] == t;
                assert(items[k] == t);
            } else {
                assert(items[items.len() - 1] == t);
            }
        }
        assert forall|t: Seq<u8>| #[trigger] items.contains(t) implies out.contains(t) by {
            let k = choose|k: int| 0 <= k < items.len() && items[k] == t;
            if k < head.len() {
                assert(head[k] == t);
                assert(head.contains(t));
                assert(before.contains(t));
                let j = choose|j: int| 0 <= j < before.len() && before[j] == t;
                assert(out[j] == t);
            } else {
                assert(t == items.last());
                if !before.contains(t) {
                    assert(out[before.len() as int] == t);
                }
            }
        }
    }
}

} // verus!
