//! The dictionary of tokens that mutations may insert.
//!
//! A run that is restarted finds its dictionary in the stored state and keeps it. A fresh
//! run puts one together from the dictionary file and from the tokens that the target was
//! built with, and stores it unless it is empty.
use libafl::mutators::Tokens;
use libafl_bolts::serdeany::SerdeAnyMap;
use vstd::prelude::*;

verus! {

/// Declares `libafl::mutators::Tokens`, a list of tokens without duplicates.
#[verifier::external_type_specification]
#[verifier::external_body]
pub struct ExTokens(Tokens);

/// Declares `libafl_bolts::serdeany::SerdeAnyMap`, which holds at most one value of each
/// kind of metadata.
#[verifier::external_type_specification]
#[verifier::external_body]
pub struct ExSerdeAnyMap(SerdeAnyMap);

/// The tokens in a list, in their order.
pub uninterp spec fn tokens_held(tokens: Tokens) -> Seq<Seq<u8>>;

/// The tokens that a list turns away when they are added again.
pub uninterp spec fn tokens_known(tokens: Tokens) -> Set<Seq<u8>>;

/// The token list in a metadata map, in its order, where the map has one.
pub uninterp spec fn tokens_stored(metadata: SerdeAnyMap) -> Option<Seq<Seq<u8>>>;

/// The tokens that the token list in a metadata map turns away, where the map has one.
pub uninterp spec fn tokens_known_stored(metadata: SerdeAnyMap) -> Option<Set<Seq<u8>>>;

/// What a metadata map has besides a token list: the kinds of metadata, each by the number
/// that the map knows it by, with what `Debug` shows of the value.
pub uninterp spec fn metadata_besides_tokens(metadata: SerdeAnyMap) -> Map<u128, Seq<char>>;

/// What is left of `offered` without the tokens in `known` and without repetitions.
pub open spec fn unknown_in(known: Set<Seq<u8>>, offered: Seq<Seq<u8>>) -> Seq<Seq<u8>>
    decreases offered.len(),
{
    if offered.len() == 0 {
        Seq::empty()
    } else {
        let earlier = offered.drop_last();
        if known.contains(offered.last()) || earlier.contains(offered.last()) {
            unknown_in(known, earlier)
        } else {
            unknown_in(known, earlier).push(offered.last())
        }
    }
}

/// Calls `Tokens::default`: a list that holds nothing and turns nothing away.
#[verifier::external_body]
fn no_tokens() -> (tokens: Tokens)
    ensures
        tokens_held(tokens) == Seq::<Seq<u8>>::empty(),
        tokens_known(tokens) == Set::<Seq<u8>>::empty(),
{
    Tokens::default()
}

/// Calls `Tokens::is_empty`, which is true of a list that holds nothing.
#[verifier::external_body]
fn holds_nothing(tokens: &Tokens) -> (r: bool)
    ensures
        r == (tokens_held(*tokens).len() == 0),
{
    tokens.is_empty()
}

/// Calls `add_assign` of `Tokens`: goes through the other list in order and appends each
/// token that is not turned away; from then on it is.
#[verifier::external_body]
fn take_over(tokens: &mut Tokens, other: Tokens)
    ensures
        tokens_held(*final(tokens)) == tokens_held(*old(tokens)) + unknown_in(
            tokens_known(*old(tokens)),
            tokens_held(other),
        ),
        tokens_known(*final(tokens)) == tokens_known(*old(tokens)).union(
            tokens_held(other).to_set(),
        ),
{
    *tokens += other;
}

/// Calls `SerdeAnyMap::contains` for `Tokens`: whether the map has a token list, and with
/// it the tokens that it turns away.
#[verifier::external_body]
fn has_list(metadata: &SerdeAnyMap) -> (r: bool)
    ensures
        r == tokens_stored(*metadata) is Some,
        r == tokens_known_stored(*metadata) is Some,
{
    metadata.contains::<Tokens>()
}

/// Calls `SerdeAnyMap::insert` with `tokens`: afterwards they are the map's token list, which
/// turns away what it did before, and what the map has of other kinds is as it was.
///
/// The call fails for a kind of metadata that has not been registered. `libafl` registers
/// `Tokens` by itself as the program starts, with the features that it has by default.
#[verifier::external_body]
fn put_list(metadata: &mut SerdeAnyMap, tokens: Tokens)
    ensures
        tokens_stored(*final(metadata)) == Some(tokens_held(tokens)),
        tokens_known_stored(*final(metadata)) == Some(tokens_known(tokens)),
        metadata_besides_tokens(*final(metadata)) == metadata_besides_tokens(*old(metadata)),
{
    metadata.insert(tokens);
}

/// A list to read a dictionary file into.
pub fn fresh_tokens() -> (r: Tokens)
    ensures
        tokens_held(r) == Seq::<Seq<u8>>::empty(),
        tokens_known(r) == Set::<Seq<u8>>::empty(),
{
    no_tokens()
}

/// Whether a dictionary is still to be put together for the run with this metadata.
pub fn lacks_tokens(metadata: &SerdeAnyMap) -> (r: bool)
    ensures
        r == tokens_stored(*metadata) is None,
        r == tokens_known_stored(*metadata) is None,
{
    !has_list(metadata)
}

/// The dictionary that `file`, the list read from the dictionary file, and `built_in`, the
/// tokens that the target was built with, give together.
pub open spec fn dictionary(file: Tokens, built_in: Option<Tokens>) -> Seq<Seq<u8>> {
    match built_in {
        Some(other) => tokens_held(file) + unknown_in(tokens_known(file), tokens_held(other)),
        None => tokens_held(file),
    }
}

/// The tokens that this dictionary turns away when they are added again.
pub open spec fn dictionary_known(file: Tokens, built_in: Option<Tokens>) -> Set<Seq<u8>> {
    match built_in {
        Some(other) => tokens_known(file).union(tokens_held(other).to_set()),
        None => tokens_known(file),
    }
}

/// Stores the dictionary of a fresh run. A dictionary that is there already is kept, and an
/// empty one is not stored.
pub fn install_tokens(metadata: &mut SerdeAnyMap, file: Tokens, built_in: Option<Tokens>)
    ensures
        tokens_stored(*old(metadata)) is Some || dictionary(file, built_in).len() == 0
            ==> *final(metadata) == *old(metadata),
        tokens_stored(*old(metadata)) is None && dictionary(file, built_in).len() > 0
            ==> {
            &&& tokens_stored(*final(metadata)) == Some(dictionary(file, built_in))
            &&& tokens_known_stored(*final(metadata)) == Some(dictionary_known(file, built_in))
        },
        metadata_besides_tokens(*final(metadata)) == metadata_besides_tokens(*old(metadata)),
{
    if !lacks_tokens(metadata) {
        return ;
    }
    let mut tokens = file;
    if let Some(other) = built_in {
        take_over(&mut tokens, other);
    }
    if !holds_nothing(&tokens) {
        put_list(metadata, tokens);
    }
}

/// Pushing a token adds that token and nothing else.
proof fn lemma_contains_after_push(list: Seq<Seq<u8>>, token: Seq<u8>, t: Seq<u8>)
    ensures
        list.push(token).contains(t) <==> list.contains(t) || t == token,
{
    let all = list.push(token);
    assert(all[list.len() as int] == token);
    if list.contains(t) {
        assert(all[list.index_of(t)] == t);
    }
    if all.contains(t) {
        let i = all.index_of(t);
        if i < list.len() {
            assert(list[i] == t);
        }
    }
}

/// What is appended to a list is new to it, comes from the tokens offered, and leaves none
/// of those out.
proof fn lemma_unknown_in(known: Set<Seq<u8>>, offered: Seq<Seq<u8>>)
    ensures
        unknown_in(known, offered).no_duplicates(),
        forall|t: Seq<u8>| #[trigger]
            unknown_in(known, offered).contains(t) <==> offered.contains(t) && !known.contains(t),
    decreases offered.len(),
{
    if offered.len() > 0 {
        let earlier = offered.drop_last();
        let last = offered.last();
        let kept = unknown_in(known, earlier);
        lemma_unknown_in(known, earlier);
        assert(offered == earlier.push(last));
        if !known.contains(last) && !earlier.contains(last) {
            assert(!kept.contains(last));
            assert(kept.push(last).no_duplicates());
        }
        assert forall|t: Seq<u8>| #[trigger]
            unknown_in(known, offered).contains(t) <==> offered.contains(t) && !known.contains(
            t,
        ) by {
            lemma_contains_after_push(earlier, last, t);
            lemma_contains_after_push(kept, last, t);
            assert(kept.contains(t) <==> earlier.contains(t) && !known.contains(t));
        }
    }
}

/// A list that knows all it holds, and holds nothing twice, stays so: the dictionary of a
/// run has no token twice, starts with the tokens of the file, leaves out no token that
/// the target was built with, and turns away just what it holds.
pub proof fn lemma_dictionary_is_complete_and_unique(file: Tokens, other: Tokens)
    requires
        tokens_held(file).no_duplicates(),
        tokens_held(file).to_set() == tokens_known(file),
    ensures
        dictionary(file, Some(other)).no_duplicates(),
        tokens_held(file).is_prefix_of(dictionary(file, Some(other))),
        forall|t: Seq<u8>| #[trigger]
            dictionary(file, Some(other)).contains(t) <==> tokens_held(file).contains(t)
                || tokens_held(other).contains(t),
        dictionary_known(file, Some(other)) == dictionary(file, Some(other)).to_set(),
{
    let held = tokens_held(file);
    let extra = unknown_in(tokens_known(file), tokens_held(other));
    let all = held + extra;
    lemma_unknown_in(tokens_known(file), tokens_held(other));
    assert(forall|t: Seq<u8>| held.contains(t) <==> tokens_known(file).contains(t));
    assert forall|i: int, j: int| 0 <= i < all.len() && 0 <= j < all.len() && i != j implies all[i]
        != all[j] by {
        if i < held.len() && j >= held.len() {
            assert(held.contains(all[i]));
            assert(extra[j - held.len()] == all[j]);
            assert(extra.contains(all[j]));
        }
        if j < held.len() && i >= held.len() {
            assert(held.contains(all[j]));
            assert(extra[i - held.len()] == all[i]);
            assert(extra.contains(all[i]));
        }
    }
    assert forall|t: Seq<u8>| #[trigger] all.contains(t) <==> held.contains(t) || tokens_held(
        other,
    ).contains(t) by {
        if held.contains(t) {
            assert(all[held.index_of(t)] == t);
        } else if extra.contains(t) {
            assert(all[held.len() + extra.index_of(t)] == t);
        }
        if all.contains(t) {
            let i = all.index_of(t);
            if i < held.len() {
                assert(held[i] == t);
            } else {
                assert(extra[i - held.len()] == t);
            }
        }
    }
    assert forall|t: Seq<u8>| #[trigger]
        dictionary_known(file, Some(other)).contains(t) <==> all.to_set().contains(t) by {
        assert(all.contains(t) <==> held.contains(t) || tokens_held(other).contains(t));
        assert(held.contains(t) <==> tokens_known(file).contains(t));
    }
}

/// A single token is taken over unless it is known.
pub proof fn lemma_a_single_token_is_taken_over(known: Set<Seq<u8>>, token: Seq<u8>)
    ensures
        unknown_in(known, seq![token]) == (if known.contains(token) {
            Seq::empty()
        } else {
            seq![token]
        }),
        unknown_in(known, Seq::empty()) == Seq::<Seq<u8>>::empty(),
{
    reveal_with_fuel(unknown_in, 2);
    assert(seq![token].drop_last() == Seq::<Seq<u8>>::empty());
}

/// To take over tokens in two goes is the same as in one: those of the first go are known in
/// the second, and come before those that it adds.
pub proof fn lemma_tokens_are_taken_over_in_order(
    known: Set<Seq<u8>>,
    first: Seq<Seq<u8>>,
    second: Seq<Seq<u8>>,
)
    ensures
        unknown_in(known, first + second) == unknown_in(known, first) + unknown_in(
            known.union(first.to_set()),
            second,
        ),
    decreases second.len(),
{
    let all = first + second;
    if second.len() == 0 {
        assert(all == first);
        assert(unknown_in(known, first) + Seq::<Seq<u8>>::empty() == unknown_in(known, first));
    } else {
        let last = second.last();
        let fewer = second.drop_last();
        let some = first + fewer;
        lemma_tokens_are_taken_over_in_order(known, first, fewer);
        assert(all.drop_last() == some);
        if first.contains(last) {
            assert(some[first.index_of(last)] == last);
        }
        if fewer.contains(last) {
            assert(some[first.len() + fewer.index_of(last)] == last);
        }
        if some.contains(last) {
            let i = some.index_of(last);
            if i < first.len() {
                assert(first[i] == last);
            } else {
                assert(fewer[i - first.len()] == last);
            }
        }
        assert(first.to_set().contains(last) <==> first.contains(last));
        assert(unknown_in(known, all) == unknown_in(known, first) + unknown_in(
            known.union(first.to_set()),
            second,
        ));
    }
}

/// What [`install_tokens`] leaves in a run without a dictionary. The tokens of the file come
/// first, all of them and as they are. After them comes each token that the target was built
/// with and that the file's list does not turn away, once. Without a single token nothing is
/// stored.
pub proof fn lemma_installed_dictionary(
    metadata: &mut SerdeAnyMap,
    file: Tokens,
    built_in: Option<Tokens>,
)
    requires
        call_ensures(install_tokens, (metadata, file, built_in), ()),
        tokens_stored(*old(metadata)) is None,
    ensures
        tokens_stored(*final(metadata)) is None <==> {
            &&& tokens_held(file).len() == 0
            &&& built_in matches Some(other) ==> forall|t: Seq<u8>| #[trigger]
                tokens_held(other).contains(t) ==> tokens_known(file).contains(t)
        },
        tokens_stored(*final(metadata)) is None ==> *final(metadata) == *old(metadata),
        tokens_stored(*final(metadata)) matches Some(list) ==> {
            &&& tokens_held(file).is_prefix_of(list)
            &&& built_in is None ==> list == tokens_held(file)
            &&& built_in matches Some(other) ==> {
                let added = list.subrange(tokens_held(file).len() as int, list.len() as int);
                &&& added.no_duplicates()
                &&& forall|t: Seq<u8>| #[trigger]
                    added.contains(t) <==> tokens_held(other).contains(t) && !tokens_known(
                        file,
                    ).contains(t)
            }
            &&& tokens_known_stored(*final(metadata)) matches Some(known)
            &&& forall|t: Seq<u8>| #[trigger]
                known.contains(t) <==> tokens_known(file).contains(t) || (built_in matches Some(
                    other,
                ) && tokens_held(other).contains(t))
        },
{
    let held = tokens_held(file);
    if let Some(other) = built_in {
        let extra = unknown_in(tokens_known(file), tokens_held(other));
        lemma_unknown_in(tokens_known(file), tokens_held(other));
        let list = held + extra;
        assert(list.subrange(held.len() as int, list.len() as int) == extra);
        if extra.len() > 0 {
            assert(extra.contains(extra[0]));
        } else {
            assert forall|t: Seq<u8>| #[trigger]
                tokens_held(other).contains(t) implies tokens_known(file).contains(t) by {
                assert(extra.contains(t) <==> tokens_held(other).contains(t) && !tokens_known(
                    file,
                ).contains(t));
            }
        }
    }
}

/// A run that has a dictionary keeps it, whatever is offered.
pub proof fn lemma_a_dictionary_is_kept(
    metadata: &mut SerdeAnyMap,
    file: Tokens,
    built_in: Option<Tokens>,
)
    requires
        call_ensures(install_tokens, (metadata, file, built_in), ()),
        tokens_stored(*old(metadata)) is Some,
    ensures
        *final(metadata) == *old(metadata),
{
}

} // verus!
