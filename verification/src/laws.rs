//! What holds of every catalog, state and text: the two layers of fallback,
//! the sentinel, the order of substitution, and the refusal of unknown
//! language codes.

use crate::format::{decimal, formatted, gap, interleave, joined, placeholder};
use crate::lookup::{
    gender_of, gender_with_args_of, lookup_text, lookup_variant, lookup_variants, plural_of,
    sentinel, text_in, text_of, text_with_args_of, variants_in, SectionPair,
};
use crate::split::regex_split;
use crate::catalog::{degraded_catalog, error_section, error_word};
use crate::state::{resolved, starting_language, with_current, with_fallback, LanguageState};
use vstd::prelude::*;

verus! {

/// Key-level fallback. Where both languages have the topic file and the
/// current language's section lacks a key, a lookup of that key finds what
/// the fallback language's section holds under it: its text, or its variant
/// set.
pub proof fn key_level_fallback(state: LanguageState, file: Seq<char>, key: Seq<char>)
    requires
        state.catalog.contains_key(state.current),
        state.catalog.contains_key(state.fallback),
        state.catalog[state.current].contains_key(file),
        state.catalog[state.fallback].contains_key(file),
        !state.catalog[state.current][file].contains_key(key),
    ensures
        lookup_text(resolved(state, file), key) == text_in(state.catalog[state.fallback][file], key),
        lookup_variants(resolved(state, file), key) == variants_in(
            state.catalog[state.fallback][file],
            key,
        ),
{
}

/// File-level fallback. Where only the fallback language has the topic
/// file, both bound sections are the fallback language's section, and every
/// key is looked up there.
pub proof fn file_level_fallback(state: LanguageState, file: Seq<char>)
    requires
        state.catalog.contains_key(state.current),
        state.catalog.contains_key(state.fallback),
        !state.catalog[state.current].contains_key(file),
        state.catalog[state.fallback].contains_key(file),
    ensures
        resolved(state, file).primary == state.catalog[state.fallback][file],
        resolved(state, file).fallback == state.catalog[state.fallback][file],
        forall|key: Seq<char>| #[trigger]
            lookup_text(resolved(state, file), key) == text_in(
                state.catalog[state.fallback][file],
                key,
            ),
        forall|key: Seq<char>| #[trigger]
            lookup_variants(resolved(state, file), key) == variants_in(
                state.catalog[state.fallback][file],
                key,
            ),
{
}

/// A key that neither section has gives the sentinel, whatever the lookup.
pub proof fn absent_key_gives_sentinel(
    pair: SectionPair,
    key: Seq<char>,
    arguments: Seq<Seq<char>>,
    count: nat,
    gender: Seq<char>,
)
    requires
        !pair.primary.contains_key(key),
        !pair.fallback.contains_key(key),
    ensures
        text_of(pair, key) == sentinel(),
        text_with_args_of(pair, key, arguments) == sentinel(),
        plural_of(pair, key, count) == sentinel(),
        gender_of(pair, key, gender) == sentinel(),
        gender_with_args_of(pair, key, gender, arguments) == sentinel(),
{
}

/// The segments and the arguments in turn: segment 0, argument 0, segment 1,
/// argument 1, and so on up to the last segment.
pub open spec fn alternation(segments: Seq<Seq<char>>, arguments: Seq<Seq<char>>) -> Seq<Seq<char>> {
    Seq::new(
        (2 * segments.len() - 1) as nat,
        |k: int|
            if k % 2 == 0 {
                segments[k / 2]
            } else {
                arguments[k / 2]
            },
    )
}

proof fn joined_is_alternation_prefix(
    segments: Seq<Seq<char>>,
    arguments: Seq<Seq<char>>,
    n: int,
)
    requires
        0 <= n < segments.len(),
        arguments.len() >= segments.len() - 1,
    ensures
        joined(segments, arguments, n) == alternation(segments, arguments).take(2 * n).flatten(),
    decreases n,
{
    broadcast use Seq::lemma_flatten_push;

    let turns = alternation(segments, arguments);
    if n == 0 {
        assert(turns.take(0) =~= Seq::<Seq<char>>::empty());
    } else {
        joined_is_alternation_prefix(segments, arguments, n - 1);
        assert(gap(segments, arguments, n - 1) == arguments[n - 1]);
        assert(turns.take(2 * n) =~= turns.take(2 * (n - 1)).push(segments[n - 1]).push(
            arguments[n - 1],
        ));
    }
}

/// Substitution keeps the order. A text with N placeholders has N + 1
/// segments; with N arguments or more, the filled text is segment 0,
/// argument 0, segment 1, argument 1, and so on, ending with argument N - 1
/// and the last segment: N substitutions, each argument once and in its
/// place, and the arguments beyond the first N not at all.
pub proof fn substitution_in_order(segments: Seq<Seq<char>>, arguments: Seq<Seq<char>>)
    requires
        segments.len() >= 1,
        arguments.len() >= segments.len() - 1,
    ensures
        interleave(segments, arguments) == alternation(segments, arguments).flatten(),
        interleave(segments, arguments) == interleave(
            segments,
            arguments.take(segments.len() - 1),
        ),
{
    broadcast use Seq::lemma_flatten_push;

    let last = segments.len() - 1;
    let turns = alternation(segments, arguments);
    joined_is_alternation_prefix(segments, arguments, last);
    assert(turns =~= turns.take(2 * last).push(segments[last]));
    assert(interleave(segments, arguments) =~= turns.flatten());
    let needed = arguments.take(last);
    let fewer = alternation(segments, needed);
    joined_is_alternation_prefix(segments, needed, last);
    assert(fewer =~= fewer.take(2 * last).push(segments[last]));
    assert(fewer =~= turns);
    assert(interleave(segments, needed) =~= fewer.flatten());
}

/// Substitution keeps the order in a formatted text: where the placeholder
/// expression splits a text into N + 1 segments and there are N arguments or
/// more, the formatted text is the segments and the first N arguments in
/// turn.
pub proof fn formatting_in_order(
    line: Seq<char>,
    segments: Seq<Seq<char>>,
    arguments: Seq<Seq<char>>,
)
    requires
        regex_split(placeholder(), line) == Some(segments),
        segments.len() >= 1,
        arguments.len() >= segments.len() - 1,
    ensures
        formatted(line, arguments) == alternation(segments, arguments).flatten(),
        formatted(line, arguments) == formatted(line, arguments.take(segments.len() - 1)),
{
    substitution_in_order(segments, arguments);
}

/// The bucket of a plural lookup goes by the count alone: zero takes the
/// variant under `none`, one the variant under `one`, and every other count
/// the variant under `many`. The count is the one argument of the variant,
/// and a variant set without the bucket gives the sentinel.
pub proof fn plural_selects_by_count(pair: SectionPair, key: Seq<char>, count: nat)
    ensures
        plural_of(pair, key, count) == (match lookup_variant(
            pair,
            key,
            if count == 0 {
                "none"@
            } else if count == 1 {
                "one"@
            } else {
                "many"@
            },
        ) {
            Some(text) => formatted(text, seq![decimal(count)]),
            None => sentinel(),
        }),
{
}

/// After a failed load the state still resolves. With the degraded catalog
/// and its starting language as current and as fallback, both languages are
/// keys of the catalog, every topic file is bound to the error section
/// twice, and the error word is found there as a text.
pub proof fn degraded_state_resolves(state: LanguageState, file: Seq<char>)
    requires
        state.catalog == degraded_catalog(),
        state.current == starting_language(false),
        state.fallback == starting_language(false),
    ensures
        state.catalog.contains_key(state.current),
        state.catalog.contains_key(state.fallback),
        resolved(state, file) == (SectionPair {
            primary: error_section(),
            fallback: error_section(),
        }),
        text_of(resolved(state, file), error_word()) == error_word(),
{
}

/// A request to switch to a language code that is not among the accepted
/// ones changes nothing, neither for the current nor for the fallback
/// language.
pub proof fn unknown_code_changes_nothing(state: LanguageState, locale: Seq<char>)
    requires
        !state.locales.contains(locale),
    ensures
        with_current(state, locale) == state,
        with_fallback(state, locale) == state,
{
}

} // verus!
