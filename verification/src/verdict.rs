//! The verdict on a model's reply: a reply reads as a false-positive
//! judgement when it is empty or holds one of a fixed list of phrases.

use crate::text::{chars_of, contains_chars, contains_seq, lowercase_of, to_lowercase};
use vstd::prelude::*;

verus! {

/// A phrase whose presence in a reply marks the reply as a false-positive
/// judgement.
#[derive(Clone, Copy, Debug, PartialEq, Eq)]
pub struct Phrase {
    pub text: &'static str,
    /// `true`: the phrase is looked for in the reply as it was written.
    /// `false`: it is looked for in the lowercase form of the reply.
    pub exact: bool,
}

/// A phrase as the contracts see it.
pub struct PhraseView {
    pub text: Seq<char>,
    pub exact: bool,
}

impl View for Phrase {
    type V = PhraseView;

    open spec fn view(&self) -> PhraseView {
        PhraseView { text: self.text@, exact: self.exact }
    }
}

/// A phrase compared with the reply as written.
pub open spec fn exact(text: Seq<char>) -> PhraseView {
    PhraseView { text, exact: true }
}

/// A phrase compared with the lowercase form of the reply.
pub open spec fn folded(text: Seq<char>) -> PhraseView {
    PhraseView { text, exact: false }
}

impl Phrase {
    /// A phrase compared with the reply as written.
    pub fn exact(text: &'static str) -> (phrase: Phrase)
        ensures
            phrase@ == exact(text@),
    {
        Phrase { text, exact: true }
    }

    /// A phrase compared with the lowercase form of the reply.
    pub fn folded(text: &'static str) -> (phrase: Phrase)
        ensures
            phrase@ == folded(text@),
    {
        Phrase { text, exact: false }
    }
}

/// The phrases that mark a false-positive judgement, in the order in which
/// they are tried.
pub open spec fn phrase_list() -> Seq<PhraseView> {
    seq![
        exact("not a vulnerability"@),
        exact("is not a valid vulnerability"@),
        folded("appears to be a false positive"@),
        folded("is no vulnerability present"@),
        folded("is a false positive"@),
        folded("likely a false positive"@),
        folded("may be a false positive"@),
        folded("seems to be a false positive"@),
        folded("most likely a false positive"@),
        folded("does not contain a vulnerability"@),
        folded("not appear to have a potential vulnerability"@),
        folded("does not seem to have any obvious vulnerability"@),
        folded("does not introduce a vulnerability"@),
        folded("not suggest any security issues"@),
        folded("does not appear to be vulnerable"@),
        folded("does not appear to have any clear vulnerability"@),
        folded("does not appear to have any potential vulnerability"@),
        folded("is not valid in this case"@),
        folded("does not appear to be valid"@),
        folded("does not appear to contain any potential vulnerability"@),
    ]
}

/// The phrase table as data.
pub fn phrase_table() -> (table: Vec<Phrase>)
    ensures
        table@.map_values(|p: Phrase| p@) == phrase_list(),
{
    let table = vec![
        Phrase::exact("not a vulnerability"),
        Phrase::exact("is not a valid vulnerability"),
        Phrase::folded("appears to be a false positive"),
        Phrase::folded("is no vulnerability present"),
        Phrase::folded("is a false positive"),
        Phrase::folded("likely a false positive"),
        Phrase::folded("may be a false positive"),
        Phrase::folded("seems to be a false positive"),
        Phrase::folded("most likely a false positive"),
        Phrase::folded("does not contain a vulnerability"),
        Phrase::folded("not appear to have a potential vulnerability"),
        Phrase::folded("does not seem to have any obvious vulnerability"),
        Phrase::folded("does not introduce a vulnerability"),
        Phrase::folded("not suggest any security issues"),
        Phrase::folded("does not appear to be vulnerable"),
        Phrase::folded("does not appear to have any clear vulnerability"),
        Phrase::folded("does not appear to have any potential vulnerability"),
        Phrase::folded("is not valid in this case"),
        Phrase::folded("does not appear to be valid"),
        Phrase::folded("does not appear to contain any potential vulnerability"),
    ];
    assert(table@.map_values(|p: Phrase| p@) =~= phrase_list());
    table
}

/// The phrase is found: in `text` if it is exact, in `lowered` if not.
pub open spec fn phrase_found(phrase: PhraseView, text: Seq<char>, lowered: Seq<char>) -> bool {
    contains_seq(
        if phrase.exact {
            text
        } else {
            lowered
        },
        phrase.text,
    )
}

/// One of `phrases` is found.
pub open spec fn any_phrase_found(
    phrases: Seq<PhraseView>,
    text: Seq<char>,
    lowered: Seq<char>,
) -> bool {
    exists|i: int| 0 <= i < phrases.len() && #[trigger] phrase_found(phrases[i], text, lowered)
}

/// A reply `text`, with `lowered` as its lowercase form, reads as a
/// false-positive judgement: it is empty, or one of the listed phrases is
/// found.
pub open spec fn reads_as_false_positive(text: Seq<char>, lowered: Seq<char>) -> bool {
    text.len() == 0 || any_phrase_found(phrase_list(), text, lowered)
}

/// The verdict's wording.
pub open spec fn verdict_label(false_positive: bool) -> Seq<char> {
    if false_positive {
        "False positive"@
    } else {
        "Valid"@
    }
}

/// The verdict on a reply.
pub open spec fn verdict_of(text: Seq<char>) -> Seq<char> {
    verdict_label(reads_as_false_positive(text, lowercase_of(text)))
}

/// The verdict on the reply `text`, given `lowered` as its lowercase form.
pub fn classify_reply(text: &str, lowered: &str) -> (verdict: &'static str)
    ensures
        verdict@ == verdict_label(reads_as_false_positive(text@, lowered@)),
{
    let text_chars = chars_of(text);
    if text_chars.len() == 0 {
        return "False positive";
    }
    let lowered_chars = chars_of(lowered);
    let table = phrase_table();
    let ghost phrases = table@.map_values(|p: Phrase| p@);
    let mut i: usize = 0;
    while i < table.len()
        invariant
            text_chars@ == text@,
            lowered_chars@ == lowered@,
            phrases == phrase_list(),
            phrases == table@.map_values(|p: Phrase| p@),
            i <= table@.len(),
            forall|k: int| 0 <= k < i ==> !phrase_found(#[trigger] phrases[k], text@, lowered@),
        decreases table@.len() - i,
    {
        let phrase = &table[i];
        assert(phrases[i as int] == phrase@);
        let needle = chars_of(phrase.text);
        let found = if phrase.exact {
            contains_chars(text_chars.as_slice(), needle.as_slice())
        } else {
            contains_chars(lowered_chars.as_slice(), needle.as_slice())
        };
        if found {
            assert(phrase_found(phrases[i as int], text@, lowered@));
            return "False positive";
        }
        i += 1;
    }
    "Valid"
}

/// The verdict on a model's reply: `"False positive"` when the reply is
/// empty or holds one of the listed phrases, `"Valid"` otherwise.
pub fn analyze_response_text(text: &str) -> (verdict: &'static str)
    ensures
        verdict@ == verdict_of(text@),
{
    let lowered = to_lowercase(text);
    classify_reply(text, lowered.as_str())
}

/// The two verdicts are different texts.
pub proof fn lemma_verdicts_differ()
    ensures
        verdict_label(true) != verdict_label(false),
{
    reveal_strlit("False positive");
    reveal_strlit("Valid");
    assert("False positive"@.len() != "Valid"@.len());
}

/// A reply in which a listed phrase is found is a false positive: an exact
/// phrase found in the reply as written, any other phrase found in the
/// reply's lowercase form.
pub proof fn lemma_phrase_gives_false_positive(text: Seq<char>, i: int)
    requires
        0 <= i < phrase_list().len(),
        phrase_found(phrase_list()[i], text, lowercase_of(text)),
    ensures
        verdict_of(text) == "False positive"@,
{
}

/// The empty reply is a false positive.
pub proof fn lemma_empty_gives_false_positive()
    ensures
        verdict_of(Seq::<char>::empty()) == "False positive"@,
{
}

/// A reply that is not empty and in which no listed phrase is found is
/// valid.
pub proof fn lemma_no_phrase_gives_valid(text: Seq<char>)
    requires
        text.len() > 0,
        forall|i: int|
            0 <= i < phrase_list().len() ==> !#[trigger] phrase_found(
                phrase_list()[i],
                text,
                lowercase_of(text),
            ),
    ensures
        verdict_of(text) == "Valid"@,
{
}

} // verus!
