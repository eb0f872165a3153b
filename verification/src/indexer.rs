//! The processing rules: which messages are fit for storage, and how their
//! text is normalised on the way there.

use vstd::prelude::*;
use vstd::std_specs::iter::IteratorSpec;
use crate::errors::{ErrorView, IndexerError};
use crate::models::{Message, MessageView};
use crate::storage::{outcome_view, Storage};
use crate::text::{alphanumeric, lowercase};

verus! {

/// What the rules decide about one message.
pub enum Verdict {
    /// The message is turned down for the reason given. Nothing is stored.
    Reject(ErrorView),
    /// The message given is handed to the storage backend.
    Store(MessageView),
}

/// The status codes of a successful crawl. Only pages fetched with one of
/// these are stored.
pub open spec fn accepted_status_codes() -> Set<u16> {
    set![200u16, 201u16, 203u16]
}

/// The text as it is stored: in lower case.
pub open spec fn normalized_text(text: Seq<char>) -> Seq<char> {
    lowercase(text)
}

/// Whether normalising a text leaves it as it is.
pub open spec fn is_normalized(text: Seq<char>) -> bool {
    normalized_text(text) == text
}

/// The message as it is stored: the text normalised, everything else kept.
pub open spec fn normalized(message: MessageView) -> MessageView {
    MessageView {
        url: message.url,
        text: normalized_text(message.text),
        metadata: message.metadata,
    }
}

/// The rules, in the order in which they are applied: an empty URL or text
/// is turned down first, then a status code outside the accepted set; what
/// is left is stored in normalised form.
pub open spec fn rule_verdict(message: MessageView) -> Verdict {
    if message.url.len() == 0 || message.text.len() == 0 {
        Verdict::Reject(ErrorView::InvalidMessage("URL or text empty."@))
    } else if !accepted_status_codes().contains(message.metadata.status_code) {
        Verdict::Reject(ErrorView::InvalidMessage("Invalid status code"@))
    } else {
        Verdict::Store(normalized(message))
    }
}

/// Whether a verdict was carried out: a message that is turned down leaves
/// the backend as it was and is reported with its reason; one that is to be
/// stored is handed to the backend, whose report is the outcome.
pub open spec fn carried_out<S: Storage>(
    verdict: Verdict,
    before: S,
    after: S,
    outcome: Result<(), ErrorView>,
) -> bool {
    match verdict {
        Verdict::Reject(reason) => outcome == Err::<(), ErrorView>(reason) && after == before,
        Verdict::Store(stored) => S::store_outcome(before, stored, after, outcome),
    }
}

/// Normalising a text that is in normalised form already gives the same text.
pub proof fn lemma_normalized_text_is_kept(text: Seq<char>)
    requires
        is_normalized(text),
    ensures
        normalized_text(text) == text,
        normalized_text(normalized_text(text)) == text,
{
}

/// Tells whether a status code is one of the accepted ones.
pub fn is_accepted_status(status_code: u16) -> (accepted: bool)
    ensures
        accepted == accepted_status_codes().contains(status_code),
{
    status_code == 200 || status_code == 201 || status_code == 203
}

/// Brings a text into the form in which it is stored.
pub fn normalize_text(text: &str) -> (lowered: String)
    ensures
        lowered@ == normalized_text(text@),
        is_normalized(text@) ==> lowered@ == text@,
{
    text.to_lowercase()
}

/// Holds a message to the rules and returns it in the form in which it is to
/// be stored, or the reason for which it is turned down.
pub fn check_message(message: &Message) -> (checked: Result<Message, IndexerError>)
    ensures
        match rule_verdict(message@) {
            Verdict::Reject(reason) => checked matches Err(e) && e@ == reason,
            Verdict::Store(stored) => checked matches Ok(m) && m@ == stored,
        },
{
    if message.url.as_str().is_empty() || message.text.as_str().is_empty() {
        return Err(IndexerError::InvalidMessage("URL or text empty.".to_owned()));
    }
    if !is_accepted_status(message.metadata.status_code) {
        return Err(IndexerError::InvalidMessage("Invalid status code".to_owned()));
    }
    let normalized_text = normalize_text(message.text.as_str());
    Ok(Message {
        url: message.url.clone(),
        text: normalized_text,
        metadata: message.metadata.clone(),
    })
}

/// Processes one message: holds it to the rules and, if it passes, stores it
/// in normalised form.
///
/// A message that the rules turn down never reaches the backend, which is
/// left as it was. For one that passes, the backend is called once with the
/// normalised message, and its report is returned unchanged.
pub fn process_message<S: Storage>(storage: &mut S, message: &Message) -> (outcome: Result<
    (),
    IndexerError,
>)
    ensures
        carried_out(rule_verdict(message@), *old(storage), *final(storage), outcome_view(outcome)),
{
    match check_message(message) {
        Err(reason) => Err(reason),
        Ok(checked) => storage.store(&checked),
    }
}

/// The number of alphanumeric characters with which a text begins.
pub open spec fn run_length(text: Seq<char>) -> nat
    decreases text.len(),
{
    if text.len() == 0 || !alphanumeric(text[0]) {
        0
    } else {
        1 + run_length(text.drop_first())
    }
}

/// The tokens of a text: its maximal runs of alphanumeric characters, in the
/// order in which they stand. Whatever stands between two runs is dropped.
pub open spec fn tokens_of(text: Seq<char>) -> Seq<Seq<char>>
    decreases text.len(),
    via tokens_of_decreases
{
    if text.len() == 0 {
        Seq::empty()
    } else if !alphanumeric(text[0]) {
        tokens_of(text.drop_first())
    } else {
        seq![text.take(run_length(text) as int)] + tokens_of(text.skip(run_length(text) as int))
    }
}

#[via_fn]
proof fn tokens_of_decreases(text: Seq<char>) {
    lemma_run_length_bounds(text);
}

/// A run is never longer than the text, and not empty where the text begins
/// with an alphanumeric character.
pub proof fn lemma_run_length_bounds(text: Seq<char>)
    ensures
        run_length(text) <= text.len(),
        text.len() > 0 && alphanumeric(text[0]) ==> run_length(text) >= 1,
    decreases text.len(),
{
    if text.len() > 0 && alphanumeric(text[0]) {
        lemma_run_length_bounds(text.drop_first());
    }
}

/// Every character of the run with which a text begins is alphanumeric, and
/// the run ends at the end of the text or before a character that is not.
pub proof fn lemma_run_is_maximal(text: Seq<char>)
    ensures
        run_length(text) <= text.len(),
        forall|k: int| 0 <= k < run_length(text) ==> alphanumeric(#[trigger] text[k]),
        run_length(text) < text.len() ==> !alphanumeric(text[run_length(text) as int]),
    decreases text.len(),
{
    if text.len() > 0 && alphanumeric(text[0]) {
        let rest = text.drop_first();
        lemma_run_is_maximal(rest);
        assert forall|k: int| 0 <= k < run_length(text) implies alphanumeric(
            #[trigger] text[k],
        ) by {
            if k > 0 {
                assert(text[k] == rest[k - 1]);
            }
        }
        if run_length(text) < text.len() {
            assert(text[run_length(text) as int] == rest[run_length(rest) as int]);
        }
    }
}

/// A stretch of alphanumeric characters at the start of a text that ends at
/// the end of the text, or before a character that is not alphanumeric, is
/// the run with which the text begins.
pub proof fn lemma_run_length_is(text: Seq<char>, n: int)
    requires
        0 <= n <= text.len(),
        forall|k: int| 0 <= k < n ==> alphanumeric(#[trigger] text[k]),
        n < text.len() ==> !alphanumeric(text[n]),
    ensures
        run_length(text) == n,
    decreases n,
{
    if n > 0 {
        let rest = text.drop_first();
        assert forall|k: int| 0 <= k < n - 1 implies alphanumeric(#[trigger] rest[k]) by {
            assert(rest[k] == text[k + 1]);
        }
        if n - 1 < rest.len() {
            assert(rest[n - 1] == text[n]);
        }
        lemma_run_length_is(rest, n - 1);
    }
}

/// No token is empty, and every character of every token is alphanumeric.
pub proof fn lemma_tokens_are_alphanumeric(text: Seq<char>)
    ensures
        forall|i: int|
            0 <= i < tokens_of(text).len() ==> (#[trigger] tokens_of(text)[i]).len() > 0,
        forall|i: int, j: int|
            0 <= i < tokens_of(text).len() && 0 <= j < tokens_of(text)[i].len() ==> alphanumeric(
                #[trigger] tokens_of(text)[i][j],
            ),
    decreases text.len(),
{
    let tokens = tokens_of(text);
    if text.len() == 0 {
        assert(tokens.len() == 0);
    } else if !alphanumeric(text[0]) {
        lemma_tokens_are_alphanumeric(text.drop_first());
        assert(tokens == tokens_of(text.drop_first()));
    } else {
        let n = run_length(text) as int;
        lemma_run_length_bounds(text);
        lemma_run_is_maximal(text);
        let first = text.take(n);
        let rest = tokens_of(text.skip(n));
        lemma_tokens_are_alphanumeric(text.skip(n));
        assert(tokens == seq![first] + rest);
        assert forall|i: int| 0 <= i < tokens.len() implies (#[trigger] tokens[i]).len() > 0 by {
            if i > 0 {
                assert(tokens[i] == rest[i - 1]);
            } else {
                assert(tokens[0] == first);
            }
        }
        assert forall|i: int, j: int|
            0 <= i < tokens.len() && 0 <= j < tokens[i].len() implies alphanumeric(
            #[trigger] tokens[i][j],
        ) by {
            if i > 0 {
                assert(tokens[i] == rest[i - 1]);
                assert(alphanumeric(rest[i - 1][j]));
            } else {
                assert(tokens[0] == first);
                assert(first[j] == text[j]);
            }
        }
    }
}

/// Where a run of alphanumeric characters from `start` ends before a
/// separator at `at`, the tokens from `start` on are that run, if it is not
/// empty, and then the tokens behind the separator.
pub proof fn lemma_tokens_before_separator(text: Seq<char>, start: int, at: int)
    requires
        0 <= start <= at < text.len(),
        forall|k: int| start <= k < at ==> alphanumeric(#[trigger] text[k]),
        !alphanumeric(text[at]),
    ensures
        start == at ==> tokens_of(text.skip(start)) == tokens_of(text.skip(at + 1)),
        start < at ==> tokens_of(text.skip(start)) == seq![text.subrange(start, at)] + tokens_of(
            text.skip(at + 1),
        ),
{
    let from_separator = text.skip(at);
    assert(from_separator[0] == text[at]);
    assert(from_separator.drop_first() =~= text.skip(at + 1));
    if start < at {
        let tail = text.skip(start);
        let n = at - start;
        assert forall|k: int| 0 <= k < n implies alphanumeric(#[trigger] tail[k]) by {
            assert(tail[k] == text[start + k]);
        }
        assert(tail[n] == text[at]);
        lemma_run_length_is(tail, n);
        assert(tail.take(n) =~= text.subrange(start, at));
        assert(tail.skip(n) =~= from_separator);
        assert(alphanumeric(tail[0]));
        assert(tokens_of(tail) == seq![tail.take(n)] + tokens_of(tail.skip(n)));
        assert(tokens_of(from_separator) == tokens_of(from_separator.drop_first()));
    } else {
        assert(text.skip(start) =~= from_separator);
        assert(tokens_of(from_separator) == tokens_of(from_separator.drop_first()));
    }
}

/// Where every character from `start` on is alphanumeric, the tokens from
/// `start` on are that one run, if it is not empty.
pub proof fn lemma_tokens_of_last_run(text: Seq<char>, start: int)
    requires
        0 <= start <= text.len(),
        forall|k: int| start <= k < text.len() ==> alphanumeric(#[trigger] text[k]),
    ensures
        start == text.len() ==> tokens_of(text.skip(start)) == Seq::<Seq<char>>::empty(),
        start < text.len() ==> tokens_of(text.skip(start)) == seq![
            text.subrange(start, text.len() as int),
        ],
{
    let tail = text.skip(start);
    if start < text.len() {
        let n = text.len() - start;
        assert forall|k: int| 0 <= k < n implies alphanumeric(#[trigger] tail[k]) by {
            assert(tail[k] == text[start + k]);
        }
        lemma_run_length_is(tail, n);
        assert(tail.take(n) =~= text.subrange(start, text.len() as int));
        assert(tail.skip(n).len() == 0);
        assert(alphanumeric(tail[0]));
        assert(tokens_of(tail) == seq![tail.take(n)] + tokens_of(tail.skip(n)));
        assert(tokens_of(tail.skip(n)) =~= Seq::<Seq<char>>::empty());
        assert(tokens_of(tail) =~= seq![text.subrange(start, text.len() as int)]);
    } else {
        assert(tail.len() == 0);
    }
}

/// The texts of a list of strings.
pub open spec fn texts_of(strings: Seq<String>) -> Seq<Seq<char>> {
    strings.map_values(|s: String| s@)
}

/// Splits a text into its tokens: the maximal runs of alphanumeric
/// characters. Punctuation and white space separate tokens and are dropped,
/// so no token is empty and every token is alphanumeric throughout.
pub fn tokenize(text: &str) -> (tokens: Vec<String>)
    ensures
        texts_of(tokens@) == tokens_of(text@),
        forall|i: int| 0 <= i < tokens.len() ==> (#[trigger] tokens[i])@.len() > 0,
        forall|i: int, j: int|
            0 <= i < tokens.len() && 0 <= j < tokens[i]@.len() ==> alphanumeric(
                #[trigger] tokens[i]@[j],
            ),
{
    broadcast use vstd::string::group_string_axioms;

    let mut tokens: Vec<String> = Vec::new();
    let mut current = String::new();
    let mut chars = text.chars();
    let ghost mut start: int = 0;
    let ghost mut at: int = 0;
    assert(texts_of(tokens@) =~= Seq::<Seq<char>>::empty());
    assert(text@.skip(0) =~= text@);
    loop
        invariant
            0 <= start <= at <= text@.len(),
            chars.remaining() == text@.skip(at),
            current@ == text@.subrange(start, at),
            forall|k: int| start <= k < at ==> alphanumeric(#[trigger] text@[k]),
            texts_of(tokens@) + tokens_of(text@.skip(start)) == tokens_of(text@),
        ensures
            at == text@.len(),
        decreases text@.len() - at,
    {
        let ghost stored = texts_of(tokens@);
        match chars.next() {
            None => {
                break ;
            },
            Some(c) => {
                assert(c == text@.skip(at)[0]);
                assert(chars.remaining() =~= text@.skip(at + 1));
                if c.is_alphanumeric() {
                    current.push(c);
                    proof {
                        at = at + 1;
                    }
                    assert(current@ =~= text@.subrange(start, at));
                } else {
                    proof {
                        lemma_tokens_before_separator(text@, start, at);
                    }
                    if !current.as_str().is_empty() {
                        tokens.push(current);
                        current = String::new();
                        assert(texts_of(tokens@) =~= stored.push(text@.subrange(start, at)));
                        assert(texts_of(tokens@) + tokens_of(text@.skip(at + 1)) =~= stored + (
                        seq![text@.subrange(start, at)] + tokens_of(text@.skip(at + 1))));
                    }
                    proof {
                        at = at + 1;
                        start = at;
                    }
                    assert(current@ =~= text@.subrange(start, at));
                }
            },
        }
    }
    let ghost stored = texts_of(tokens@);
    proof {
        lemma_tokens_of_last_run(text@, start);
    }
    if !current.as_str().is_empty() {
        tokens.push(current);
        assert(texts_of(tokens@) =~= stored.push(text@.subrange(start, at)));
        assert(texts_of(tokens@) =~= stored + seq![text@.subrange(start, at)]);
    } else {
        assert(stored + Seq::<Seq<char>>::empty() =~= stored);
    }
    proof {
        lemma_tokens_are_alphanumeric(text@);
        assert forall|i: int| 0 <= i < tokens.len() implies (#[trigger] tokens[i])@
            == tokens_of(text@)[i] by {
            assert(texts_of(tokens@)[i] == tokens@[i]@);
        }
    }
    tokens
}

} // verus!
