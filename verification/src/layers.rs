//! Which instance layers to enable.
//!
//! A layer is judged by a label that tells what it is for, its name or its
//! description: it is enabled where the label, in lower case, mentions
//! validation, monitoring or a driver. The layers only instrument the
//! program; none is needed to draw.

use vstd::prelude::*;

verus! {

/// The lower-case form of `text` as `str::to_lowercase` computes it.
pub uninterp spec fn lowercase_of(text: Seq<char>) -> Seq<char>;

/// `needle` stands in `text` from position `start` on.
pub open spec fn occurs_at(needle: Seq<char>, text: Seq<char>, start: int) -> bool {
    &&& 0 <= start
    &&& start + needle.len() <= text.len()
    &&& text.subrange(start, start + needle.len()) == needle
}

/// `needle` stands somewhere in `text`.
pub open spec fn occurs_in(needle: Seq<char>, text: Seq<char>) -> bool {
    exists|start: int| occurs_at(needle, text, start)
}

/// A lower-case label that names one of the three kinds of layer.
pub open spec fn names_instrumentation(lowered: Seq<char>) -> bool {
    ||| occurs_in("validation"@, lowered)
    ||| occurs_in("monitoring"@, lowered)
    ||| occurs_in("driver"@, lowered)
}

/// A layer with this label is enabled.
pub open spec fn wanted(label: Seq<char>) -> bool {
    names_instrumentation(lowercase_of(label))
}

/// `chosen` holds the positions of the wanted labels, each once and in
/// rising order.
pub open spec fn is_selection(labels: Seq<String>, chosen: Seq<usize>) -> bool {
    &&& forall|k: int| 0 <= k < chosen.len() ==> (#[trigger] chosen[k]) < labels.len()
    &&& forall|k: int| 0 <= k < chosen.len() ==> wanted(labels[(#[trigger] chosen[k]) as int]@)
    &&& forall|j: int, k: int|
        0 <= j < k < chosen.len() ==> (#[trigger] chosen[j]) < (#[trigger] chosen[k])
    &&& forall|at: int| 0 <= at < labels.len() && wanted(#[trigger] labels[at]@)
            ==> chosen.contains(at as usize)
}

/// Calls `str::to_lowercase`, which maps every character of the text to its
/// lower-case form as Unicode defines it. The contract only names the result.
#[verifier::external_body]
fn lowercase(text: &str) -> (lowered: String)
    ensures
        lowered@ == lowercase_of(text@),
{
    text.to_lowercase()
}

/// Calls `str::contains` with a string pattern, which tells whether the
/// pattern matches a sub-slice of the text.
#[verifier::external_body]
fn contains_text(text: &str, needle: &str) -> (found: bool)
    ensures
        found == occurs_in(needle@, text@),
{
    text.contains(needle)
}

/// Tells whether a label that is already in lower case mentions validation,
/// monitoring or a driver.
pub fn mentions_instrumentation(lowered: &str) -> (mentioned: bool)
    ensures
        mentioned == names_instrumentation(lowered@),
{
    contains_text(lowered, "validation") || contains_text(lowered, "monitoring")
        || contains_text(lowered, "driver")
}

/// Tells whether a layer with the given label is enabled.
pub fn layer_wanted(label: &str) -> (enabled: bool)
    ensures
        enabled == wanted(label@),
{
    let lowered = lowercase(label);
    mentions_instrumentation(lowered.as_str())
}

/// Picks the layers to enable from the labels of the available ones, and
/// returns their positions in rising order.
pub fn choose_layers(labels: &Vec<String>) -> (chosen: Vec<usize>)
    ensures
        is_selection(labels@, chosen@),
{
    let mut chosen: Vec<usize> = Vec::new();
    for at in 0..labels.len()
        invariant
            is_selection(labels@.take(at as int), chosen@),
    {
        let enabled = layer_wanted(labels[at].as_str());
        proof {
            let seen = labels@.take(at as int);
            let next = labels@.take(at + 1);
            assert(forall|k: int| 0 <= k < seen.len() ==> seen[k] == next[k]);
            assert(next[at as int] == labels@[at as int]);
        }
        if enabled {
            let ghost before = chosen@;
            chosen.push(at);
            proof {
                let next = labels@.take(at + 1);
                assert(forall|k: int| 0 <= k < before.len() ==> chosen@[k] == before[k]);
                assert(chosen@[before.len() as int] == at);
                assert forall|k: int| 0 <= k < next.len() && wanted(#[trigger] next[k]@)
                    implies chosen@.contains(k as usize) by {
                    if k < at {
                        assert(before.contains(k as usize));
                        let slot = choose|slot: int|
                            0 <= slot < before.len() && before[slot] == k as usize;
                        assert(chosen@[slot] == k as usize);
                    } else {
                        assert(chosen@[before.len() as int] == k as usize);
                    }
                }
            }
        }
    }
    proof {
        assert(labels@.take(labels@.len() as int) == labels@);
    }
    chosen
}

} // verus!
