//! What surrounds the grid on the page: the controls that lead from week to
//! week, and the requests that the page makes while it loads.

use crate::decimal::{decimal_digits, push_decimal};
use crate::text::{chars_of, contains, has, string_of, texts};
use vstd::prelude::*;

verus! {

/// The label by which a pagination control names the week `iso_week`: the
/// week number in round brackets.
pub open spec fn week_label(iso_week: nat) -> Seq<char> {
    seq!['('] + decimal_digits(iso_week) + seq![')']
}

/// The label of the control that leads to the week `iso_week`.
pub fn label_of_week(iso_week: u32) -> (label: String)
    ensures
        label@ == week_label(iso_week as nat),
{
    let mut chars: Vec<char> = Vec::new();
    chars.push('(');
    push_decimal(iso_week, &mut chars);
    chars.push(')');
    string_of(&chars)
}

/// The first of `captions` in which `label` occurs, if there is one.
pub open spec fn first_with_label(captions: Seq<Seq<char>>, label: Seq<char>) -> Option<int>
    decreases captions.len(),
{
    if captions.len() == 0 {
        None
    } else {
        match first_with_label(captions.drop_last(), label) {
            Some(i) => Some(i),
            None => if contains(captions.last(), label) {
                Some(captions.len() - 1)
            } else {
                None
            },
        }
    }
}

/// What `first_with_label` finds is a caption that holds the label, with none
/// before it that does; where it finds none, no caption holds the label.
pub proof fn lemma_first_with_label(captions: Seq<Seq<char>>, label: Seq<char>)
    ensures
        match first_with_label(captions, label) {
            Some(i) => 0 <= i < captions.len() && contains(captions[i], label) && forall|j: int|
                0 <= j < i ==> !contains(#[trigger] captions[j], label),
            None => forall|j: int|
                0 <= j < captions.len() ==> !contains(#[trigger] captions[j], label),
        },
    decreases captions.len(),
{
    if captions.len() > 0 {
        lemma_first_with_label(captions.drop_last(), label);
        match first_with_label(captions.drop_last(), label) {
            Some(i) => {
                assert forall|j: int| 0 <= j < i implies !contains(
                    #[trigger] captions[j],
                    label,
                ) by {
                    assert(captions.drop_last()[j] == captions[j]);
                }
            },
            None => {
                assert forall|j: int| 0 <= j < captions.len() - 1 implies !contains(
                    #[trigger] captions[j],
                    label,
                ) by {
                    assert(captions.drop_last()[j] == captions[j]);
                }
            },
        }
    }
}

/// Finds the pagination control to activate: the position of the first of
/// `captions`, the texts of the page's controls, in which `label` occurs.
/// `None` where the page has no such control.
pub fn find_week_control(captions: &Vec<String>, label: &str) -> (found: Option<usize>)
    ensures
        match first_with_label(texts(captions@), label@) {
            Some(i) => found == Some(i as usize),
            None => found is None,
        },
{
    let wanted = chars_of(label);
    let ghost all = texts(captions@);
    let mut i: usize = 0;
    while i < captions.len()
        invariant
            i <= captions.len(),
            all == texts(captions@),
            wanted@ == label@,
            first_with_label(all.take(i as int), label@) is None,
        decreases captions.len() - i,
    {
        assert(all.take(i + 1).drop_last() =~= all.take(i as int));
        let caption = chars_of(captions[i].as_str());
        if has(&caption, &wanted) {
            proof {
                lemma_first_with_label_extends(all, label@, i + 1);
            }
            return Some(i);
        }
        i += 1;
    }
    assert(all.take(captions.len() as int) =~= all);
    None
}

/// Once a caption with the label is found among the first `n`, it stays the
/// one found however many captions follow.
pub proof fn lemma_first_with_label_extends(captions: Seq<Seq<char>>, label: Seq<char>, n: int)
    requires
        0 <= n <= captions.len(),
        first_with_label(captions.take(n), label) is Some,
    ensures
        first_with_label(captions, label) == first_with_label(captions.take(n), label),
    decreases captions.len() - n,
{
    if n == captions.len() {
        assert(captions.take(n) =~= captions);
    } else {
        assert(captions.take(n + 1).drop_last() =~= captions.take(n));
        lemma_first_with_label_extends(captions, label, n + 1);
    }
}

/// Whether a request is one for a style sheet, going by its `Accept` header:
/// it is where the header is there and names `text/css`.
pub open spec fn asks_for_style_sheet(accept: Option<Seq<char>>) -> bool {
    match accept {
        Some(value) => contains(value, "text/css"@),
        None => false,
    }
}

/// Whether to answer a request with an empty response in place of letting it
/// through: style sheets are not needed for decoding.
pub fn blocks_request(accept: Option<&str>) -> (blocked: bool)
    ensures
        blocked == asks_for_style_sheet(
            match accept {
                Some(value) => Some(value@),
                None => None,
            },
        ),
{
    match accept {
        Some(value) => has(&chars_of(value), &chars_of("text/css")),
        None => false,
    }
}

} // verus!
