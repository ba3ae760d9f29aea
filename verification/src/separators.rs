//! The `&` and `=` of a link: how many there are, and where they come from.

use crate::encoding::{lemma_encoded_chars, percent_encoded};
use crate::parameter::ParameterModel;
use crate::uri::{join_parameters, UriModel};
use vstd::prelude::*;
use vstd::utf8::*;

verus! {

/// How often `c` occurs in `text`.
pub open spec fn occurrences(text: Seq<char>, c: char) -> nat
    decreases text.len(),
{
    if text.len() == 0 {
        0
    } else {
        occurrences(text.drop_last(), c) + if text.last() == c {
            1nat
        } else {
            0nat
        }
    }
}

/// A character occurs in two texts put together as often as in both.
proof fn lemma_occurrences_concat(front: Seq<char>, back: Seq<char>, c: char)
    ensures
        occurrences(front + back, c) == occurrences(front, c) + occurrences(back, c),
    decreases back.len(),
{
    if back.len() == 0 {
        assert(front + back =~= front);
    } else {
        assert((front + back).drop_last() =~= front + back.drop_last());
        lemma_occurrences_concat(front, back.drop_last(), c);
    }
}

/// A character that a text does not hold occurs in it no times.
proof fn lemma_occurrences_absent(text: Seq<char>, c: char)
    requires
        !text.contains(c),
    ensures
        occurrences(text, c) == 0,
    decreases text.len(),
{
    if text.len() > 0 {
        lemma_occurrences_absent(text.drop_last(), c);
    }
}

/// In a text of one character, that character occurs once and no other.
proof fn lemma_occurrences_in_one(text: Seq<char>, c: char)
    requires
        text.len() == 1,
    ensures
        occurrences(text, c) == if text[0] == c {
            1nat
        } else {
            0nat
        },
{
    assert(occurrences(text.drop_last(), c) == 0);
}

/// An encoded value holds neither `&` nor `=`.
proof fn lemma_value_holds_no_separator(raw: Seq<char>)
    ensures
        !percent_encoded(raw).contains('&'),
        !percent_encoded(raw).contains('='),
{
    lemma_encoded_chars(encode_utf8(raw));
}

/// In the joined parameters, where no key holds `&` or `=`, there is one `=`
/// for each parameter and one `&` between each two.
proof fn lemma_separators_in_query(parameters: Seq<ParameterModel>)
    requires
        forall|i: int|
            0 <= i < parameters.len() ==> !(#[trigger] parameters[i]).key.contains('&')
                && !parameters[i].key.contains('='),
    ensures
        occurrences(join_parameters(parameters), '=') == parameters.len(),
        occurrences(join_parameters(parameters), '&') == if parameters.len() == 0 {
            0
        } else {
            parameters.len() - 1
        },
    decreases parameters.len(),
{
    reveal_strlit("&");
    reveal_strlit("=");
    if parameters.len() > 0 {
        let last = parameters.last();
        lemma_value_holds_no_separator(last.raw);
        lemma_occurrences_absent(last.key, '&');
        lemma_occurrences_absent(last.key, '=');
        lemma_occurrences_absent(last.value(), '&');
        lemma_occurrences_absent(last.value(), '=');
        lemma_occurrences_in_one("="@, '&');
        lemma_occurrences_in_one("="@, '=');
        lemma_occurrences_in_one("&"@, '&');
        lemma_occurrences_in_one("&"@, '=');
        lemma_occurrences_concat(last.key, "="@, '&');
        lemma_occurrences_concat(last.key, "="@, '=');
        lemma_occurrences_concat(last.key + "="@, last.value(), '&');
        lemma_occurrences_concat(last.key + "="@, last.value(), '=');
        if parameters.len() > 1 {
            let before = join_parameters(parameters.drop_last());
            lemma_separators_in_query(parameters.drop_last());
            lemma_occurrences_concat(before, "&"@, '&');
            lemma_occurrences_concat(before, "&"@, '=');
            lemma_occurrences_concat(before + "&"@, last.text(), '&');
            lemma_occurrences_concat(before + "&"@, last.text(), '=');
        }
    }
}

/// Every `&` and `=` of a link is one that the builder wrote, as long as the
/// action and the keys hold none: the text then has one `=` for each
/// parameter and one `&` between each two, whatever the values hold.
pub proof fn lemma_separators_are_structural(link: UriModel)
    requires
        !link.action.contains('&'),
        !link.action.contains('='),
        forall|i: int|
            0 <= i < link.parameters.len() ==> !(#[trigger] link.parameters[i]).key.contains('&')
                && !link.parameters[i].key.contains('='),
    ensures
        occurrences(link.text(), '=') == link.parameters.len(),
        occurrences(link.text(), '&') == if link.parameters.len() == 0 {
            0
        } else {
            link.parameters.len() - 1
        },
{
    reveal_strlit("obsidian://");
    reveal_strlit("?");
    let scheme = "obsidian://"@;
    lemma_occurrences_absent(scheme, '&');
    lemma_occurrences_absent(scheme, '=');
    lemma_occurrences_absent(link.action, '&');
    lemma_occurrences_absent(link.action, '=');
    lemma_occurrences_absent("?"@, '&');
    lemma_occurrences_absent("?"@, '=');
    lemma_separators_in_query(link.parameters);
    lemma_occurrences_concat(scheme, link.action, '&');
    lemma_occurrences_concat(scheme, link.action, '=');
    lemma_occurrences_concat(scheme + link.action, "?"@, '&');
    lemma_occurrences_concat(scheme + link.action, "?"@, '=');
    lemma_occurrences_concat(scheme + link.action + "?"@, link.query(), '&');
    lemma_occurrences_concat(scheme + link.action + "?"@, link.query(), '=');
}

} // verus!
