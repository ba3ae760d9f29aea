//! Where the parameters stand in the text of a link.

use crate::parameter::ParameterModel;
use crate::uri::{join_parameters, UriModel};
use vstd::prelude::*;

verus! {

/// Where the parameter at `index` begins in the joined text: behind the
/// parameters before it and one separator for each.
pub open spec fn parameter_start(parameters: Seq<ParameterModel>, index: int) -> int
    decreases index,
{
    if index <= 0 {
        0
    } else {
        parameter_start(parameters, index - 1) + parameters[index - 1].text().len() + 1
    }
}

/// Where a parameter begins depends only on the parameters before it, and
/// each parameter begins behind the one before.
proof fn lemma_start_ignores_later(parameters: Seq<ParameterModel>, kept: int, index: int)
    requires
        0 <= index <= kept <= parameters.len(),
    ensures
        parameter_start(parameters.take(kept), index) == parameter_start(parameters, index),
        parameter_start(parameters, index) >= index,
    decreases index,
{
    if index > 0 {
        lemma_start_ignores_later(parameters, kept, index - 1);
    }
}

/// The joined text ends where a further parameter's separator would stand.
proof fn lemma_join_len(parameters: Seq<ParameterModel>)
    requires
        parameters.len() > 0,
    ensures
        join_parameters(parameters).len() + 1 == parameter_start(
            parameters,
            parameters.len() as int,
        ),
    decreases parameters.len(),
{
    let count = parameters.len() as int;
    if count == 1 {
        assert(parameter_start(parameters, 1) == parameter_start(parameters, 0)
            + parameters[0].text().len() + 1);
    } else {
        reveal_strlit("&");
        lemma_join_len(parameters.drop_last());
        lemma_start_ignores_later(parameters, count - 1, count - 1);
    }
}

/// Where each parameter stands in the joined text: the first at the
/// beginning, each later one right behind an `&`, the last up to the end.
proof fn lemma_join_places_parameters(parameters: Seq<ParameterModel>, index: int)
    requires
        0 <= index < parameters.len(),
    ensures
        ({
            let joined = join_parameters(parameters);
            let start = parameter_start(parameters, index);
            let end = start + parameters[index].text().len();
            &&& 0 <= start <= end <= joined.len()
            &&& joined.subrange(start, end) == parameters[index].text()
            &&& index > 0 ==> start > 0 && joined[start - 1] == '&'
            &&& index == parameters.len() - 1 ==> end == joined.len()
        }),
    decreases parameters.len(),
{
    let count = parameters.len() as int;
    let joined = join_parameters(parameters);
    let start = parameter_start(parameters, index);
    let own = parameters[index].text();
    if count == 1 {
        assert(joined.subrange(0, own.len() as int) =~= own);
    } else {
        reveal_strlit("&");
        let before = parameters.drop_last();
        let joined_before = join_parameters(before);
        lemma_join_len(before);
        lemma_start_ignores_later(parameters, count - 1, count - 1);
        if index == count - 1 {
            assert(joined.subrange(start, start + own.len()) =~= own);
        } else {
            lemma_join_places_parameters(before, index);
            lemma_start_ignores_later(parameters, count - 1, index);
            if index > 0 {
                lemma_start_ignores_later(parameters, count - 1, index - 1);
            }
            assert(joined.subrange(start, start + own.len()) =~= joined_before.subrange(
                start,
                start + own.len(),
            ));
        }
    }
}

/// The parameters stand in the text of a link in the order in which they
/// were added. The first begins right behind the `?`, each later one right
/// behind an `&` that follows the one before, and the text ends with the
/// last: no `&` leads or trails.
pub proof fn lemma_parameters_in_order(link: UriModel, index: int)
    requires
        0 <= index < link.parameters.len(),
    ensures
        ({
            let text = link.text();
            let start = link.query_start() + parameter_start(link.parameters, index);
            let end = start + link.parameters[index].text().len();
            let previous = link.parameters[index - 1].text();
            let previous_start = link.query_start() + parameter_start(link.parameters, index - 1);
            &&& 0 < start <= end <= text.len()
            &&& text.subrange(start, end) == link.parameters[index].text()
            &&& index == 0 ==> start == link.query_start() && text[start - 1] == '?'
            &&& index > 0 ==> start - 1 == previous_start + previous.len() && text[start - 1]
                == '&'
            &&& index == link.parameters.len() - 1 ==> end == text.len()
        }),
{
    reveal_strlit("?");
    lemma_join_places_parameters(link.parameters, index);
    let head = "obsidian://"@ + link.action + "?"@;
    let own = link.parameters[index].text();
    let at = parameter_start(link.parameters, index);
    assert(link.text().subrange(head.len() + at, head.len() + at + own.len())
        =~= link.query().subrange(at, at + own.len()));
}

} // verus!
