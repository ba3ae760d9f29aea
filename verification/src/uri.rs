//! The link builder: an action and the parameters added to it, in order.

use crate::encoding::percent_encoded;
use crate::parameter::{Parameter, ParameterModel};
use vstd::prelude::*;
use vstd::string::*;

verus! {

/// The parameters as they are written in a link: each as `key=value`, with
/// `&` between one and the next, none before the first or after the last.
pub open spec fn join_parameters(parameters: Seq<ParameterModel>) -> Seq<char>
    decreases parameters.len(),
{
    if parameters.len() == 0 {
        Seq::empty()
    } else if parameters.len() == 1 {
        parameters[0].text()
    } else {
        join_parameters(parameters.drop_last()) + "&"@ + parameters.last().text()
    }
}

/// What a builder stands for: the action, and the parameters in the order in
/// which they were added.
pub struct UriModel {
    pub action: Seq<char>,
    pub parameters: Seq<ParameterModel>,
}

impl UriModel {
    /// A link for `action`, without parameters yet.
    pub open spec fn start(action: Seq<char>) -> UriModel {
        UriModel { action, parameters: Seq::empty() }
    }

    /// The same link with one more parameter, after those it has.
    pub open spec fn with_parameter(self, key: Seq<char>, raw: Seq<char>) -> UriModel {
        UriModel {
            action: self.action,
            parameters: self.parameters.push(ParameterModel { key, raw }),
        }
    }

    /// What follows the `?`: the parameters, joined.
    pub open spec fn query(self) -> Seq<char> {
        join_parameters(self.parameters)
    }

    /// The text of the link. The action is written as given.
    pub open spec fn text(self) -> Seq<char> {
        "obsidian://"@ + self.action + "?"@ + self.query()
    }

    /// Where the query begins in the text: behind the `?`.
    pub open spec fn query_start(self) -> nat {
        "obsidian://"@.len() + self.action.len() + 1
    }
}

/// A link under construction. The action is fixed when the builder is made;
/// parameters are only ever added, and keep the order in which they came.
pub struct ObsidianUri {
    action: String,
    params: Vec<Parameter>,
}

impl View for ObsidianUri {
    type V = UriModel;

    closed spec fn view(&self) -> UriModel {
        UriModel {
            action: self.action@,
            parameters: Seq::new(self.params@.len(), |i: int| self.params@[i]@),
        }
    }
}

impl ObsidianUri {
    /// Starts a link for the given action, which is taken as given: any text
    /// is accepted, and none of it is encoded.
    pub fn action(action: &str) -> (uri: Self)
        ensures
            uri@ == UriModel::start(action@),
    {
        let uri = ObsidianUri { action: action.to_string(), params: Vec::new() };
        assert(uri@.parameters =~= Seq::empty());
        uri
    }

    /// Adds a parameter after those already there. The value is
    /// percent-encoded, the key is taken as given; a key may occur twice.
    pub fn add_parameter(self, param: String, value: String) -> (uri: Self)
        ensures
            uri@ == self@.with_parameter(param@, value@),
    {
        let mut uri = self;
        let p = Parameter::new(param, value);
        uri.params.push(p);
        assert(uri@.parameters =~= self@.parameters.push(p@));
        uri
    }

    /// The text of the link: `obsidian://`, the action, `?`, and the
    /// parameters in the order in which they were added, joined by `&`. With
    /// no parameter the text ends in the `?`.
    pub fn build(self) -> (text: String)
        ensures
            text@ == self@.text(),
    {
        let mut text = "obsidian://".to_string();
        text.append(self.action.as_str());
        text.append("?");
        let ghost head = text@;
        let mut i: usize = 0;
        while i < self.params.len()
            invariant
                i <= self.params.len(),
                text@ == head + join_parameters(self@.parameters.take(i as int)),
            decreases self.params.len() - i,
        {
            if i > 0 {
                text.append("&");
            }
            let rendered = self.params[i].to_string();
            text.append(rendered.as_str());
            proof {
                let done = self@.parameters.take(i + 1);
                assert(done.drop_last() =~= self@.parameters.take(i as int));
            }
            i += 1;
        }
        assert(self@.parameters.take(i as int) =~= self@.parameters);
        text
    }
}

/// A link without parameters is `obsidian://`, the action and a bare `?`.
pub proof fn lemma_text_without_parameters(action: Seq<char>)
    ensures
        UriModel::start(action).text() == "obsidian://"@ + action + "?"@,
{
}

/// A link with one parameter is `obsidian://`, the action, `?`, the key as
/// given, `=` and the encoded value.
pub proof fn lemma_text_with_one_parameter(action: Seq<char>, key: Seq<char>, raw: Seq<char>)
    ensures
        UriModel::start(action).with_parameter(key, raw).text() == "obsidian://"@ + action + "?"@
            + key + "="@ + percent_encoded(raw),
{
}

/// Adding a parameter leaves the text so far in place and writes the new pair
/// after it, with `&` in between unless the pair is the first.
pub proof fn lemma_text_after_adding(link: UriModel, key: Seq<char>, raw: Seq<char>)
    ensures
        link.with_parameter(key, raw).text() == link.text() + (if link.parameters.len() == 0 {
            Seq::<char>::empty()
        } else {
            "&"@
        }) + key + "="@ + percent_encoded(raw),
{
    assert(link.with_parameter(key, raw).parameters.drop_last() =~= link.parameters);
}

} // verus!
