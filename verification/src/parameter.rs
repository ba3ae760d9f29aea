//! One `key=value` pair of a link's query.

use crate::encoding::{
    encode_component, lemma_percent_encoded_round_trip, percent_decode, percent_encoded,
};
use vstd::prelude::*;
use vstd::string::*;
use vstd::utf8::*;

verus! {

/// What a parameter stands for: its key and the raw value it was made from.
pub struct ParameterModel {
    pub key: Seq<char>,
    pub raw: Seq<char>,
}

impl ParameterModel {
    /// The value as it is written in a link.
    pub open spec fn value(self) -> Seq<char> {
        percent_encoded(self.raw)
    }

    /// The pair as it is written in a link: the key as given, `=`, and the
    /// encoded value.
    pub open spec fn text(self) -> Seq<char> {
        self.key + "="@ + self.value()
    }
}

/// A key and its value. The value is percent-encoded when the parameter is
/// made and kept in that form; the key is kept as given.
#[derive(Debug)]
pub struct Parameter {
    parameter: String,
    value: String,
}

impl View for Parameter {
    type V = ParameterModel;

    closed spec fn view(&self) -> ParameterModel {
        ParameterModel { key: self.parameter@, raw: decode_utf8(percent_decode(self.value@)) }
    }
}

impl Parameter {
    /// The stored value is the encoded form of the raw value.
    #[verifier::type_invariant]
    spec fn value_is_encoded(self) -> bool {
        self.value@ == self@.value()
    }

    /// Makes a parameter from a key and a raw value. Any two strings are
    /// accepted, empty ones too.
    pub fn new(parameter: String, value: String) -> (made: Self)
        ensures
            made@ == (ParameterModel { key: parameter@, raw: value@ }),
    {
        let encoded = encode_component(value.as_str());
        proof {
            lemma_percent_encoded_round_trip(value@);
        }
        Parameter { parameter, value: encoded }
    }

    /// The parameter as `key=value`, the value in its encoded form.
    pub fn to_string(&self) -> (text: String)
        ensures
            text@ == self@.text(),
    {
        proof {
            use_type_invariant(self);
        }
        let mut text = self.parameter.clone();
        text.append("=");
        text.append(self.value.as_str());
        text
    }
}

} // verus!
