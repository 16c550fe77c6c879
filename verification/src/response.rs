//! What an entry point of the contract hands back to the chain.

use vstd::prelude::*;
use crate::chain_msg::StructUmeeMsg;

verus! {

/// A pair of texts that the chain records with the call.
#[derive(Clone, Debug, PartialEq)]
pub struct Attribute {
    pub key: String,
    pub value: String,
}

impl View for Attribute {
    type V = (Seq<char>, Seq<char>);

    open spec fn view(&self) -> (Seq<char>, Seq<char>) {
        (self.key@, self.value@)
    }
}

/// The messages that the chain is to execute after the call, in order, and
/// the attributes that it is to record.
#[derive(Clone, Debug, PartialEq)]
pub struct Response {
    pub messages: Vec<StructUmeeMsg>,
    pub attributes: Vec<Attribute>,
}

/// A [`Response`] as two sequences, each attribute as a pair of texts.
#[verifier::ext_equal]
pub struct ResponseView {
    pub messages: Seq<StructUmeeMsg>,
    pub attributes: Seq<(Seq<char>, Seq<char>)>,
}

impl View for Response {
    type V = ResponseView;

    open spec fn view(&self) -> ResponseView {
        ResponseView {
            messages: self.messages@,
            attributes: Seq::new(self.attributes@.len(), |i: int| self.attributes@[i]@),
        }
    }
}

impl Response {
    /// The response without messages or attributes.
    pub fn new() -> (response: Response)
        ensures
            response@.messages == Seq::<StructUmeeMsg>::empty(),
            response@.attributes == Seq::<(Seq<char>, Seq<char>)>::empty(),
    {
        Response { messages: Vec::new(), attributes: Vec::new() }
    }

    /// The response with the attribute `key`, `value` added after the others.
    pub fn add_attribute(self, key: String, value: String) -> (response: Response)
        ensures
            response@.messages == self@.messages,
            response@.attributes == self@.attributes.push((key@, value@)),
    {
        let mut response = self;
        response.attributes.push(Attribute { key, value });
        response
    }

    /// The response with the message `msg` added after the others.
    pub fn add_message(self, msg: StructUmeeMsg) -> (response: Response)
        ensures
            response@.messages == self@.messages.push(msg),
            response@.attributes == self@.attributes,
    {
        let mut response = self;
        response.messages.push(msg);
        response
    }
}

} // verus!
