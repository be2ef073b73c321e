//! The answer that a command hands back to the host: a
//! `cosmwasm_std::Response`, of which the handlers fill the attributes only.

use cosmwasm_std::{Empty, Response};
use vstd::prelude::*;

verus! {

/// `cosmwasm_std::Response`: messages, attributes, events and a data payload.
#[verifier::external_type_specification]
#[verifier::external_body]
#[verifier::reject_recursive_types(T)]
pub struct ExResponse<T>(Response<T>);

/// `cosmwasm_std::Empty`, which stands where a response has no custom messages.
#[verifier::external_type_specification]
#[verifier::external_body]
pub struct ExEmpty(Empty);

/// The attributes of a response, each as its key and its value, in the order
/// in which they were added.
pub uninterp spec fn response_attributes(response: Response) -> Seq<(Seq<char>, Seq<char>)>;

/// How much a response carries besides its attributes: the number of its
/// messages and of its events, and one more where it has a data payload.
pub uninterp spec fn response_extras(response: Response) -> nat;

/// Calls `cosmwasm_std::Response::new`. Trusted: the new response has no
/// attribute and carries nothing else.
#[verifier::external_body]
pub(crate) fn new_response() -> (response: Response)
    ensures
        response_attributes(response) == Seq::<(Seq<char>, Seq<char>)>::empty(),
        response_extras(response) == 0,
{
    Response::new()
}

/// Calls `cosmwasm_std::Response::add_attribute`. Trusted: the attribute
/// comes last, and what the response carried before is kept. A key that
/// starts with an underscore is left out: such keys are reserved, and a
/// debug build panics on one.
#[verifier::external_body]
pub(crate) fn add_attribute(response: Response, key: &str, value: &str) -> (extended: Response)
    requires
        key@.len() > 0 ==> key@[0] != '_',
    ensures
        response_attributes(extended) == response_attributes(response).push((key@, value@)),
        response_extras(extended) == response_extras(response),
{
    response.add_attribute(key, value)
}

} // verus!
