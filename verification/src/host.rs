//! The values of `cosmwasm_std` that the hand-over carries, and the few of
//! its functions that the library calls. Nothing in this file is proved: each
//! contract restates what the source of `cosmwasm_std` shows.

use cosmwasm_std::Addr;
use cosmwasm_std::Empty;
use cosmwasm_std::Response;
use cosmwasm_std::StdError;
use vstd::prelude::*;

verus! {

/// `cosmwasm_std::Addr`, a validated address. It is carried and compared,
/// never opened.
#[verifier::external_type_specification]
#[verifier::external_body]
pub struct ExAddr(Addr);

/// `cosmwasm_std::StdError`, the error of a collaborator. It is handed on
/// unchanged.
#[verifier::external_type_specification]
#[verifier::external_body]
pub struct ExStdError(StdError);

/// `cosmwasm_std::Empty`, the custom message of a contract that has none.
#[verifier::external_type_specification]
#[verifier::external_body]
pub struct ExEmpty(Empty);

/// `cosmwasm_std::Response`, what a contract's entry point hands back.
#[verifier::external_type_specification]
#[verifier::external_body]
#[verifier::reject_recursive_types(T)]
pub struct ExResponse<T>(Response<T>);

/// `Addr`'s `==`, which `Addr` derives over its one field, the address text:
/// two addresses are equal exactly when they are the same address.
pub assume_specification[ <Addr as PartialEq>::eq ](a: &Addr, b: &Addr) -> (same: bool)
    ensures
        same == (*a == *b),
;

/// `Addr`'s `clone`, which `Addr` derives: the copy is the same address.
pub assume_specification[ <Addr as Clone>::clone ](a: &Addr) -> (copy: Addr)
    ensures
        copy == *a,
;

/// The text of an address, as `Addr::as_str` gives it.
pub uninterp spec fn addr_text(a: Addr) -> Seq<char>;

/// Calls `Addr::as_str` and copies what it borrows: the address text.
#[verifier::external_body]
pub(crate) fn addr_to_string(a: &Addr) -> (text: String)
    ensures
        text@ == addr_text(*a),
{
    a.as_str().to_string()
}

/// The error that `StdError::generic_err` makes of a message: the variant
/// `GenericErr` with that message.
pub uninterp spec fn generic_error(msg: Seq<char>) -> StdError;

/// Calls `StdError::generic_err`, which wraps the message in the variant
/// `GenericErr` and does nothing else.
#[verifier::external_body]
pub(crate) fn generic_err(msg: &str) -> (e: StdError)
    ensures
        e == generic_error(msg@),
{
    StdError::generic_err(msg)
}

/// The response that holds the given attributes, each a key and a value, in
/// that order, and nothing else: no message, no event, no data.
pub uninterp spec fn response_with(attributes: Seq<(Seq<char>, Seq<char>)>) -> Response<Empty>;

/// Whether a key may stand in an attribute: `Attribute::new` panics on a key
/// that starts with an underscore where debug assertions are on.
pub open spec fn attribute_key(key: Seq<char>) -> bool {
    key.len() == 0 || key[0] != '_'
}

/// Calls `Response::new`, which makes the response empty, and on it
/// `Response::add_attributes`, which appends one attribute per pair, in
/// order, first the key and then the value.
#[verifier::external_body]
pub(crate) fn response_of(attributes: Vec<(String, String)>) -> (r: Response<Empty>)
    requires
        forall|i: int| 0 <= i < attributes.len() ==> attribute_key(#[trigger] attributes[i].0@),
    ensures
        r == response_with(attributes.deep_view()),
{
    Response::new().add_attributes(attributes)
}

} // verus!
