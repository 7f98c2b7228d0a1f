//! Execution layer requests that a block collects (EIP-7685).

use alloy_eips::eip7685::Requests;
use vstd::prelude::*;

verus! {

/// The request type of the bridge entry.
pub const BRIDGE_REQUEST_TYPE: u8 = 0xf0;

/// A byte string of `alloy-primitives`: what a list of requests is made of.
#[verifier::external_type_specification]
#[verifier::external_body]
pub struct ExBytes(alloy_primitives::Bytes);

/// A list of requests, as `alloy-eips` keeps it.
#[verifier::external_type_specification]
#[verifier::external_body]
pub struct ExRequests(Requests);

/// The requests of a list in order, each a type byte with the request data behind it.
pub uninterp spec fn request_list(requests: Requests) -> Seq<Seq<u8>>;

/// What a request of type `request_type` adds to a list: one entry, or none where there is no
/// data.
pub open spec fn typed_request(request_type: u8, data: Seq<u8>) -> Seq<Seq<u8>> {
    if data.len() == 0 {
        seq![]
    } else {
        seq![seq![request_type] + data]
    }
}

/// An empty list of requests.
///
/// Calls `Requests::default`, which is claimed to return a list without entries.
#[verifier::external_body]
pub(crate) fn no_requests() -> (requests: Requests)
    ensures
        request_list(requests) == Seq::<Seq<u8>>::empty(),
{
    Requests::default()
}

/// Adds a request of the given type to the end of the list.
///
/// Calls `Requests::push_request_with_type`, which is claimed to add one entry, the type byte
/// followed by the data, and to leave the list as it is where the data is empty.
#[verifier::external_body]
pub(crate) fn push_request_with_type(requests: &mut Requests, request_type: u8, data: Vec<u8>)
    ensures
        request_list(*final(requests)) == request_list(*old(requests)) + typed_request(
            request_type,
            data@,
        ),
{
    requests.push_request_with_type(request_type, data)
}

/// Adds the entries of `more` to the end of the list.
///
/// Calls `Requests::extend`, which is claimed to keep the entries of both lists in their order.
#[verifier::external_body]
pub(crate) fn extend_requests(requests: &mut Requests, more: Requests)
    ensures
        request_list(*final(requests)) == request_list(*old(requests)) + request_list(more),
{
    requests.extend(more)
}

/// The request type of deposits.
///
/// Reads `eip6110::DEPOSIT_REQUEST_TYPE` of `alloy-eips`, which is claimed to be zero.
#[verifier::external_body]
pub(crate) fn deposit_request_type() -> (request_type: u8)
    ensures
        request_type == 0,
{
    alloy_eips::eip6110::DEPOSIT_REQUEST_TYPE
}

} // verus!
