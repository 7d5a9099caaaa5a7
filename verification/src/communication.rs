use vstd::prelude::*;

use crate::errors::GatewayError;
use crate::gateway_types::{
    GatewayFnOneInput, GatewayFnOneReturnValue, GatewayFnTwoInput, GatewayFnTwoReturnValue,
    GatewayResult,
};

verus! {

/// Transport-level failure of a request/response client: the component
/// answered with a response of the wrong kind. The transport itself is an
/// external collaborator; this is the one failure of it that the response
/// handling below decides.
#[derive(Clone, Copy, Debug, PartialEq, Eq, Structural)]
pub enum ClientError {
    /// The response variant did not match the request.
    UnexpectedResponse,
}

/// A request to the gateway, one variant per operation.
#[derive(Clone, Copy, Debug, PartialEq, Eq)]
pub enum GatewayRequest {
    /// Invoke the gateway's first operation.
    GatewayFnOne(GatewayFnOneInput),
    /// Invoke the gateway's second operation.
    GatewayFnTwo(GatewayFnTwoInput),
}

/// A response from the gateway, one variant per operation.
#[derive(Clone, Copy, Debug, PartialEq, Eq)]
pub enum GatewayResponse {
    /// Answer to the gateway's first operation.
    GatewayFnOne(GatewayResult<GatewayFnOneReturnValue>),
    /// Answer to the gateway's second operation.
    GatewayFnTwo(GatewayResult<GatewayFnTwoReturnValue>),
}

/// Errors a gateway client can report: a transport failure, or a failure of
/// the gateway itself, wrapped.
#[derive(Clone, Copy, Debug, PartialEq, Eq)]
pub enum GatewayClientError {
    /// The transport failed.
    ClientError(ClientError),
    /// The gateway reported a failure of its own.
    GatewayError(GatewayError),
}

/// Result alias for gateway client calls.
pub type GatewayClientResult<T> = Result<T, GatewayClientError>;

/// Unpacks the response to a first-operation request: the matching variant
/// yields its value or its gateway error; any other variant is a transport
/// error.
pub fn handle_gateway_fn_one_response(response: GatewayResponse) -> (r: GatewayClientResult<
    GatewayFnOneReturnValue,
>)
    ensures
        response matches GatewayResponse::GatewayFnOne(Ok(v)) ==> r == Ok::<
            GatewayFnOneReturnValue,
            GatewayClientError,
        >(v),
        response matches GatewayResponse::GatewayFnOne(Err(e)) ==> r == Err::<
            GatewayFnOneReturnValue,
            GatewayClientError,
        >(GatewayClientError::GatewayError(e)),
        response is GatewayFnTwo ==> r == Err::<GatewayFnOneReturnValue, GatewayClientError>(
            GatewayClientError::ClientError(ClientError::UnexpectedResponse),
        ),
{
    match response {
        GatewayResponse::GatewayFnOne(Ok(value)) => Ok(value),
        GatewayResponse::GatewayFnOne(Err(err)) => Err(GatewayClientError::GatewayError(err)),
        GatewayResponse::GatewayFnTwo(_) => Err(
            GatewayClientError::ClientError(ClientError::UnexpectedResponse),
        ),
    }
}

/// Unpacks the response to a second-operation request, as above.
pub fn handle_gateway_fn_two_response(response: GatewayResponse) -> (r: GatewayClientResult<
    GatewayFnTwoReturnValue,
>)
    ensures
        response matches GatewayResponse::GatewayFnTwo(Ok(v)) ==> r == Ok::<
            GatewayFnTwoReturnValue,
            GatewayClientError,
        >(v),
        response matches GatewayResponse::GatewayFnTwo(Err(e)) ==> r == Err::<
            GatewayFnTwoReturnValue,
            GatewayClientError,
        >(GatewayClientError::GatewayError(e)),
        response is GatewayFnOne ==> r == Err::<GatewayFnTwoReturnValue, GatewayClientError>(
            GatewayClientError::ClientError(ClientError::UnexpectedResponse),
        ),
{
    match response {
        GatewayResponse::GatewayFnTwo(Ok(value)) => Ok(value),
        GatewayResponse::GatewayFnTwo(Err(err)) => Err(GatewayClientError::GatewayError(err)),
        GatewayResponse::GatewayFnOne(_) => Err(
            GatewayClientError::ClientError(ClientError::UnexpectedResponse),
        ),
    }
}

/// Builds the request for the gateway's first operation.
pub fn gateway_fn_one_request(input: GatewayFnOneInput) -> (r: GatewayRequest)
    ensures
        r == GatewayRequest::GatewayFnOne(input),
{
    GatewayRequest::GatewayFnOne(input)
}

/// Builds the request for the gateway's second operation.
pub fn gateway_fn_two_request(input: GatewayFnTwoInput) -> (r: GatewayRequest)
    ensures
        r == GatewayRequest::GatewayFnTwo(input),
{
    GatewayRequest::GatewayFnTwo(input)
}

} // verus!
