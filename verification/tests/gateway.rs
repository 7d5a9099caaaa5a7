use proposals_manager::communication::{
    gateway_fn_one_request, gateway_fn_two_request, handle_gateway_fn_one_response,
    handle_gateway_fn_two_response, ClientError, GatewayClientError, GatewayRequest,
    GatewayResponse,
};
use proposals_manager::errors::GatewayError;
use proposals_manager::gateway_types::{
    GatewayFnOneInput, GatewayFnOneReturnValue, GatewayFnTwoInput, GatewayFnTwoReturnValue,
};

#[test]
fn requests_carry_their_inputs() {
    assert_eq!(
        gateway_fn_one_request(GatewayFnOneInput {}),
        GatewayRequest::GatewayFnOne(GatewayFnOneInput {})
    );
    assert_eq!(
        gateway_fn_two_request(GatewayFnTwoInput {}),
        GatewayRequest::GatewayFnTwo(GatewayFnTwoInput {})
    );
}

#[test]
fn matching_response_is_unpacked() {
    let r = handle_gateway_fn_one_response(GatewayResponse::GatewayFnOne(Ok(
        GatewayFnOneReturnValue {},
    )));
    assert_eq!(r, Ok(GatewayFnOneReturnValue {}));

    let r = handle_gateway_fn_two_response(GatewayResponse::GatewayFnTwo(Ok(
        GatewayFnTwoReturnValue {},
    )));
    assert_eq!(r, Ok(GatewayFnTwoReturnValue {}));
}

#[test]
fn gateway_failure_is_wrapped() {
    let r = handle_gateway_fn_one_response(GatewayResponse::GatewayFnOne(Err(
        GatewayError::GatewayFailed,
    )));
    assert_eq!(
        r,
        Err(GatewayClientError::GatewayError(GatewayError::GatewayFailed))
    );

    let r = handle_gateway_fn_two_response(GatewayResponse::GatewayFnTwo(Err(
        GatewayError::GatewayFailed,
    )));
    assert_eq!(
        r,
        Err(GatewayClientError::GatewayError(GatewayError::GatewayFailed))
    );
}

#[test]
fn mismatched_response_is_a_transport_error() {
    let r = handle_gateway_fn_one_response(GatewayResponse::GatewayFnTwo(Ok(
        GatewayFnTwoReturnValue {},
    )));
    assert_eq!(
        r,
        Err(GatewayClientError::ClientError(ClientError::UnexpectedResponse))
    );

    let r = handle_gateway_fn_two_response(GatewayResponse::GatewayFnOne(Ok(
        GatewayFnOneReturnValue {},
    )));
    assert_eq!(
        r,
        Err(GatewayClientError::ClientError(ClientError::UnexpectedResponse))
    );
}
