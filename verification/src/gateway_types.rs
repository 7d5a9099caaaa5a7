use vstd::prelude::*;

use crate::errors::GatewayError;

verus! {

/// Argument bundle used to invoke the gateway's first operation.
#[derive(Clone, Copy, Debug, PartialEq, Eq, Structural)]
pub struct GatewayFnOneInput {}

/// Argument bundle used to invoke the gateway's second operation.
#[derive(Clone, Copy, Debug, PartialEq, Eq, Structural)]
pub struct GatewayFnTwoInput {}

/// Return value of the gateway's first operation.
#[derive(Clone, Copy, Debug, PartialEq, Eq, Structural)]
pub struct GatewayFnOneReturnValue {}

/// Return value of the gateway's second operation.
#[derive(Clone, Copy, Debug, PartialEq, Eq, Structural)]
pub struct GatewayFnTwoReturnValue {}

/// Result alias for the gateway's own operations.
pub type GatewayResult<T> = Result<T, GatewayError>;

} // verus!
