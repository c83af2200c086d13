//! The parameter shapes of the JSON-RPC methods that need their own request type.
use vstd::prelude::*;
use crate::types::{ConnectionId, Quantity, RegisterAddress, SlaveId};

verus! {

/// The parameters of `connection.close`.
#[derive(Debug, PartialEq, Eq)]
pub struct CloseRequest {
    pub connection: ConnectionId,
}

/// The parameters of `read.holdingRegisters`: the connection, and the slave,
/// first register and number of registers to read through it.
#[derive(Debug, PartialEq, Eq)]
pub struct ReadHoldingRegistersRequest {
    pub connection: ConnectionId,
    pub slave: SlaveId,
    pub address: RegisterAddress,
    pub quantity: Quantity,
}

} // verus!
