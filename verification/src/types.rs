//! The vocabulary the other modules share: identifiers, register addressing,
//! connection and transport configuration, and transport errors.
use vstd::prelude::*;
use crate::text::{decimal, decimal_string};

verus! {

/// The identifier of a registered connection.
#[derive(Debug, PartialEq, Eq, Hash)]
pub struct ConnectionId(pub String);

impl ConnectionId {
    pub fn new(id: String) -> (r: ConnectionId)
        ensures
            r.0@ == id@,
    {
        ConnectionId(id)
    }

    /// A copy of `self`.
    pub fn duplicate(&self) -> (r: ConnectionId)
        ensures
            r == *self,
    {
        ConnectionId(self.0.clone())
    }

    /// Whether `self` and `other` name the same connection.
    pub fn same(&self, other: &ConnectionId) -> (r: bool)
        ensures
            r == (self.0@ == other.0@),
    {
        self.0 == other.0
    }
}

/// The Modbus unit (slave) a request is addressed to.
#[derive(Debug, Clone, Copy, PartialEq, Eq)]
pub struct SlaveId(pub u8);

/// The first register or coil of a request.
#[derive(Debug, Clone, Copy, PartialEq, Eq)]
pub struct RegisterAddress(pub u16);

/// The number of registers or coils of a request.
#[derive(Debug, Clone, Copy, PartialEq, Eq)]
pub struct Quantity(pub u16);

/// How a transport reaches its devices.
#[derive(Debug, PartialEq, Eq)]
pub enum TransportConfig {
    Tcp { host: String, port: u16 },
    RtuOverTcp { host: String, port: u16 },
    RtuOverSerial { path: String, baud_rate: u32 },
}

impl TransportConfig {
    /// A copy of `self`.
    pub fn duplicate(&self) -> (r: TransportConfig)
        ensures
            r == *self,
    {
        match self {
            TransportConfig::Tcp { host, port } => TransportConfig::Tcp {
                host: host.clone(),
                port: *port,
            },
            TransportConfig::RtuOverTcp { host, port } => TransportConfig::RtuOverTcp {
                host: host.clone(),
                port: *port,
            },
            TransportConfig::RtuOverSerial { path, baud_rate } => TransportConfig::RtuOverSerial {
                path: path.clone(),
                baud_rate: *baud_rate,
            },
        }
    }
}

/// A connection to open: an optional caller-chosen id, a display name, and the transport.
#[derive(Debug, PartialEq, Eq)]
pub struct ConnectionConfig {
    pub id: Option<ConnectionId>,
    pub name: String,
    pub transport: TransportConfig,
}

impl ConnectionConfig {
    /// A copy of `self`.
    pub fn duplicate(&self) -> (r: ConnectionConfig)
        ensures
            r == *self,
    {
        let id = match &self.id {
            Some(i) => Some(i.duplicate()),
            None => None,
        };
        ConnectionConfig { id, name: self.name.clone(), transport: self.transport.duplicate() }
    }
}

/// A Modbus exception response, by its exception code.
#[derive(Debug, Clone, Copy, PartialEq, Eq)]
pub enum ModbusException {
    IllegalFunction,
    IllegalDataAddress,
    IllegalDataValue,
    ServerDeviceFailure,
    Acknowledge,
    ServerDeviceBusy,
    MemoryParityError,
    GatewayPathUnavailable,
    GatewayTargetDevice,
    /// A code that the Modbus application protocol does not assign.
    Custom(u8),
}

/// The exception that code `c` names.
pub open spec fn exception_of(c: u8) -> ModbusException {
    if c == 1 {
        ModbusException::IllegalFunction
    } else if c == 2 {
        ModbusException::IllegalDataAddress
    } else if c == 3 {
        ModbusException::IllegalDataValue
    } else if c == 4 {
        ModbusException::ServerDeviceFailure
    } else if c == 5 {
        ModbusException::Acknowledge
    } else if c == 6 {
        ModbusException::ServerDeviceBusy
    } else if c == 8 {
        ModbusException::MemoryParityError
    } else if c == 10 {
        ModbusException::GatewayPathUnavailable
    } else if c == 11 {
        ModbusException::GatewayTargetDevice
    } else {
        ModbusException::Custom(c)
    }
}

/// The code of exception `e`.
pub open spec fn code_of(e: ModbusException) -> u8 {
    match e {
        ModbusException::IllegalFunction => 1,
        ModbusException::IllegalDataAddress => 2,
        ModbusException::IllegalDataValue => 3,
        ModbusException::ServerDeviceFailure => 4,
        ModbusException::Acknowledge => 5,
        ModbusException::ServerDeviceBusy => 6,
        ModbusException::MemoryParityError => 8,
        ModbusException::GatewayPathUnavailable => 10,
        ModbusException::GatewayTargetDevice => 11,
        ModbusException::Custom(c) => c,
    }
}

/// Whether `e` is how its own code is read: a `Custom` exception holds an unassigned code.
pub open spec fn is_canonical(e: ModbusException) -> bool {
    match e {
        ModbusException::Custom(c) => !(1 <= c <= 6 || c == 8 || c == 10 || c == 11),
        _ => true,
    }
}

impl From<u8> for ModbusException {
    fn from(c: u8) -> (r: ModbusException) {
        if c == 1 {
            ModbusException::IllegalFunction
        } else if c == 2 {
            ModbusException::IllegalDataAddress
        } else if c == 3 {
            ModbusException::IllegalDataValue
        } else if c == 4 {
            ModbusException::ServerDeviceFailure
        } else if c == 5 {
            ModbusException::Acknowledge
        } else if c == 6 {
            ModbusException::ServerDeviceBusy
        } else if c == 8 {
            ModbusException::MemoryParityError
        } else if c == 10 {
            ModbusException::GatewayPathUnavailable
        } else if c == 11 {
            ModbusException::GatewayTargetDevice
        } else {
            ModbusException::Custom(c)
        }
    }
}

impl vstd::std_specs::convert::FromSpecImpl<u8> for ModbusException {
    open spec fn obeys_from_spec() -> bool {
        true
    }

    open spec fn from_spec(c: u8) -> ModbusException {
        exception_of(c)
    }
}

impl ModbusException {
    /// The exception code.
    pub fn code(&self) -> (r: u8)
        ensures
            r == code_of(*self),
    {
        match self {
            ModbusException::IllegalFunction => 1,
            ModbusException::IllegalDataAddress => 2,
            ModbusException::IllegalDataValue => 3,
            ModbusException::ServerDeviceFailure => 4,
            ModbusException::Acknowledge => 5,
            ModbusException::ServerDeviceBusy => 6,
            ModbusException::MemoryParityError => 8,
            ModbusException::GatewayPathUnavailable => 10,
            ModbusException::GatewayTargetDevice => 11,
            ModbusException::Custom(c) => *c,
        }
    }
}

/// Reading a code and writing it back gives the code; every code is read canonically.
pub proof fn lemma_exception_code_roundtrip(c: u8)
    ensures
        code_of(exception_of(c)) == c,
        is_canonical(exception_of(c)),
{
}

/// Writing a canonical exception's code and reading it back gives the exception.
pub proof fn lemma_exception_roundtrip(e: ModbusException)
    requires
        is_canonical(e),
    ensures
        exception_of(code_of(e)) == e,
{
}

/// Why a transport request failed.
#[derive(Debug, PartialEq, Eq)]
pub enum TransportError {
    /// The connection failed; the text is what the operating system reported.
    Io(String),
    /// The exchange broke the protocol, or the transport is not available.
    Protocol(String),
    /// The device answered with an exception.
    Exception(ModbusException),
}

/// The text that describes a transport error.
pub open spec fn transport_message(e: TransportError) -> Seq<char> {
    match e {
        TransportError::Io(m) => "I/O error: "@ + m@,
        TransportError::Protocol(m) => "protocol error: "@ + m@,
        TransportError::Exception(x) => "Modbus exception code "@ + decimal(code_of(x) as nat),
    }
}

impl TransportError {
    /// The text that describes the error.
    pub fn message(&self) -> (r: String)
        ensures
            r@ == transport_message(*self),
    {
        match self {
            TransportError::Io(m) => {
                let mut s = String::from_str("I/O error: ");
                s.append(m.as_str());
                s
            },
            TransportError::Protocol(m) => {
                let mut s = String::from_str("protocol error: ");
                s.append(m.as_str());
                s
            },
            TransportError::Exception(x) => {
                let mut s = String::from_str("Modbus exception code ");
                let d = decimal_string(x.code() as u64);
                s.append(d.as_str());
                s
            },
        }
    }
}

/// Each named exception has the code that the Modbus application protocol
/// assigns it (1 to 6, 8, 10, 11), and a custom exception keeps its own code.
pub proof fn law_exception_codes(c: u8)
    ensures
        code_of(ModbusException::IllegalFunction) == 1,
        code_of(ModbusException::IllegalDataAddress) == 2,
        code_of(ModbusException::IllegalDataValue) == 3,
        code_of(ModbusException::ServerDeviceFailure) == 4,
        code_of(ModbusException::Acknowledge) == 5,
        code_of(ModbusException::ServerDeviceBusy) == 6,
        code_of(ModbusException::MemoryParityError) == 8,
        code_of(ModbusException::GatewayPathUnavailable) == 10,
        code_of(ModbusException::GatewayTargetDevice) == 11,
        code_of(ModbusException::Custom(c)) == c,
        code_of(exception_of(c)) == c,
        (exception_of(c) is Custom) <==> !(1 <= c <= 6 || c == 8 || c == 10 || c == 11),
{
}

/// A transport error's text says its kind and carries its detail: the
/// operating system's text, the protocol detail, or the exception code in decimal.
pub proof fn law_transport_messages(e: TransportError)
    ensures
        e matches TransportError::Io(m) ==> transport_message(e) == "I/O error: "@ + m@,
        e matches TransportError::Protocol(m) ==> transport_message(e) == "protocol error: "@ + m@,
        e matches TransportError::Exception(x) ==> transport_message(e) == "Modbus exception code "@
            + decimal(code_of(x) as nat),
{
}

} // verus!
