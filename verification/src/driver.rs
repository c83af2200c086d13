//! The decisions of the Modbus driver: which transports can be opened and
//! where they connect to, and how a device's answer becomes a result.
use vstd::prelude::*;
use crate::text::{decimal, decimal_string};
use crate::types::{code_of, exception_of, ModbusException, TransportConfig, TransportError};

verus! {

/// The text of `a`, `:` and the decimal port `p`.
pub open spec fn host_port(a: Seq<char>, p: u16) -> Seq<char> {
    a + ":"@ + decimal(p as nat)
}

fn host_port_text(host: &str, port: u16) -> (r: String)
    ensures
        r@ == host_port(host@, port),
{
    let mut s = host.to_owned();
    s.append(":");
    let d = decimal_string(port as u64);
    s.append(d.as_str());
    s
}

/// Where a transport connects to: the host and port of a TCP transport, or
/// the protocol error of a transport that this client cannot open yet.
pub fn connect_target(config: &TransportConfig) -> (r: Result<(String, u16), TransportError>)
    ensures
        match *config {
            TransportConfig::Tcp { host, port } => r matches Ok((h, p)) && h@ == host@ && p == port,
            TransportConfig::RtuOverTcp { host, port } => r matches Err(
                TransportError::Protocol(m),
            ) && m@ == "rtu-over-tcp ("@ + host_port(host@, port) + ") not implemented in skeleton"@,
            TransportConfig::RtuOverSerial { path, .. } => r matches Err(
                TransportError::Protocol(m),
            ) && m@ == "rtu-over-serial ("@ + path@ + ") not implemented in skeleton"@,
        },
{
    match config {
        TransportConfig::Tcp { host, port } => Ok((host.clone(), *port)),
        TransportConfig::RtuOverTcp { host, port } => {
            let mut m = String::from_str("rtu-over-tcp (");
            let hp = host_port_text(host.as_str(), *port);
            m.append(hp.as_str());
            m.append(") not implemented in skeleton");
            Err(TransportError::Protocol(m))
        },
        TransportConfig::RtuOverSerial { path, .. } => {
            let mut m = String::from_str("rtu-over-serial (");
            m.append(path.as_str());
            m.append(") not implemented in skeleton");
            Err(TransportError::Protocol(m))
        },
    }
}

/// The error for a host name that resolved to no address.
pub fn unresolved(host: &str, port: u16) -> (r: TransportError)
    ensures
        r matches TransportError::Protocol(m) && m@ == "unresolved "@ + host_port(host@, port),
{
    let mut m = String::from_str("unresolved ");
    let hp = host_port_text(host, port);
    m.append(hp.as_str());
    TransportError::Protocol(m)
}

/// The result of one request: a transport failure stays as it is, an
/// exception code answered by the device becomes an `Exception` error.
pub open spec fn response_result<T>(outcome: Result<Result<T, u8>, TransportError>) -> Result<
    T,
    TransportError,
> {
    match outcome {
        Err(e) => Err(e),
        Ok(Err(c)) => Err(TransportError::Exception(exception_of(c))),
        Ok(Ok(v)) => Ok(v),
    }
}

/// Turns the outcome of one request, as the transport reports it, into its result.
pub fn map_response<T>(outcome: Result<Result<T, u8>, TransportError>) -> (r: Result<
    T,
    TransportError,
>)
    ensures
        r == response_result(outcome),
{
    match outcome {
        Err(e) => Err(e),
        Ok(Err(c)) => Err(TransportError::Exception(ModbusException::from(c))),
        Ok(Ok(v)) => Ok(v),
    }
}

/// A request's outcome is kept as it is, except that a device's exception
/// answer becomes the exception error with that same code.
pub proof fn law_response_result<T>(outcome: Result<Result<T, u8>, TransportError>)
    ensures
        outcome matches Ok(Ok(v)) ==> response_result(outcome) == Ok::<T, TransportError>(v),
        outcome matches Err(e) ==> response_result(outcome) == Err::<T, TransportError>(e),
        outcome matches Ok(Err(c)) ==> (response_result(outcome) matches Err(
            TransportError::Exception(x),
        ) && code_of(x) == c),
{
}

/// `host:port` is the host, a colon and the port in decimal.
pub proof fn law_host_port(a: Seq<char>, p: u16)
    ensures
        host_port(a, p).subrange(0, a.len() as int) == a,
        host_port(a, p)[a.len() as int] == ':',
        crate::text::numeral_value(host_port(a, p).subrange(a.len() as int + 1, host_port(a, p).len() as int))
            == p,
{
    reveal_strlit(":");
    let h = host_port(a, p);
    assert(h.subrange(0, a.len() as int) =~= a);
    assert(h.subrange(a.len() as int + 1, h.len() as int) =~= decimal(p as nat));
    crate::text::law_decimal_value(p as nat);
}

} // verus!
