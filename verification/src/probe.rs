//! One probe: its target, the address it connects to, and its outcome.

use crate::hostname::Subdomain;
use vstd::prelude::*;
use vstd::string::StringExecFns;

verus! {

/// The cause reported when resolution succeeds but yields no address.
pub const NO_ADDRESS_CAUSE: &'static str = "no addresses found";

/// A socket address as plain integers: the IP address in host byte order and
/// the port, with the two extra fields that an IPv6 socket address carries.
#[derive(Clone, Copy, Debug, PartialEq, Eq, Structural)]
pub enum SocketAddress {
    V4 { ip: u32, port: u16 },
    V6 { ip: u128, port: u16, flowinfo: u32, scope_id: u32 },
}

/// The unit of work: one port of one host.
#[derive(Clone, Debug, PartialEq, Eq)]
pub struct ProbeTarget {
    pub host: Subdomain,
    pub port: u16,
}

/// What contracts say of a `ProbeTarget`.
pub struct ProbeTargetView {
    pub host: Seq<char>,
    pub port: u16,
}

impl View for ProbeTarget {
    type V = ProbeTargetView;

    open spec fn view(&self) -> ProbeTargetView {
        ProbeTargetView { host: self.host@, port: self.port }
    }
}

/// A failed resolution, with the target it was asked for.
#[derive(Clone, Debug, PartialEq, Eq)]
pub struct ResolutionFailure {
    pub host: String,
    pub port: u16,
    pub cause: String,
}

/// What contracts say of a `ResolutionFailure`.
pub struct ResolutionFailureView {
    pub host: Seq<char>,
    pub port: u16,
    pub cause: Seq<char>,
}

impl View for ResolutionFailure {
    type V = ResolutionFailureView;

    open spec fn view(&self) -> ResolutionFailureView {
        ResolutionFailureView { host: self.host@, port: self.port, cause: self.cause@ }
    }
}

/// The outcome of one probe.
#[derive(Clone, Debug, PartialEq, Eq)]
pub enum ProbeResult {
    /// The connection was made within the timeout.
    Open,
    /// The connection failed, for whatever reason.
    Closed,
    /// The target has no address to connect to.
    ResolutionFailed(ResolutionFailure),
    /// The host was not probed; the field says why.
    Skipped(String),
}

/// What contracts say of a `ProbeResult`.
pub enum ProbeResultView {
    Open,
    Closed,
    ResolutionFailed(ResolutionFailureView),
    Skipped(Seq<char>),
}

impl View for ProbeResult {
    type V = ProbeResultView;

    open spec fn view(&self) -> ProbeResultView {
        match self {
            ProbeResult::Open => ProbeResultView::Open,
            ProbeResult::Closed => ProbeResultView::Closed,
            ProbeResult::ResolutionFailed(failure) => ProbeResultView::ResolutionFailed(failure@),
            ProbeResult::Skipped(reason) => ProbeResultView::Skipped(reason@),
        }
    }
}

/// The views of a resolver's answer: the addresses found, or the error text.
pub open spec fn resolved_view(resolved: Result<Vec<SocketAddress>, String>) -> Result<
    Seq<SocketAddress>,
    Seq<char>,
> {
    match resolved {
        Ok(addrs) => Ok(addrs@),
        Err(cause) => Err(cause@),
    }
}

/// The address a probe of `target` connects to, given the resolver's answer:
/// the first address found. An error, and an answer without addresses, are
/// both a failure that names the target.
pub open spec fn select_address_spec(
    target: ProbeTargetView,
    resolved: Result<Seq<SocketAddress>, Seq<char>>,
) -> Result<SocketAddress, ResolutionFailureView> {
    match resolved {
        Ok(addrs) => if addrs.len() > 0 {
            Ok(addrs[0])
        } else {
            Err(
                ResolutionFailureView {
                    host: target.host,
                    port: target.port,
                    cause: NO_ADDRESS_CAUSE@,
                },
            )
        },
        Err(cause) => Err(ResolutionFailureView { host: target.host, port: target.port, cause }),
    }
}

/// The outcome of a connection attempt: open if it was made, closed on any
/// error, whatever the error says.
pub open spec fn classify_connection_spec(connected: Result<(), Seq<char>>) -> ProbeResultView {
    if connected is Ok {
        ProbeResultView::Open
    } else {
        ProbeResultView::Closed
    }
}

/// Picks the address to connect to from the resolver's answer for `target`.
pub fn select_address(target: &ProbeTarget, resolved: Result<Vec<SocketAddress>, String>) -> (picked:
    Result<SocketAddress, ResolutionFailure>)
    ensures
        match select_address_spec(target@, resolved_view(resolved)) {
            Ok(addr) => picked == Ok::<SocketAddress, ResolutionFailure>(addr),
            Err(failure) => picked is Err && picked->Err_0@ == failure,
        },
{
    match resolved {
        Ok(addrs) => {
            if addrs.len() > 0 {
                Ok(addrs[0])
            } else {
                Err(
                    ResolutionFailure {
                        host: target.host.subdomain.clone(),
                        port: target.port,
                        cause: String::from_str(NO_ADDRESS_CAUSE),
                    },
                )
            }
        },
        Err(cause) => Err(
            ResolutionFailure { host: target.host.subdomain.clone(), port: target.port, cause },
        ),
    }
}

/// Turns the outcome of a connection attempt into a probe result.
pub fn classify_connection(connected: Result<(), String>) -> (result: ProbeResult)
    ensures
        result@ == classify_connection_spec(
            match connected {
                Ok(_) => Ok(()),
                Err(cause) => Err(cause@),
            },
        ),
{
    match connected {
        Ok(_) => ProbeResult::Open,
        Err(_) => ProbeResult::Closed,
    }
}

} // verus!
