//! The fixed list of candidate TCP ports and the connection timeout.

use vstd::prelude::*;

verus! {

/// Number of ports probed on every admitted host.
pub const PORT_COUNT: usize = 8;

/// Seconds a single connection attempt may take before it counts as closed.
pub const CONNECT_TIMEOUT_SECS: u64 = 1;

/// The ports probed on every admitted host, in probing order.
pub open spec fn popular_ports_spec() -> Seq<u16> {
    seq![80u16, 443u16, 22u16, 21u16, 25u16, 3306u16, 8080u16, 8443u16]
}

/// The ports probed on every admitted host, in probing order.
pub const POPULAR_PORTS: [u16; 8] = [80, 443, 22, 21, 25, 3306, 8080, 8443];

/// The port at position `index` of the probing order.
pub(crate) fn port_at(index: usize) -> (port: u16)
    requires
        index < PORT_COUNT,
    ensures
        port == popular_ports_spec()[index as int],
{
    POPULAR_PORTS[index]
}

/// The whole port list, in probing order.
pub fn popular_ports() -> (ports: Vec<u16>)
    ensures
        ports@ == popular_ports_spec(),
{
    let mut ports: Vec<u16> = Vec::new();
    let mut i: usize = 0;
    while i < PORT_COUNT
        invariant
            i <= PORT_COUNT,
            ports@ == popular_ports_spec().subrange(0, i as int),
        decreases PORT_COUNT - i,
    {
        ports.push(port_at(i));
        i += 1;
    }
    ports
}

/// The list holds exactly `PORT_COUNT` ports and none of them twice.
pub proof fn lemma_ports_distinct()
    ensures
        popular_ports_spec().len() == PORT_COUNT,
        popular_ports_spec().no_duplicates(),
{
}

} // verus!
