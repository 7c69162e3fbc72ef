//! Ports of payload data connections.
//!
//! The sender of a file listens on a port of a preferred range, or on an
//! ephemeral one when the range is occupied, and announces it.
use crate::protocol::transfer::{PAYLOAD_PORT_MAX, PAYLOAD_PORT_MIN};
use vstd::prelude::*;

verus! {

/// How many ports the preferred range has.
pub open spec fn range_len() -> int {
    PAYLOAD_PORT_MAX - PAYLOAD_PORT_MIN + 1
}

/// The port to try after `failed` ports could not be bound.
pub open spec fn port_after(failed: nat) -> Option<u16> {
    if failed < range_len() {
        Some((PAYLOAD_PORT_MIN + failed) as u16)
    } else if failed == range_len() {
        Some(0u16)
    } else {
        None
    }
}

/// The ports from 1739 to 1764 are tried one after the other, each once; then
/// any free port will do, and after that there is nothing to try.
pub proof fn law_preferred_ports_come_first(failed: nat)
    ensures
        port_after(0) == Some(1739u16),
        failed <= 25 ==> port_after(failed) is Some && 1739 <= port_after(failed)->0 <= 1764,
        failed < 25 ==> port_after((failed + 1) as nat)->0 == port_after(failed)->0 + 1,
        port_after(26) == Some(0u16),
        failed > 26 ==> port_after(failed) is None,
{
}

/// The port to try after `failed` ports could not be bound: those of the
/// preferred range in order, then 0 for an ephemeral one, then none.
pub fn port_to_try(failed: u32) -> (r: Option<u16>)
    ensures
        r == port_after(failed as nat),
{
    let ports: u32 = (PAYLOAD_PORT_MAX - PAYLOAD_PORT_MIN) as u32 + 1;
    if failed < ports {
        Some(PAYLOAD_PORT_MIN + failed as u16)
    } else if failed == ports {
        Some(0)
    } else {
        None
    }
}

} // verus!
