use vstd::prelude::*;

verus! {

/// The port a server listens on.
pub const SERVER_PORT: u16 = 8080;

/// An address of this machine on the local network.
pub enum LocalIp {
    V4([u8; 4]),
    V6([u16; 8]),
}

/// An IPv4 address and a port.
pub struct Endpoint {
    pub octets: [u8; 4],
    pub port: u16,
}

/// Why no address to listen on was found.
pub enum AddressError {
    /// The machine's address is not an IPv4 address.
    NotAvailable,
}

/// The address a server listens on, given the machine's local address:
/// that address on the server port where it is an IPv4 address.
pub fn socket_addr_for(ip: LocalIp) -> (r: Result<Endpoint, AddressError>)
    ensures
        ip is V4 ==> r is Ok && r->Ok_0.octets == ip->V4_0 && r->Ok_0.port == SERVER_PORT,
        ip is V6 ==> r is Err,
{
    match ip {
        LocalIp::V4(octets) => Ok(Endpoint { octets, port: SERVER_PORT }),
        LocalIp::V6(_) => Err(AddressError::NotAvailable),
    }
}

/// The loopback address, on a port the system picks.
pub open spec fn fallback_address() -> Endpoint {
    Endpoint { octets: [127u8, 0u8, 0u8, 1u8], port: 0 }
}

/// The address a server listens on where it cannot listen on its own
/// address: the loopback address, on a port the system picks.
pub fn fallback_endpoint() -> (e: Endpoint)
    ensures
        e == fallback_address(),
        e.octets@ == seq![127u8, 0u8, 0u8, 1u8],
        e.port == 0,
{
    let e = Endpoint { octets: [127u8, 0u8, 0u8, 1u8], port: 0 };
    assert(e.octets@ =~= seq![127u8, 0u8, 0u8, 1u8]);
    e
}

/// The next address a server tries to listen on.
pub enum BindStep {
    /// Try to listen on this address.
    Bind(Endpoint),
    /// No address is left to try: there is no listener.
    GiveUp,
}

/// The address to try after `failed` addresses could not be bound: first
/// the machine's own address, then the fallback address, then none.
pub open spec fn bind_step_for(own: Endpoint, failed: u8) -> BindStep {
    if failed == 0 {
        BindStep::Bind(own)
    } else if failed == 1 {
        BindStep::Bind(fallback_address())
    } else {
        BindStep::GiveUp
    }
}

/// Decides where a server tries to listen next, after `failed` addresses
/// could not be bound.
pub fn next_bind(own: &Endpoint, failed: u8) -> (s: BindStep)
    ensures
        s == bind_step_for(*own, failed),
{
    if failed == 0 {
        BindStep::Bind(Endpoint { octets: own.octets, port: own.port })
    } else if failed == 1 {
        BindStep::Bind(fallback_endpoint())
    } else {
        BindStep::GiveUp
    }
}

/// A server first tries its own address exactly as given (every octet in
/// its place, the same port), then the loopback address 127.0.0.1 on a port
/// the system picks, and after two failures gives up.
pub proof fn lemma_bind_order(own: Endpoint, failed: u8)
    ensures
        bind_step_for(own, 0) is Bind,
        bind_step_for(own, 0)->Bind_0.octets@ == own.octets@,
        bind_step_for(own, 0)->Bind_0.port == own.port,
        bind_step_for(own, 1) is Bind,
        bind_step_for(own, 1)->Bind_0.octets@ == seq![127u8, 0u8, 0u8, 1u8],
        bind_step_for(own, 1)->Bind_0.port == 0,
        failed >= 2 ==> bind_step_for(own, failed) is GiveUp,
{
    assert(fallback_address().octets@ =~= seq![127u8, 0u8, 0u8, 1u8]);
}

} // verus!
