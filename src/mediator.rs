use vstd::prelude::*;
use vstd::string::StrSliceExecFns;
use crate::control::{ControlFlags, PkMismatchGuard, handle_configure_update, may_solve, servers_view};
use crate::host::{get_host_prefix, host_prefix_spec, increase_port, increase_port_spec};
use crate::registration::DEFAULT_KEEP_ALIVE;

verus! {

/// NAT type codes of the wire protocol.
pub const NAT_UNKNOWN: i32 = 0;
pub const NAT_ASYMMETRIC: i32 = 1;
pub const NAT_SYMMETRIC: i32 = 2;

/// Relies on `uuid::Uuid::new_v4` for a random id, written by its `Display`
/// impl in the hyphenated form of 36 characters.
#[verifier::external_body]
fn new_correlation_id() -> (r: String)
    ensures
        r@.len() == 36,
{
    uuid::Uuid::new_v4().to_string()
}

/// Per-host registration session: the fields a traversal task takes a copy of.
pub struct RendezvousMediator {
    pub host: String,
    pub host_prefix: String,
    /// Keep-alive interval in milliseconds.
    pub keep_alive: i64,
    /// Whether the resolved server address is IPv4.
    pub addr_is_ipv4: bool,
}

/// Result code of a public-key registration.
pub enum PkResult {
    Accepted,
    UuidMismatch,
    Other,
}

/// The inbound protocol messages this engine reacts to.
pub enum Inbound {
    RegisterPeerResponse { request_pk: bool },
    RegisterPkResponse { result: PkResult, keep_alive: i32 },
    PunchHole { socket_addr: Vec<u8>, nat_type: i32, relay_server: String },
    RequestRelay { socket_addr: Vec<u8>, relay_server: String, uuid: String, secure: bool },
    FetchLocalAddr { socket_addr: Vec<u8>, relay_server: String },
    ConfigureUpdate { rendezvous_servers: Vec<String>, serial: i32 },
    /// Any other kind: ignored.
    Other,
}

/// What the owning loop does with one inbound message.
pub enum Reaction {
    /// A registration was answered; send a public-key registration if asked.
    Registered { request_pk: bool },
    /// Key confirmed: mark it confirmed globally and for this host.
    PkConfirmed,
    /// Key mismatch taken on: mark the key unconfirmed, renew the identity,
    /// send a public-key registration.
    PkRecover,
    /// Key mismatch while another host recovers: nothing to do.
    PkSkip,
    /// An unexpected registration result.
    PkUnexpected,
    /// Spawn a punch-hole task.
    PunchHole { socket_addr: Vec<u8>, nat_type: i32, relay_server: String },
    /// Spawn a relay task.
    RequestRelay(RelayRequest),
    /// Spawn a local-address task.
    FetchLocalAddr { socket_addr: Vec<u8>, relay_server: String },
    /// Store the pushed server list and serial; `restart` when the list changed.
    ServersUpdated { rendezvous_servers: Vec<String>, serial: i32, restart: bool },
    Ignored,
}

/// Whether `msg` answers a registration, and so feeds the latency measurement.
pub open spec fn answers_registration(msg: &Inbound) -> bool {
    msg is RegisterPeerResponse || msg is RegisterPkResponse
}

/// Whether the loop measures the round trip on receiving `msg`: only the
/// answers to a registration do.
pub fn feeds_latency(msg: &Inbound) -> (r: bool)
    ensures
        r == answers_registration(msg),
{
    match msg {
        Inbound::RegisterPeerResponse { .. } | Inbound::RegisterPkResponse { .. } => true,
        _ => false,
    }
}

/// Which registration a due registration sends.
#[derive(PartialEq, Eq, Structural)]
pub enum Registration {
    /// Another host is recovering from a key mismatch.
    Skip,
    /// The key is not confirmed yet.
    Pk,
    /// Plain re-registration of the id.
    Peer,
}

/// Relay setup for a peer.
pub struct RelayRequest {
    pub socket_addr: Vec<u8>,
    pub relay_server: String,
    pub uuid: String,
    pub secure: bool,
    /// This side starts the relay (and names id, uuid and relay server).
    pub initiate: bool,
}

/// What a traversal task does.
pub enum TraversalPlan {
    /// Go through the relay.
    Relay(RelayRequest),
    /// Reach the peer directly, naming this relay server as the fallback.
    Direct { relay_server: String },
}

/// The relay-response notice sent to the rendezvous server.
pub struct RelayResponse {
    pub socket_addr: Vec<u8>,
    pub version: String,
    pub uuid: String,
    pub relay_server: String,
    pub id: String,
}

/// The relay server to use: the local override, else the one the server named,
/// else the rendezvous host with its port moved up by one.
pub open spec fn relay_server_spec(option: Seq<char>, provided: Seq<char>, host: Seq<char>) -> Seq<
    char,
> {
    if option.len() > 0 {
        option
    } else if provided.len() > 0 {
        provided
    } else {
        increase_port_spec(host, 1)
    }
}

/// A NAT type code as the protocol knows it, unknown codes read as unknown.
pub open spec fn nat_type_spec(v: int) -> int {
    if NAT_UNKNOWN <= v <= NAT_SYMMETRIC {
        v
    } else {
        NAT_UNKNOWN as int
    }
}

pub fn nat_type_of(v: i32) -> (r: i32)
    ensures
        r == nat_type_spec(v as int),
{
    if NAT_UNKNOWN <= v && v <= NAT_SYMMETRIC {
        v
    } else {
        NAT_UNKNOWN
    }
}

fn copy_bytes(v: &Vec<u8>) -> (r: Vec<u8>)
    ensures
        r@ == v@,
{
    let mut out: Vec<u8> = Vec::new();
    let mut i: usize = 0;
    while i < v.len()
        invariant
            i <= v.len(),
            out@ == v@.subrange(0, i as int),
        decreases v.len() - i,
    {
        out.push(v[i]);
        assert(out@ =~= v@.subrange(0, i + 1));
        i = i + 1;
    }
    assert(out@ =~= v@);
    out
}

impl RendezvousMediator {
    pub open spec fn wf(&self) -> bool {
        &&& self.host_prefix@ == host_prefix_spec(self.host@)
        &&& self.keep_alive > 0
    }

    pub fn new(host: &str, addr_is_ipv4: bool) -> (r: Self)
        ensures
            r.wf(),
            r.host@ == host@,
            r.keep_alive == DEFAULT_KEEP_ALIVE,
            r.addr_is_ipv4 == addr_is_ipv4,
    {
        RendezvousMediator {
            host: host.to_owned(),
            host_prefix: get_host_prefix(host),
            keep_alive: DEFAULT_KEEP_ALIVE,
            addr_is_ipv4,
        }
    }

    /// Reacts to one inbound message. Traversal messages become tasks to spawn;
    /// registration answers update the keep-alive, the mismatch guard and the flags.
    pub fn handle_resp(
        &mut self,
        msg: Inbound,
        guard: &mut PkMismatchGuard,
        flags: &mut ControlFlags,
        current_servers: &Vec<String>,
    ) -> (r: Reaction)
        requires
            old(self).wf(),
        ensures
            final(self).wf(),
            final(self).host == old(self).host,
            final(self).host_prefix == old(self).host_prefix,
            final(self).addr_is_ipv4 == old(self).addr_is_ipv4,
            match msg {
                Inbound::RegisterPkResponse { keep_alive, .. } => final(self).keep_alive == if keep_alive > 0 {
                    keep_alive * 1000
                } else {
                    old(self).keep_alive as int
                },
                _ => final(self).keep_alive == old(self).keep_alive,
            },
            match msg {
                Inbound::ConfigureUpdate { .. } => true,
                _ => *final(flags) == *old(flags),
            },
            match msg {
                Inbound::RegisterPkResponse { result: PkResult::Accepted, .. } => final(guard).solver@.len()
                    == 0,
                Inbound::RegisterPkResponse { result: PkResult::UuidMismatch, .. } => if may_solve(
                    old(guard).solver@,
                    old(self).host@,
                ) {
                    final(guard).solver@ == old(self).host@
                } else {
                    final(guard).solver@ == old(guard).solver@
                },
                _ => final(guard).solver@ == old(guard).solver@,
            },
            match msg {
                Inbound::RegisterPeerResponse { request_pk } => r matches Reaction::Registered {
                    request_pk: q,
                } && q == request_pk,
                Inbound::RegisterPkResponse { result: PkResult::Accepted, .. } => r is PkConfirmed,
                Inbound::RegisterPkResponse { result: PkResult::UuidMismatch, .. } => if may_solve(
                    old(guard).solver@,
                    old(self).host@,
                ) {
                    r is PkRecover
                } else {
                    r is PkSkip
                },
                Inbound::RegisterPkResponse { result: PkResult::Other, .. } => r is PkUnexpected,
                Inbound::PunchHole { socket_addr, nat_type, relay_server } => r == Reaction::PunchHole {
                    socket_addr,
                    nat_type,
                    relay_server,
                },
                Inbound::RequestRelay { socket_addr, relay_server, uuid, secure } => r
                    == Reaction::RequestRelay(
                    RelayRequest { socket_addr, relay_server, uuid, secure, initiate: false },
                ),
                Inbound::FetchLocalAddr { socket_addr, relay_server } => r == Reaction::FetchLocalAddr {
                    socket_addr,
                    relay_server,
                },
                Inbound::ConfigureUpdate { rendezvous_servers, serial } => {
                    let changed = servers_view(current_servers@) != servers_view(
                        rendezvous_servers@,
                    );
                    &&& r == Reaction::ServersUpdated { rendezvous_servers, serial, restart: changed }
                    &&& changed ==> final(flags).should_exit && final(flags).manual_restarted
                    &&& !changed ==> *final(flags) == *old(flags)
                },
                Inbound::Other => r is Ignored,
            },
    {
        match msg {
            Inbound::RegisterPeerResponse { request_pk } => Reaction::Registered { request_pk },
            Inbound::RegisterPkResponse { result, keep_alive } => {
                let reaction = match result {
                    PkResult::Accepted => {
                        guard.clear();
                        Reaction::PkConfirmed
                    },
                    PkResult::UuidMismatch => {
                        if guard.try_acquire(&self.host) {
                            Reaction::PkRecover
                        } else {
                            Reaction::PkSkip
                        }
                    },
                    PkResult::Other => Reaction::PkUnexpected,
                };
                if keep_alive > 0 {
                    self.keep_alive = keep_alive as i64 * 1000;
                }
                reaction
            },
            Inbound::PunchHole { socket_addr, nat_type, relay_server } => Reaction::PunchHole {
                socket_addr,
                nat_type,
                relay_server,
            },
            Inbound::RequestRelay { socket_addr, relay_server, uuid, secure } => Reaction::RequestRelay(
                RelayRequest { socket_addr, relay_server, uuid, secure, initiate: false },
            ),
            Inbound::FetchLocalAddr { socket_addr, relay_server } => Reaction::FetchLocalAddr {
                socket_addr,
                relay_server,
            },
            Inbound::ConfigureUpdate { rendezvous_servers, serial } => {
                let restart = handle_configure_update(flags, current_servers, &rendezvous_servers);
                Reaction::ServersUpdated { rendezvous_servers, serial, restart }
            },
            Inbound::Other => Reaction::Ignored,
        }
    }

    /// Which registration to send when one is due.
    pub fn register_peer(
        &self,
        guard: &PkMismatchGuard,
        key_confirmed: bool,
        host_key_confirmed: bool,
    ) -> (r: Registration)
        ensures
            r == if !may_solve(guard.solver@, self.host@) {
                Registration::Skip
            } else if !key_confirmed || !host_key_confirmed {
                Registration::Pk
            } else {
                Registration::Peer
            },
    {
        if !guard.allows(&self.host) {
            Registration::Skip
        } else if !key_confirmed || !host_key_confirmed {
            Registration::Pk
        } else {
            Registration::Peer
        }
    }

    /// The relay server to name: `option` is the local override, `provided` the
    /// one that came with the message.
    pub fn get_relay_server(&self, option: &str, provided: String) -> (r: String)
        ensures
            r@ == relay_server_spec(option@, provided@, self.host@),
    {
        if option.unicode_len() > 0 {
            option.to_owned()
        } else if provided.as_str().unicode_len() > 0 {
            provided
        } else {
            increase_port(self.host.as_str(), 1)
        }
    }

    /// Punch-hole plan: relay at once when either side is behind a symmetric NAT,
    /// else reach the peer directly.
    pub fn handle_punch_hole(
        &self,
        socket_addr: Vec<u8>,
        peer_nat: i32,
        local_nat: i32,
        option: &str,
        provided: String,
    ) -> (r: TraversalPlan)
        ensures
            ({
                let relay = relay_server_spec(option@, provided@, self.host@);
                if peer_nat == NAT_SYMMETRIC || local_nat == NAT_SYMMETRIC {
                    r matches TraversalPlan::Relay(q) && q.socket_addr == socket_addr
                        && q.relay_server@ == relay && q.uuid@.len() == 36 && q.secure
                        && q.initiate
                } else {
                    r matches TraversalPlan::Direct { relay_server } && relay_server@ == relay
                }
            }),
    {
        let relay_server = self.get_relay_server(option, provided);
        if peer_nat == NAT_SYMMETRIC || local_nat == NAT_SYMMETRIC {
            let uuid = new_correlation_id();
            TraversalPlan::Relay(
                RelayRequest { socket_addr, relay_server, uuid, secure: true, initiate: true },
            )
        } else {
            TraversalPlan::Direct { relay_server }
        }
    }

    /// Local-address plan: relay at once unless the server was reached over IPv4.
    pub fn handle_intranet(&self, socket_addr: Vec<u8>, option: &str, provided: String) -> (r:
        TraversalPlan)
        ensures
            ({
                let relay = relay_server_spec(option@, provided@, self.host@);
                if !self.addr_is_ipv4 {
                    r matches TraversalPlan::Relay(q) && q.socket_addr == socket_addr
                        && q.relay_server@ == relay && q.uuid@.len() == 36 && q.secure
                        && q.initiate
                } else {
                    r matches TraversalPlan::Direct { relay_server } && relay_server@ == relay
                }
            }),
    {
        let relay_server = self.get_relay_server(option, provided);
        if !self.addr_is_ipv4 {
            let uuid = new_correlation_id();
            TraversalPlan::Relay(
                RelayRequest { socket_addr, relay_server, uuid, secure: true, initiate: true },
            )
        } else {
            TraversalPlan::Direct { relay_server }
        }
    }
}

/// The relay-response notice for `req`: uuid, relay server and id only when this
/// side initiates.
pub fn create_relay(req: &RelayRequest, version: &str, id: &str) -> (r: RelayResponse)
    ensures
        r.socket_addr@ == req.socket_addr@,
        r.version@ == version@,
        req.initiate ==> r.uuid@ == req.uuid@ && r.relay_server@ == req.relay_server@ && r.id@
            == id@,
        !req.initiate ==> r.uuid@.len() == 0 && r.relay_server@.len() == 0 && r.id@.len() == 0,
{
    if req.initiate {
        RelayResponse {
            socket_addr: copy_bytes(&req.socket_addr),
            version: version.to_owned(),
            uuid: req.uuid.clone(),
            relay_server: req.relay_server.clone(),
            id: id.to_owned(),
        }
    } else {
        RelayResponse {
            socket_addr: copy_bytes(&req.socket_addr),
            version: version.to_owned(),
            uuid: String::new(),
            relay_server: String::new(),
            id: String::new(),
        }
    }
}

} // verus!
