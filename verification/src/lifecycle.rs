//! Lifecycle of the boundary handles.
//!
//! The start operation validates the host's input, and only then is the
//! asynchronous create-and-bootstrap work performed; its outcome comes back
//! as a plain value and is turned into the handle bundle here. Each later
//! boundary operation follows the same shape: this module decides, the
//! caller performs the network work between the decision steps, and every
//! failure is recorded in the error channel before a sentinel is returned.

use vstd::prelude::*;
use vstd::utf8::valid_utf8;
use crate::error::ErrorRecord;
use crate::error::ErrorSlot;
use crate::error::spec_message;
use crate::error::update_last_error;
use crate::text::boundary_text_ok;
use crate::text::is_valid_utf8;

verus! {

/// A started network client, in one of the states
/// created -> bootstrapped -> { normal <-> soft-dormant }.
pub struct ClientHandle {
    bootstrapped: bool,
    soft_dormant: bool,
}

impl ClientHandle {
    /// Whether a bootstrap has completed successfully on this handle since
    /// it was started.
    pub closed spec fn is_bootstrapped(self) -> bool {
        self.bootstrapped
    }

    /// Whether the client is in the reduced-activity soft-dormant mode.
    pub closed spec fn is_soft_dormant(self) -> bool {
        self.soft_dormant
    }
}

/// The client handle as the start operation releases it: created, not yet
/// bootstrapped by an explicit bootstrap call, in normal mode.
pub closed spec fn spec_new_client() -> ClientHandle {
    ClientHandle { bootstrapped: false, soft_dormant: false }
}

/// A running local proxy front-end, bound to one client and one local port.
/// The handle is the only capability over the task: stopping consumes it.
pub struct ProxyHandle {
    port: u16,
}

impl ProxyHandle {
    /// The local port the front-end listens on.
    pub closed spec fn spec_port(self) -> u16 {
        self.port
    }

    /// A live handle designates a task that accepts new connections.
    pub open spec fn accepts_new_connections(self) -> bool {
        true
    }

    /// The local port, for observing the running task.
    pub fn local_port(&self) -> (r: u16)
        ensures
            r == self.spec_port(),
    {
        self.port
    }
}

/// The record a stop leaves behind: the task is cancelled and accepts no
/// new connections. No operation takes this type, so a consumed proxy
/// handle cannot reach a second stop.
pub struct StoppedProxy {
    port: u16,
}

impl StoppedProxy {
    /// The local port the front-end listened on.
    pub closed spec fn spec_port(self) -> u16 {
        self.port
    }

    /// A stopped task accepts no new connections.
    pub open spec fn accepts_new_connections(self) -> bool {
        false
    }

    /// The local port the stopped task was bound to.
    pub fn local_port(&self) -> (r: u16)
        ensures
            r == self.spec_port(),
    {
        self.port
    }
}

/// The bundle released to the host by the start operation: two
/// independently owned handles, either of which is absent after a failure.
pub struct Tor {
    /// The network client, absent when start failed.
    pub client: Option<ClientHandle>,
    /// The proxy front-end task, absent when start failed.
    pub proxy: Option<ProxyHandle>,
}

/// Whether the start operation accepts its two directory arguments: both
/// must be well-formed UTF-8 text.
pub open spec fn start_accepts(state_dir: Seq<u8>, cache_dir: Seq<u8>) -> bool {
    valid_utf8(state_dir) && valid_utf8(cache_dir)
}

/// A validated start request: the port to bind and the two storage
/// directories, held only in well-formed form. Holding a plan is the
/// caller's licence to perform the create-and-bootstrap work.
pub struct StartPlan {
    port: u16,
    state_dir: Vec<u8>,
    cache_dir: Vec<u8>,
}

impl StartPlan {
    #[verifier::type_invariant]
    spec fn inv(self) -> bool {
        start_accepts(self.state_dir@, self.cache_dir@)
    }

    /// The port the proxy front-end is to bind.
    pub closed spec fn spec_socks_port(self) -> u16 {
        self.port
    }

    /// The state directory text, as the bytes the host handed in.
    pub closed spec fn spec_state_dir(self) -> Seq<u8> {
        self.state_dir@
    }

    /// The cache directory text, as the bytes the host handed in.
    pub closed spec fn spec_cache_dir(self) -> Seq<u8> {
        self.cache_dir@
    }

    /// The port, for performing the spawn.
    pub fn socks_port(&self) -> (r: u16)
        ensures
            r == self.spec_socks_port(),
    {
        self.port
    }

    /// The state directory, for building the client configuration.
    pub fn state_dir(&self) -> (r: &Vec<u8>)
        ensures
            r@ == self.spec_state_dir(),
            valid_utf8(r@),
    {
        proof {
            use_type_invariant(self);
        }
        &self.state_dir
    }

    /// The cache directory, for building the client configuration.
    pub fn cache_dir(&self) -> (r: &Vec<u8>)
        ensures
            r@ == self.spec_cache_dir(),
            valid_utf8(r@),
    {
        proof {
            use_type_invariant(self);
        }
        &self.cache_dir
    }
}

/// The bundle the start operation releases: both handles on success, both
/// null sentinels on failure.
pub closed spec fn spec_start_bundle(port: u16, ok: bool) -> Tor {
    if ok {
        Tor { client: Some(spec_new_client()), proxy: Some(ProxyHandle { port }) }
    } else {
        Tor { client: None, proxy: None }
    }
}

/// The bundle for a start that failed: both fields are the null sentinel.
pub fn failed_bundle() -> (t: Tor)
    ensures
        t == spec_start_bundle(0, false),
        t.client is None,
        t.proxy is None,
{
    Tor { client: None, proxy: None }
}

/// First step of the start operation: validate the directory text the host
/// handed in. On well-formed input the validated plan is returned and the
/// error channel is untouched; on malformed input the failure is recorded
/// and no plan exists, so the network work is never performed.
pub fn start_request(
    port: u16,
    state_dir: Vec<u8>,
    cache_dir: Vec<u8>,
    slot: &mut ErrorSlot,
) -> (r: Option<StartPlan>)
    ensures
        r is Some <==> start_accepts(state_dir@, cache_dir@),
        r is Some ==> {
            &&& r->Some_0.spec_socks_port() == port
            &&& r->Some_0.spec_state_dir() == state_dir@
            &&& r->Some_0.spec_cache_dir() == cache_dir@
            &&& final(slot)@ == old(slot)@
        },
        !valid_utf8(state_dir@) ==> spec_message(final(slot)@)
            == "state directory path is not valid UTF-8"@,
        valid_utf8(state_dir@) && !valid_utf8(cache_dir@) ==> spec_message(final(slot)@)
            == "cache directory path is not valid UTF-8"@,
{
    if !is_valid_utf8(&state_dir) {
        proof {
            reveal_strlit("state directory path is not valid UTF-8");
        }
        let text = String::from_str("state directory path is not valid UTF-8");
        update_last_error(slot, ErrorRecord::from_text(text, Vec::new()));
        return None;
    }
    if !is_valid_utf8(&cache_dir) {
        proof {
            reveal_strlit("cache directory path is not valid UTF-8");
        }
        let text = String::from_str("cache directory path is not valid UTF-8");
        update_last_error(slot, ErrorRecord::from_text(text, Vec::new()));
        return None;
    }
    Some(StartPlan { port, state_dir, cache_dir })
}

/// Second step of the start operation: fold in the outcome of the
/// create-and-bootstrap work and the proxy spawn. Success releases the
/// bundle with both handles; failure records the cause and releases the
/// null bundle.
pub fn start_complete(plan: StartPlan, outcome: Result<(), ErrorRecord>, slot: &mut ErrorSlot) -> (t:
    Tor)
    ensures
        t == spec_start_bundle(plan.spec_socks_port(), outcome is Ok),
        outcome is Ok ==> {
            &&& t.client == Some(spec_new_client())
            &&& t.proxy is Some
            &&& t.proxy->Some_0.spec_port() == plan.spec_socks_port()
            &&& final(slot)@ == old(slot)@
        },
        outcome is Err ==> {
            &&& t.client is None
            &&& t.proxy is None
            &&& final(slot)@ == Some(outcome->Err_0)
        },
{
    match outcome {
        Ok(()) => Tor {
            client: Some(ClientHandle { bootstrapped: false, soft_dormant: false }),
            proxy: Some(ProxyHandle { port: plan.port }),
        },
        Err(e) => {
            update_last_error(slot, e);
            Tor { client: None, proxy: None }
        },
    }
}

/// The client handle and boundary return value after a bootstrap attempt
/// whose outcome was `ok`.
pub closed spec fn spec_bootstrap(c: ClientHandle, ok: bool) -> (ClientHandle, bool) {
    if ok {
        (ClientHandle { bootstrapped: true, ..c }, true)
    } else {
        (c, false)
    }
}

/// Fold in the outcome of a bootstrap run on the addressed client. The
/// handle stays valid either way; failure is recorded and reported as
/// `false`.
pub fn tor_client_bootstrap(
    client: &mut ClientHandle,
    outcome: Result<(), ErrorRecord>,
    slot: &mut ErrorSlot,
) -> (r: bool)
    ensures
        (*final(client), r) == spec_bootstrap(*old(client), outcome is Ok),
        r == (outcome is Ok),
        final(client).is_soft_dormant() == old(client).is_soft_dormant(),
        outcome is Ok ==> final(client).is_bootstrapped() && final(slot)@ == old(slot)@,
        outcome is Err ==> *final(client) == *old(client) && final(slot)@ == Some(
            outcome->Err_0,
        ),
{
    match outcome {
        Ok(()) => {
            client.bootstrapped = true;
            true
        },
        Err(e) => {
            update_last_error(slot, e);
            false
        },
    }
}

/// Set the client's operating mode to soft-dormant or back to normal. The
/// handle is borrowed, never consumed: it stays valid for later calls.
pub fn tor_client_set_dormant(client: &mut ClientHandle, soft_mode: bool)
    ensures
        final(client).is_soft_dormant() == soft_mode,
        final(client).is_bootstrapped() == old(client).is_bootstrapped(),
{
    client.soft_dormant = soft_mode;
}

/// Whether an exit-node query may proceed on this client: only once a
/// bootstrap has succeeded can a directory snapshot exist.
pub open spec fn exit_query_allowed(c: ClientHandle) -> bool {
    c.is_bootstrapped()
}

/// Gate of the exit-node query. Before any successful bootstrap the query
/// is refused: the no-directory failure is recorded and the caller returns
/// the null sentinel without touching the network.
pub fn get_exit_node_request(client: &ClientHandle, slot: &mut ErrorSlot) -> (r: bool)
    ensures
        r == exit_query_allowed(*client),
        !r ==> spec_message(final(slot)@) == "no directory available"@,
        r ==> final(slot)@ == old(slot)@,
{
    if client.bootstrapped {
        true
    } else {
        proof {
            reveal_strlit("no directory available");
        }
        let text = String::from_str("no directory available");
        update_last_error(slot, ErrorRecord::from_text(text, Vec::new()));
        false
    }
}

/// What the network layer reported for an exit-node query that was allowed
/// to proceed.
pub enum ExitNodeEvent {
    /// No timely directory snapshot was available after all.
    NoDirectory,
    /// The exit circuit could not be obtained or reused.
    CircuitFailed(ErrorRecord),
    /// A circuit was obtained; the identities of its path's hops, in order.
    Path(Vec<String>),
}

/// Fold in the outcome of an exit-node query: the identity of the last hop
/// of the circuit's path, or the null sentinel with the failure recorded.
pub fn get_exit_node_complete(event: ExitNodeEvent, slot: &mut ErrorSlot) -> (r: Option<String>)
    requires
        event matches ExitNodeEvent::Path(hops) ==> (hops@.len() > 0 ==> boundary_text_ok(
            hops@[hops@.len() - 1]@,
        )),
    ensures
        event is NoDirectory ==> r is None && spec_message(final(slot)@)
            == "no directory available"@,
        event matches ExitNodeEvent::CircuitFailed(e) ==> r is None && final(slot)@ == Some(e),
        event matches ExitNodeEvent::Path(hops) ==> (hops@.len() == 0 ==> r is None
            && spec_message(final(slot)@) == "circuit path has no hops"@),
        event matches ExitNodeEvent::Path(hops) ==> (hops@.len() > 0 ==> {
            &&& r is Some
            &&& r->Some_0@ == hops@[hops@.len() - 1]@
            &&& boundary_text_ok(r->Some_0@)
            &&& final(slot)@ == old(slot)@
        }),
{
    match event {
        ExitNodeEvent::NoDirectory => {
            proof {
                reveal_strlit("no directory available");
            }
            let text = String::from_str("no directory available");
            update_last_error(slot, ErrorRecord::from_text(text, Vec::new()));
            None
        },
        ExitNodeEvent::CircuitFailed(e) => {
            update_last_error(slot, e);
            None
        },
        ExitNodeEvent::Path(hops) => {
            let mut hops = hops;
            if hops.len() == 0 {
                proof {
                    reveal_strlit("circuit path has no hops");
                }
                let text = String::from_str("circuit path has no hops");
                update_last_error(slot, ErrorRecord::from_text(text, Vec::new()));
                None
            } else {
                hops.pop()
            }
        },
    }
}

/// Stop the proxy front-end task. The running handle is consumed — the one
/// capability over the task is spent, so no still-valid path reaches a
/// second stop — and what remains designates a cancelled task.
pub fn tor_proxy_stop(proxy: ProxyHandle) -> (r: StoppedProxy)
    ensures
        r.spec_port() == proxy.spec_port(),
        !r.accepts_new_connections(),
{
    StoppedProxy { port: proxy.port }
}

/// Law: for a well-formed start request whose network work succeeds, the
/// released bundle carries both handles, and a subsequent bootstrap on its
/// client reports success and leaves the handle bootstrapped.
pub proof fn lemma_start_then_bootstrap(port: u16, state_dir: Seq<u8>, cache_dir: Seq<u8>)
    requires
        start_accepts(state_dir, cache_dir),
    ensures
        ({
            let t = spec_start_bundle(port, true);
            &&& t.client is Some
            &&& t.proxy is Some
            &&& spec_bootstrap(t.client->Some_0, true).1 == true
            &&& spec_bootstrap(t.client->Some_0, true).0.is_bootstrapped()
            &&& exit_query_allowed(spec_bootstrap(t.client->Some_0, true).0)
        }),
{
}

/// Law: for malformed directory text the start operation releases the null
/// bundle, and the message recorded for the failure is non-empty.
pub proof fn lemma_start_rejects_malformed(port: u16, state_dir: Seq<u8>, cache_dir: Seq<u8>)
    requires
        !start_accepts(state_dir, cache_dir),
    ensures
        spec_start_bundle(port, false).client is None,
        spec_start_bundle(port, false).proxy is None,
        boundary_text_ok("state directory path is not valid UTF-8"@),
        boundary_text_ok("cache directory path is not valid UTF-8"@),
{
    reveal_strlit("state directory path is not valid UTF-8");
    reveal_strlit("cache directory path is not valid UTF-8");
}

/// Law: an exit-node query on a client that has not completed a successful
/// bootstrap is refused, and the no-directory message it records is
/// non-empty.
pub proof fn lemma_exit_query_needs_bootstrap()
    ensures
        !exit_query_allowed(spec_new_client()),
        boundary_text_ok("no directory available"@),
{
    reveal_strlit("no directory available");
}

} // verus!
