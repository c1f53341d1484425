use vstd::prelude::*;
use crate::registry::{ClientInfo, ClientRegistry};

verus! {

/// The per-connection state machine:
/// `Handshaking -> Registered -> Receiving -> Closing -> Closed`.
/// A handshake failure goes straight to `Closed` with no registry entry.
pub enum ConnPhase {
    /// Performing the WebSocket upgrade handshake.
    Handshaking,
    /// Handshake succeeded; the client is in the registry.
    Registered,
    /// Pumping inbound frames.
    Receiving,
    /// The receive loop ended; the client is being deregistered.
    Closing,
    /// Done; nothing of this connection remains.
    Closed,
}

/// What the connection's driver observed.
pub enum ConnEvent {
    /// The WebSocket upgrade handshake succeeded.
    HandshakeOk,
    /// The handshake failed (protocol violation, abrupt close): fatal to this
    /// one connection only, reported as a warning, never to the server.
    HandshakeFailed,
    /// A text frame arrived.
    TextFrame,
    /// A close frame arrived.
    CloseFrame,
    /// A non-text, non-close frame arrived (binary, or a control frame the
    /// protocol layer already answered): ignored.
    OtherFrame,
    /// Reading the socket failed: a transport error ends the receive loop.
    TransportError,
    /// The deregistration and the disconnect notification are done.
    CleanupDone,
}

/// What the driver must do for one transition.
pub enum ConnAction {
    /// Generate a fresh id, insert the client into the registry, and notify
    /// the host that a client connected.
    Register,
    /// Forward the text frame verbatim to the host, tagged with the client id.
    ForwardText,
    /// Remove the client id from the registry (tolerating that a concurrent
    /// stop already cleared it) and notify the host of the disconnect.
    Deregister,
    /// Nothing.
    NoWork,
}

/// One transition of the per-connection state machine. Frames drive the
/// machine only while it is registered or receiving; a close frame and a
/// transport error take the same path into `Closing`, so the cleanup runs
/// once whatever the trigger was. Events that cannot occur in a phase leave
/// the phase unchanged and ask for nothing.
pub fn conn_step(phase: &ConnPhase, event: &ConnEvent) -> (r: (ConnPhase, ConnAction))
    ensures
        r == spec_conn_step(*phase, *event),
{
    match (phase, event) {
        (ConnPhase::Handshaking, ConnEvent::HandshakeOk) => (
            ConnPhase::Registered,
            ConnAction::Register,
        ),
        (ConnPhase::Handshaking, ConnEvent::HandshakeFailed) => (
            ConnPhase::Closed,
            ConnAction::NoWork,
        ),
        (ConnPhase::Registered, ConnEvent::TextFrame) => (
            ConnPhase::Receiving,
            ConnAction::ForwardText,
        ),
        (ConnPhase::Registered, ConnEvent::OtherFrame) => (ConnPhase::Receiving, ConnAction::NoWork),
        (ConnPhase::Registered, ConnEvent::CloseFrame) => (ConnPhase::Closing, ConnAction::Deregister),
        (ConnPhase::Registered, ConnEvent::TransportError) => (
            ConnPhase::Closing,
            ConnAction::Deregister,
        ),
        (ConnPhase::Receiving, ConnEvent::TextFrame) => (
            ConnPhase::Receiving,
            ConnAction::ForwardText,
        ),
        (ConnPhase::Receiving, ConnEvent::OtherFrame) => (ConnPhase::Receiving, ConnAction::NoWork),
        (ConnPhase::Receiving, ConnEvent::CloseFrame) => (ConnPhase::Closing, ConnAction::Deregister),
        (ConnPhase::Receiving, ConnEvent::TransportError) => (
            ConnPhase::Closing,
            ConnAction::Deregister,
        ),
        (ConnPhase::Closing, ConnEvent::CleanupDone) => (ConnPhase::Closed, ConnAction::NoWork),
        (ConnPhase::Handshaking, _) => (ConnPhase::Handshaking, ConnAction::NoWork),
        (ConnPhase::Registered, _) => (ConnPhase::Registered, ConnAction::NoWork),
        (ConnPhase::Receiving, _) => (ConnPhase::Receiving, ConnAction::NoWork),
        (ConnPhase::Closing, _) => (ConnPhase::Closing, ConnAction::NoWork),
        (ConnPhase::Closed, _) => (ConnPhase::Closed, ConnAction::NoWork),
    }
}

/// `conn_step` as a specification, so that whole runs can be reasoned about.
pub open spec fn spec_conn_step(phase: ConnPhase, event: ConnEvent) -> (ConnPhase, ConnAction) {
    match (phase, event) {
        (ConnPhase::Handshaking, ConnEvent::HandshakeOk) => (
            ConnPhase::Registered,
            ConnAction::Register,
        ),
        (ConnPhase::Handshaking, ConnEvent::HandshakeFailed) => (
            ConnPhase::Closed,
            ConnAction::NoWork,
        ),
        (ConnPhase::Registered, ConnEvent::TextFrame) => (
            ConnPhase::Receiving,
            ConnAction::ForwardText,
        ),
        (ConnPhase::Registered, ConnEvent::OtherFrame) => (ConnPhase::Receiving, ConnAction::NoWork),
        (ConnPhase::Registered, ConnEvent::CloseFrame) => (ConnPhase::Closing, ConnAction::Deregister),
        (ConnPhase::Registered, ConnEvent::TransportError) => (
            ConnPhase::Closing,
            ConnAction::Deregister,
        ),
        (ConnPhase::Receiving, ConnEvent::TextFrame) => (
            ConnPhase::Receiving,
            ConnAction::ForwardText,
        ),
        (ConnPhase::Receiving, ConnEvent::OtherFrame) => (ConnPhase::Receiving, ConnAction::NoWork),
        (ConnPhase::Receiving, ConnEvent::CloseFrame) => (ConnPhase::Closing, ConnAction::Deregister),
        (ConnPhase::Receiving, ConnEvent::TransportError) => (
            ConnPhase::Closing,
            ConnAction::Deregister,
        ),
        (ConnPhase::Closing, ConnEvent::CleanupDone) => (ConnPhase::Closed, ConnAction::NoWork),
        (p, _) => (p, ConnAction::NoWork),
    }
}

/// The phase a connection reaches after a sequence of events, starting from
/// `Handshaking`.
pub open spec fn run_phase(events: Seq<ConnEvent>) -> ConnPhase
    decreases events.len(),
{
    if events.len() == 0 {
        ConnPhase::Handshaking
    } else {
        spec_conn_step(run_phase(events.drop_last()), events.last()).0
    }
}

/// How many transitions of the run asked for `Register`.
pub open spec fn register_count(events: Seq<ConnEvent>) -> int
    decreases events.len(),
{
    if events.len() == 0 {
        0
    } else {
        register_count(events.drop_last()) + if spec_conn_step(
            run_phase(events.drop_last()),
            events.last(),
        ).1 is Register {
            1int
        } else {
            0int
        }
    }
}

/// How many transitions of the run asked for `Deregister`.
pub open spec fn deregister_count(events: Seq<ConnEvent>) -> int
    decreases events.len(),
{
    if events.len() == 0 {
        0
    } else {
        deregister_count(events.drop_last()) + if spec_conn_step(
            run_phase(events.drop_last()),
            events.last(),
        ).1 is Deregister {
            1int
        } else {
            0int
        }
    }
}

/// Whatever events drive a connection, it registers at most once, and it
/// deregisters exactly once per registration — never before registering,
/// never twice — whichever of the triggers (peer close, transport error,
/// forced shutdown) ended its receive loop. So no connection leaks a registry
/// entry and none removes one twice.
pub proof fn lemma_cleanup_runs_once(events: Seq<ConnEvent>)
    ensures
        0 <= register_count(events) <= 1,
        deregister_count(events) <= register_count(events),
        run_phase(events) is Handshaking ==> register_count(events) == 0
            && deregister_count(events) == 0,
        run_phase(events) is Registered || run_phase(events) is Receiving ==> register_count(
            events,
        ) == 1 && deregister_count(events) == 0,
        run_phase(events) is Closing || run_phase(events) is Closed ==> deregister_count(events)
            == register_count(events),
    decreases events.len(),
{
    if events.len() > 0 {
        lemma_cleanup_runs_once(events.drop_last());
    }
}

/// Relies on `uuid::Uuid::new_v4` and its `Display` implementation: a fresh
/// random identifier rendered in the hyphenated form, which is always 36
/// characters. Randomness promises nothing further, so callers treat the id
/// as opaque and the registry treats a collision like any existing key.
#[verifier::external_body]
fn fresh_client_id() -> (r: String)
    ensures
        r@.len() == 36,
{
    uuid::Uuid::new_v4().to_string()
}

/// The `Register` action: generates a fresh client id, builds the client
/// record, and inserts it into the registry. Returns the id — the handle the
/// host uses from here on — and any entry the insert evicted (only an id
/// collision evicts one; the caller closes it rather than leak its socket).
pub fn register_client<C>(registry: &mut ClientRegistry<C>, addr: String, sender: C) -> (r: (
    String,
    Option<ClientInfo<C>>,
))
    requires
        old(registry).wf(),
    ensures
        final(registry).wf(),
        r.0@.len() == 36,
        final(registry).contains_id(r.0@),
        final(registry).client_of(r.0@).id@ == r.0@,
        final(registry).client_of(r.0@).addr == addr,
        final(registry).client_of(r.0@).sender == sender,
        forall|x: Seq<char>| x != r.0@ ==>
            final(registry).contains_id(x) == old(registry).contains_id(x),
        forall|x: Seq<char>| x != r.0@ && old(registry).contains_id(x) ==>
            final(registry).client_of(x) == old(registry).client_of(x),
        match r.1 {
            Some(p) => old(registry).contains_id(r.0@)
                && p == old(registry).client_of(r.0@)
                && final(registry).entries().len() == old(registry).entries().len(),
            None => !old(registry).contains_id(r.0@)
                && final(registry).entries().len() == old(registry).entries().len() + 1,
        },
{
    let id = fresh_client_id();
    let id_copy = id.clone();
    let prev = registry.insert(ClientInfo { id, addr, sender });
    (id_copy, prev)
}

} // verus!
