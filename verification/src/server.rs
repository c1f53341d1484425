use vstd::prelude::*;
use crate::errors::ServerError;
use crate::registry::{ClientInfo, ClientRegistry};

verus! {

/// What the accept loop saw in one iteration: it races a new inbound
/// connection against a short poll timer, so that a stop request is noticed
/// within a bounded delay even while no connection arrives.
pub enum AcceptEvent {
    /// A new inbound connection arrived.
    Incoming,
    /// Accepting failed fatally; treated as equivalent to a stop.
    AcceptFailed,
    /// The poll timer fired before any connection arrived.
    PollTick,
}

/// What the accept loop does next.
pub enum AcceptDecision {
    /// Hand the new socket to a connection handler, then keep looping.
    SpawnHandler,
    /// Nothing to do; loop again.
    KeepWaiting,
    /// Leave the loop.
    Exit,
}

/// One iteration of the accept loop, as a decision from the stop flag and the
/// iteration's event. Whenever the flag has been cleared the decision is
/// `Exit`, whatever the event: a stop issued while the loop is blocked
/// waiting for a connection takes effect at the next poll tick, so the loop
/// exits within the poll interval (`crate::ACCEPT_POLL_MILLIS`), never
/// "never". A fatal accept error also exits the loop.
pub fn accept_step(running: bool, event: &AcceptEvent) -> (d: AcceptDecision)
    ensures
        !running ==> d is Exit,
        running ==> match event {
            AcceptEvent::Incoming => d is SpawnHandler,
            AcceptEvent::AcceptFailed => d is Exit,
            AcceptEvent::PollTick => d is KeepWaiting,
        },
{
    if !running {
        AcceptDecision::Exit
    } else {
        match event {
            AcceptEvent::Incoming => AcceptDecision::SpawnHandler,
            AcceptEvent::AcceptFailed => AcceptDecision::Exit,
            AcceptEvent::PollTick => AcceptDecision::KeepWaiting,
        }
    }
}

/// The engine state that the host's commands drive: the running flag, whether
/// an accept-loop task is live, and the shared client registry. The embedding
/// application puts one value of this behind its single guard; every decision
/// about that state is made here, under contract.
pub struct EngineCore<C> {
    /// The stop flag the accept loop polls.
    pub running: bool,
    /// Whether an accept-loop task currently holds the listening socket.
    pub accept_task_live: bool,
    /// The shared client registry.
    pub registry: ClientRegistry<C>,
}

/// The observable engine state: what the lifecycle contracts speak of.
pub struct EngineObs<C> {
    pub running: bool,
    pub accept_task_live: bool,
    pub entries: Seq<ClientInfo<C>>,
}

/// The stopped state: no flag, no task, no clients.
pub open spec fn stopped_obs<C>() -> EngineObs<C> {
    EngineObs { running: false, accept_task_live: false, entries: Seq::empty() }
}

/// One pass of the stop protocol, as a function of the observable state: it
/// always leads to the stopped state, and hands out exactly the registered
/// clients so that each can be sent a best-effort close after the guard is
/// released.
pub open spec fn stop_transition<C>(s: EngineObs<C>) -> (EngineObs<C>, Seq<ClientInfo<C>>) {
    (stopped_obs(), s.entries)
}

impl<C> EngineCore<C> {
    /// Well-formedness: the registry's ids are unique.
    pub open spec fn wf(&self) -> bool {
        self.registry.wf()
    }

    /// The observable state.
    pub open spec fn obs(&self) -> EngineObs<C> {
        EngineObs {
            running: self.running,
            accept_task_live: self.accept_task_live,
            entries: self.registry.entries(),
        }
    }

    /// A stopped engine with no clients.
    pub fn new() -> (r: Self)
        ensures
            r.wf(),
            r.obs() == stopped_obs::<C>(),
    {
        let r = EngineCore { running: false, accept_task_live: false, registry: ClientRegistry::new() };
        proof {
            assert(r.registry.entries() =~= Seq::<ClientInfo<C>>::empty());
        }
        r
    }

    /// Records the outcome of binding the listening socket. On success the
    /// engine is running and an accept-loop task is live; on failure the
    /// engine is left exactly as it was — the server remains stopped and the
    /// failure is reported as `BindError`, fatal only to this start attempt.
    pub fn on_bind_result(&mut self, bind_ok: bool) -> (r: Result<(), ServerError>)
        requires
            old(self).wf(),
        ensures
            final(self).wf(),
            final(self).registry == old(self).registry,
            bind_ok ==> r is Ok
                && final(self).running
                && final(self).accept_task_live,
            !bind_ok ==> (r matches Err(e) && e is BindError)
                && *final(self) == *old(self),
    {
        if bind_ok {
            self.running = true;
            self.accept_task_live = true;
            Ok(())
        } else {
            Err(ServerError::BindError)
        }
    }

    /// Records that the accept loop exited (it observed the stop flag, or a
    /// fatal accept error ended it). The listening socket is released with
    /// the loop; the registry is untouched.
    pub fn on_accept_loop_exit(&mut self)
        requires
            old(self).wf(),
        ensures
            final(self).wf(),
            !final(self).accept_task_live,
            final(self).running == old(self).running,
            final(self).registry == old(self).registry,
    {
        self.accept_task_live = false;
    }

    /// One pass of the stop protocol over the shared state: clears the stop
    /// flag so the accept loop exits within the poll interval, forgets the
    /// accept task, empties the registry unconditionally, and hands out every
    /// entry so the caller can send each client a best-effort close frame.
    /// Stop is idempotent: from the stopped state it changes nothing and
    /// hands out no client, yet still returns, so completion is always
    /// reported (see `lemma_stop_idempotent`).
    pub fn stop(&mut self) -> (to_close: Vec<ClientInfo<C>>)
        requires
            old(self).wf(),
        ensures
            final(self).wf(),
            ({
                let (after, closed) = stop_transition(old(self).obs());
                final(self).obs() == after && to_close@ == closed
            }),
    {
        self.running = false;
        self.accept_task_live = false;
        self.registry.drain()
    }
}

/// Calling stop twice in succession is safe: the first pass leaves the
/// stopped state, and a second pass from there is a no-op — it changes
/// nothing and finds no client to close — while still completing, so the
/// host is notified both times.
pub proof fn lemma_stop_idempotent<C>(s: EngineObs<C>)
    ensures
        ({
            let (first, _) = stop_transition(s);
            let (second, closed_second) = stop_transition(first);
            second == first && closed_second.len() == 0
        }),
{
}

/// Maps whether shutdown confirmed within its deadline to the report handed
/// to the host: a stop that did not confirm in time is `ShutdownTimeout`,
/// and cleanup proceeds regardless.
pub fn stop_report(confirmed_in_time: bool) -> (r: Result<(), ServerError>)
    ensures
        confirmed_in_time <==> r is Ok,
        !confirmed_in_time ==> (r matches Err(e) && e is ShutdownTimeout),
{
    if confirmed_in_time {
        Ok(())
    } else {
        Err(ServerError::ShutdownTimeout)
    }
}

} // verus!
