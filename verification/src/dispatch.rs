use vstd::prelude::*;
use crate::errors::DeliveryError;
use crate::registry::{ClientInfo, ClientRegistry};

verus! {

/// Where the host's outbound text goes: to the client the host selected, or
/// to every client when none is selected.
pub enum OutboundRoute {
    ToClient(String),
    ToAll,
}

/// Picks the route for host-originated outbound text: the selected client id
/// when the host supplied one, broadcast otherwise.
pub fn route_outbound(selected: &Option<String>) -> (r: OutboundRoute)
    ensures
        match selected {
            Some(id) => r matches OutboundRoute::ToClient(x) && x@ == id@,
            None => r is ToAll,
        },
{
    match selected {
        Some(id) => OutboundRoute::ToClient(id.clone()),
        None => OutboundRoute::ToAll,
    }
}

/// Unicast target lookup: the client carrying `id`, or `ClientNotFound` when
/// the id is absent. Takes the registry by shared borrow, so a miss cannot
/// disturb the registry or any other client.
pub fn lookup_target<'a, C>(registry: &'a ClientRegistry<C>, id: &String) -> (r: Result<
    &'a ClientInfo<C>,
    DeliveryError,
>)
    requires
        registry.wf(),
    ensures
        registry.contains_id(id@) ==> (r matches Ok(c) && *c == registry.client_of(id@)),
        !registry.contains_id(id@) ==> (r matches Err(e) && e is ClientNotFound),
{
    match registry.get(id) {
        Some(c) => Ok(c),
        None => Err(DeliveryError::ClientNotFound),
    }
}

/// Turns the transport outcome of the single unicast write into the unicast
/// result: success passes through, a failed write is `WriteFailed`. The
/// connection is not removed here; removal is the receive loop's job.
pub fn unicast_report(write_ok: bool) -> (r: Result<(), DeliveryError>)
    ensures
        write_ok <==> r is Ok,
        !write_ok ==> (r matches Err(e) && e is WriteFailed),
{
    if write_ok {
        Ok(())
    } else {
        Err(DeliveryError::WriteFailed)
    }
}

/// The ids of the failed attempts, in attempt order: each attempt is a client
/// id paired with whether its write succeeded.
pub open spec fn failed_ids(attempts: Seq<(String, bool)>) -> Seq<Seq<char>>
    decreases attempts.len(),
{
    if attempts.len() == 0 {
        Seq::empty()
    } else {
        let rest = failed_ids(attempts.drop_last());
        if attempts.last().1 {
            rest
        } else {
            rest.push(attempts.last().0@)
        }
    }
}

/// How many attempts failed.
pub open spec fn failure_count(attempts: Seq<(String, bool)>) -> int
    decreases attempts.len(),
{
    if attempts.len() == 0 {
        0
    } else {
        failure_count(attempts.drop_last()) + if attempts.last().1 {
            0int
        } else {
            1int
        }
    }
}

/// Aggregates a broadcast's per-client outcomes: `Ok` when every write
/// succeeded, otherwise `PartialDelivery` carrying exactly the ids whose
/// write failed, in attempt order. Broadcast is best-effort, at-most-once per
/// client: a partial failure is not a total failure.
pub fn broadcast_report(attempts: &Vec<(String, bool)>) -> (r: Result<(), DeliveryError>)
    ensures
        failed_ids(attempts@).len() == 0 <==> r is Ok,
        r is Err ==> (r matches Err(DeliveryError::PartialDelivery { failed })
            && failed@.map_values(|s: String| s@) == failed_ids(attempts@)),
{
    let n = attempts.len();
    let mut failed: Vec<String> = Vec::new();
    let mut i: usize = 0;
    while i < n
        invariant
            i <= n,
            n == attempts@.len(),
            failed@.map_values(|s: String| s@) == failed_ids(attempts@.take(i as int)),
        decreases n - i,
    {
        let ghost pre = failed@;
        if !attempts[i].1 {
            failed.push(attempts[i].0.clone());
            proof {
                assert(failed@.map_values(|s: String| s@) =~= pre.map_values(|s: String| s@).push(
                    attempts@[i as int].0@,
                ));
            }
        }
        proof {
            assert(attempts@.take(i + 1).drop_last() =~= attempts@.take(i as int));
            assert(attempts@.take(i + 1).last() == attempts@[i as int]);
        }
        i = i + 1;
    }
    proof {
        assert(attempts@.take(n as int) =~= attempts@);
    }
    if failed.is_empty() {
        Ok(())
    } else {
        Err(DeliveryError::PartialDelivery { failed })
    }
}

/// A broadcast reports exactly the failures: an id stands in the failed list
/// precisely when some failed attempt carried it, every succeeded attempt's
/// outcome is kept out of it, and its length is the number of failed
/// attempts.
pub proof fn lemma_broadcast_reports_exact_failures(attempts: Seq<(String, bool)>)
    ensures
        forall|x: Seq<char>|
            failed_ids(attempts).contains(x) <==> exists|i: int|
                0 <= i < attempts.len() && !(#[trigger] attempts[i]).1 && attempts[i].0@ == x,
        failed_ids(attempts).len() == failure_count(attempts),
    decreases attempts.len(),
{
    if attempts.len() > 0 {
        let prior = attempts.drop_last();
        lemma_broadcast_reports_exact_failures(prior);
        assert forall|x: Seq<char>|
            failed_ids(attempts).contains(x) <==> exists|i: int|
                0 <= i < attempts.len() && !(#[trigger] attempts[i]).1 && attempts[i].0@ == x by {
            let last = attempts.last();
            if failed_ids(attempts).contains(x) {
                if last.1 {
                    let i = choose|i: int|
                        0 <= i < prior.len() && !(#[trigger] prior[i]).1 && prior[i].0@ == x;
                    assert(!attempts[i].1 && attempts[i].0@ == x);
                } else {
                    let k = choose|k: int|
                        0 <= k < failed_ids(attempts).len() && failed_ids(attempts)[k] == x;
                    if k < failed_ids(prior).len() {
                        assert(failed_ids(prior).contains(x));
                        let i = choose|i: int|
                            0 <= i < prior.len() && !(#[trigger] prior[i]).1 && prior[i].0@ == x;
                        assert(!attempts[i].1 && attempts[i].0@ == x);
                    } else {
                        let i = attempts.len() - 1;
                        assert(!attempts[i].1 && attempts[i].0@ == x);
                    }
                }
            }
            if exists|i: int|
                0 <= i < attempts.len() && !(#[trigger] attempts[i]).1 && attempts[i].0@ == x {
                let i = choose|i: int|
                    0 <= i < attempts.len() && !(#[trigger] attempts[i]).1 && attempts[i].0@ == x;
                if i < attempts.len() - 1 {
                    assert(!prior[i].1 && prior[i].0@ == x);
                    assert(failed_ids(prior).contains(x));
                    let k = choose|k: int|
                        0 <= k < failed_ids(prior).len() && failed_ids(prior)[k] == x;
                    if last.1 {
                        assert(failed_ids(attempts)[k] == x);
                    } else {
                        assert(failed_ids(attempts)[k] == x);
                    }
                } else {
                    assert(!last.1);
                    assert(failed_ids(attempts).last() == x);
                }
            }
        }
    }
}

} // verus!
