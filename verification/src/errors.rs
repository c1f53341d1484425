use vstd::prelude::*;

verus! {

/// Why an outbound delivery did not fully succeed.
#[derive(Debug)]
pub enum DeliveryError {
    /// The unicast target id was absent from the registry.
    ClientNotFound,
    /// The transport write to the single unicast target failed.
    WriteFailed,
    /// A broadcast reached only part of the clients; `failed` holds the ids
    /// of the clients whose write failed, in snapshot order.
    PartialDelivery { failed: Vec<String> },
}

/// Server-level failures, reported to the host and never raised as a panic.
#[derive(Debug)]
pub enum ServerError {
    /// The listening address could not be bound; the server remains stopped.
    BindError,
    /// Shutdown did not confirm within its deadline; cleanup still proceeded.
    ShutdownTimeout,
}

} // verus!
