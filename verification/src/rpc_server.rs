//! Decisions of the server for the calls of other members.
use vstd::prelude::*;

verus! {

pub const RPC_CONNECTION_WORKERS: usize = 8;

pub const RPC_CONNECTION_QUEUE_CAPACITY: usize = 64;

/// Connections that wait for a worker and connections that are served.
#[derive(Debug, Clone, Copy, PartialEq, Eq, Structural)]
pub struct RaftRpcLoad {
    pub queued_connections: usize,
    pub active_connections: usize,
}

/// What the listener met.
#[derive(Debug, Clone, Copy, PartialEq, Eq, Structural)]
pub enum AcceptEvent {
    /// A connection went into the queue.
    Queued,
    /// A connection came, but the queue was full.
    QueueFull,
    /// A connection came, but all workers are gone.
    WorkersGone,
    /// No connection came.
    Nothing,
    /// The listener failed.
    Failed,
}

/// What the listener does next.
#[derive(Debug, Clone, Copy, PartialEq, Eq, Structural)]
pub enum AcceptStep {
    AcceptNext,
    CloseConnection,
    Pause,
    FailWorkersGone,
    FailListener,
}

/// What the listener does next.
pub open spec fn accept_step(event: AcceptEvent) -> AcceptStep {
    match event {
        AcceptEvent::Queued => AcceptStep::AcceptNext,
        AcceptEvent::QueueFull => AcceptStep::CloseConnection,
        AcceptEvent::WorkersGone => AcceptStep::FailWorkersGone,
        AcceptEvent::Nothing => AcceptStep::Pause,
        AcceptEvent::Failed => AcceptStep::FailListener,
    }
}

impl RaftRpcLoad {
    /// No connection at all.
    pub fn idle() -> (r: Self)
        ensures
            r.queued_connections == 0,
            r.active_connections == 0,
    {
        RaftRpcLoad { queued_connections: 0, active_connections: 0 }
    }

    /// Take note of what the listener met. Only a connection that is in the queue counts.
    pub fn accepted(&mut self, event: AcceptEvent) -> (r: AcceptStep)
        requires
            old(self).queued_connections < usize::MAX,
        ensures
            r == accept_step(event),
            final(self).active_connections == old(self).active_connections,
            final(self).queued_connections == old(self).queued_connections + (if event
                == AcceptEvent::Queued {
                1int
            } else {
                0int
            }),
    {
        match event {
            AcceptEvent::Queued => {
                self.queued_connections = self.queued_connections + 1;
                AcceptStep::AcceptNext
            },
            AcceptEvent::QueueFull => AcceptStep::CloseConnection,
            AcceptEvent::WorkersGone => AcceptStep::FailWorkersGone,
            AcceptEvent::Nothing => AcceptStep::Pause,
            AcceptEvent::Failed => AcceptStep::FailListener,
        }
    }

    /// A worker took a connection from the queue. It serves it unless the server is stopping.
    pub fn taken(&mut self, stopping: bool) -> (r: bool)
        requires
            old(self).queued_connections > 0,
            old(self).active_connections < usize::MAX,
        ensures
            r == !stopping,
            final(self).queued_connections == old(self).queued_connections - 1,
            final(self).active_connections == old(self).active_connections + (if stopping {
                0int
            } else {
                1int
            }),
    {
        self.queued_connections = self.queued_connections - 1;
        if !stopping {
            self.active_connections = self.active_connections + 1;
        }
        !stopping
    }

    /// A worker is done with a connection.
    pub fn served(&mut self)
        requires
            old(self).active_connections > 0,
        ensures
            final(self).queued_connections == old(self).queued_connections,
            final(self).active_connections == old(self).active_connections - 1,
    {
        self.active_connections = self.active_connections - 1;
    }
}

/// The last error of the workers, if there is one.
pub open spec fn last_failure(workers: Seq<Result<(), String>>) -> Option<String>
    decreases workers.len(),
{
    if workers.len() == 0 {
        None
    } else {
        match workers.last() {
            Err(error) => Some(error),
            Ok(_) => last_failure(workers.drop_last()),
        }
    }
}

/// What stopping the server comes to: the error of the listener, else the last error of a worker.
pub fn stop_result(listener: Result<(), String>, workers: Vec<Result<(), String>>) -> (r: Result<
    (),
    String,
>)
    ensures
        match listener {
            Err(error) => r == Err::<(), String>(error),
            Ok(_) => match last_failure(workers@) {
                Some(error) => r == Err::<(), String>(error),
                None => r is Ok,
            },
        },
{
    match listener {
        Err(error) => return Err(error),
        Ok(_) => {},
    }
    let mut rest = workers;
    while rest.len() > 0
        invariant
            last_failure(rest@) == last_failure(workers@),
            listener is Ok,
        decreases rest.len(),
    {
        let ghost before = rest@;
        match rest.pop() {
            Some(Err(error)) => return Err(error),
            _ => {},
        }
        assert(rest@ =~= before.drop_last());
    }
    Ok(())
}

} // verus!
