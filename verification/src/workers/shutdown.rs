//! Closing the engine once every worker has let go of it.

use crate::error::Error;
use std::sync::Arc;
use vstd::prelude::*;

verus! {

/// The rendezvous that turns any number of retiring workers into one engine close.
///
/// Closing needs what no single worker has: certainty that every other worker has let go of the
/// engine. Each worker deposits its handle here as it counts itself out, so the worker that
/// brings the count to zero knows every handle is in the vault. That worker is also handed the
/// reply, which is what the caller of the close is answered through.
pub struct Shutdown<C, P> {
    remaining: u32,
    handles: Vec<Arc<C>>,
    reply: Option<P>,
}

/// Where a rendezvous stands.
#[verifier::ext_equal]
pub struct ShutdownView<C, P> {
    /// Workers that have not retired yet.
    pub remaining: nat,
    /// The handles of those that have, in the order they came.
    pub handles: Seq<Arc<C>>,
    /// What the close is answered through, until somebody has been handed it.
    pub reply: Option<P>,
}

/// What the last worker out is handed.
pub struct Last<C, P> {
    /// Its own handle, to close the engine through.
    pub own: Arc<C>,
    /// Everybody else's, to be let go first.
    pub others: Vec<Arc<C>>,
    /// What the close is answered through.
    pub reply: P,
}

/// [`Last`] by what it holds.
#[verifier::ext_equal]
pub struct LastView<C, P> {
    pub own: Arc<C>,
    pub others: Seq<Arc<C>>,
    pub reply: P,
}

impl<C, P> View for Last<C, P> {
    type V = LastView<C, P>;

    open spec fn view(&self) -> LastView<C, P> {
        LastView { own: self.own, others: self.others@, reply: self.reply }
    }
}

impl<C, P> ShutdownView<C, P> {
    /// A rendezvous of `workers` workers.
    pub open spec fn start(workers: nat, reply: P) -> ShutdownView<C, P> {
        ShutdownView { remaining: workers, handles: Seq::empty(), reply: Some(reply) }
    }

    /// Where a worker's retiring leaves the rendezvous, and what the last worker out is handed.
    pub open spec fn retire(self, client: Arc<C>) -> (
        ShutdownView<C, P>,
        Option<LastView<C, P>>,
    ) {
        match (self.remaining == 1, self.reply) {
            (true, Some(reply)) => (
                ShutdownView { remaining: 0, handles: Seq::empty(), reply: None },
                Some(LastView { own: client, others: self.handles, reply }),
            ),
            _ => (
                ShutdownView {
                    remaining: (self.remaining - 1) as nat,
                    handles: self.handles.push(client),
                    ..self
                },
                None,
            ),
        }
    }
}

impl<C, P> View for Shutdown<C, P> {
    type V = ShutdownView<C, P>;

    closed spec fn view(&self) -> ShutdownView<C, P> {
        ShutdownView {
            remaining: self.remaining as nat,
            handles: self.handles@,
            reply: self.reply,
        }
    }
}

impl<C, P> Shutdown<C, P> {
    /// A rendezvous of `workers` workers.
    pub fn new(workers: u32, reply: P) -> (shutdown: Self)
        ensures
            shutdown@ == ShutdownView::<C, P>::start(workers as nat, reply),
    {
        Self { remaining: workers, handles: Vec::new(), reply: Some(reply) }
    }

    /// Workers that have not retired yet.
    pub fn remaining(&self) -> (remaining: u32)
        ensures
            remaining == self@.remaining,
    {
        self.remaining
    }

    /// Called once by every worker as it retires. Answers the last of them, and nobody else,
    /// the handle to close the engine through, the other handles to let go of before that, and
    /// the reply.
    pub fn retire(&mut self, client: Arc<C>) -> (last: Option<Last<C, P>>)
        requires
            old(self)@.remaining > 0,
        ensures
            final(self)@ == old(self)@.retire(client).0,
            match last {
                Some(last) => old(self)@.retire(client).1 == Some(last@),
                None => old(self)@.retire(client).1 is None,
            },
    {
        self.remaining = self.remaining - 1;
        if self.remaining == 0 {
            if let Some(reply) = self.reply.take() {
                let mut others: Vec<Arc<C>> = Vec::new();
                core::mem::swap(&mut self.handles, &mut others);
                return Some(Last { own: client, others, reply });
            }
        }
        self.handles.push(client);
        None
    }
}

/// What a close is answered: what `close` says of the client, where the last worker's handle
/// turned out to be the only one left and gave it up, and that the client is closed where somebody
/// else still holds one.
pub fn answer<C, F: FnOnce(C) -> Result<(), Error>>(owned: Option<C>, close: F) -> (answer: Result<
    (),
    Error,
>)
    requires
        owned is Some ==> call_requires(close, (owned->0,)),
    ensures
        match owned {
            Some(client) => call_ensures(close, (client,), answer),
            None => answer == Err::<(), Error>(Error::Closed),
        },
{
    match owned {
        Some(client) => close(client),
        None => Err(Error::Closed),
    }
}

/// Where the retiring of one worker after another leaves a rendezvous.
pub open spec fn retired_all<C, P>(shutdown: ShutdownView<C, P>, clients: Seq<Arc<C>>) -> ShutdownView<
    C,
    P,
>
    decreases clients.len(),
{
    if clients.len() == 0 {
        shutdown
    } else {
        retired_all(shutdown, clients.drop_last()).retire(clients.last()).0
    }
}

/// The engine is closed, and the close answered, exactly once and only when every worker has
/// retired: of a rendezvous' workers none but the last to retire is handed anything, and that one
/// is handed every handle and the reply, of which nothing is left behind.
pub proof fn only_the_last_worker_closes<C, P>(workers: nat, reply: P, clients: Seq<Arc<C>>)
    requires
        0 < clients.len() <= workers,
    ensures
        ({
            let start = ShutdownView::<C, P>::start(workers, reply);
            let before = retired_all(start, clients.drop_last());
            let (after, handed) = before.retire(clients.last());
            &&& before.remaining == workers - clients.len() + 1
            &&& before.handles == clients.drop_last()
            &&& before.reply == Some(reply)
            &&& clients.len() < workers ==> handed is None
            &&& clients.len() == workers ==> {
                &&& handed == Some(
                    LastView { own: clients.last(), others: clients.drop_last(), reply },
                )
                &&& after.reply is None
                &&& after.handles == Seq::<Arc<C>>::empty()
            }
        }),
    decreases clients.len(),
{
    let earlier = clients.drop_last();
    if earlier.len() > 0 {
        only_the_last_worker_closes(workers, reply, earlier);
        assert(earlier.drop_last().push(earlier.last()) =~= earlier);
    } else {
        assert(earlier =~= Seq::<Arc<C>>::empty());
    }
}

} // verus!
