//! The module server: its registry of objects, the queues it pulls
//! requests from, and the decisions of its pull loop and of its workers.
use vstd::prelude::*;
use crate::protocol::{
    channel_name, channel_text, queue_name, queue_text, unknown_object_text, ObjectID, Output,
    Request, Response, RpcError,
};
use crate::table::Table;

verus! {

/// Seconds a blocking pop waits for a request before it is retried.
pub const PULL_TIMEOUT: u64 = 10;

/// Seconds a response stays on its reply queue.
pub const RESPONSE_TTL: u64 = 300;

/// Seconds the pull loop waits after a failure of the store.
pub const RETRY_DELAY: u64 = 2;

/// A module: objects of type `O` registered by identity, served by
/// `workers` concurrent calls over connections from `pool`.
pub struct Server<P, O> {
    module: String,
    pool: P,
    workers: usize,
    objects: Table<O>,
}

impl<P, O> Server<P, O> {
    pub closed spec fn module(&self) -> Seq<char> {
        self.module@
    }

    pub closed spec fn pool(&self) -> P {
        self.pool
    }

    pub closed spec fn workers(&self) -> usize {
        self.workers
    }

    /// The object registered under each address.
    pub closed spec fn objects(&self) -> Map<Seq<char>, O> {
        self.objects.map()
    }

    /// The addresses, in registration order.
    pub closed spec fn keys(&self) -> Seq<Seq<char>> {
        self.objects.keys()
    }

    #[verifier::type_invariant]
    spec fn inv(&self) -> bool {
        self.workers >= 1
    }

    /// An address leads to an object exactly when it is among the keys.
    pub proof fn lemma_registered(&self)
        ensures
            forall|k: Seq<char>| #[trigger] self.objects().contains_key(k) <==> self.keys().contains(k),
    {
        self.objects.lemma_registered();
    }

    pub fn new(pool: P, module: &str, workers: usize) -> (r: Server<P, O>)
        requires
            workers >= 1,
        ensures
            r.pool() == pool,
            r.module() == module@,
            r.workers() == workers,
            r.objects() == Map::<Seq<char>, O>::empty(),
            r.keys() == Seq::<Seq<char>>::empty(),
    {
        Server { pool, workers, module: module.to_owned(), objects: Table::new() }
    }

    /// Registers `object` under the address of its identity `id`; calls for
    /// that address go to it from then on.
    pub fn register(&mut self, id: &ObjectID, object: O)
        ensures
            final(self).module() == old(self).module(),
            final(self).pool() == old(self).pool(),
            final(self).workers() == old(self).workers(),
            final(self).objects() == old(self).objects().insert(id.text(), object),
            old(self).keys().contains(id.text()) ==> final(self).keys() == old(self).keys(),
            !old(self).keys().contains(id.text()) ==> final(self).keys() == old(self).keys().push(
                id.text(),
            ),
    {
        proof {
            use_type_invariant(&*self);
        }
        let key = id.to_string();
        let mut objects: Table<O> = Table::new();
        std::mem::swap(&mut objects, &mut self.objects);
        objects.insert(key, object);
        self.objects = objects;
    }

    /// The queues the module pulls requests from: one per registered
    /// object, in registration order.
    pub fn queues(&self) -> (r: Vec<String>)
        ensures
            r@.len() == self.keys().len(),
            forall|i: int|
                0 <= i < r@.len() ==> #[trigger] r@[i]@ == queue_text(self.module(), self.keys()[i]),
    {
        let mut out: Vec<String> = Vec::new();
        let n = self.objects.len();
        let mut i: usize = 0;
        while i < n
            invariant
                n == self.keys().len(),
                i <= n,
                out@.len() == i,
                forall|j: int|
                    0 <= j < i ==> #[trigger] out@[j]@ == queue_text(self.module(), self.keys()[j]),
            decreases n - i,
        {
            let q = queue_name(self.module.as_str(), self.objects.key_at(i).as_str());
            out.push(q);
            i = i + 1;
        }
        out
    }

    /// The channel on which events of stream `name` of the object at
    /// address `key` are published.
    pub fn stream_channel(&self, key: &str, name: &str) -> (r: String)
        ensures
            r@ == channel_text(self.module(), key@, name@),
    {
        channel_name(self.module.as_str(), key, name)
    }

    /// Hands the parts over to the loop that runs the module.
    pub fn into_parts(self) -> (r: (String, P, usize, Table<O>))
        ensures
            r.0@ == self.module(),
            r.1 == self.pool(),
            r.2 == self.workers(),
            r.2 >= 1,
            r.3.map() == self.objects(),
            r.3.keys() == self.keys(),
    {
        proof {
            use_type_invariant(&self);
        }
        (self.module, self.pool, self.workers, self.objects)
    }
}

/// Where a request pulled off a queue goes: to the object registered under
/// its address, or straight back with an error.
pub enum Routed<'a, O> {
    Dispatch { object: &'a O, request: Request },
    Respond(Response),
}

/// Routes a request to the object registered under the address of its
/// object identity; for an unknown address it answers with
/// `unknown object 'ADDRESS'`.
pub fn route<'a, O>(objects: &'a Table<O>, request: Request) -> (r: Routed<'a, O>)
    ensures
        objects.map().contains_key(request.object.text()) ==> (r matches Routed::Dispatch {
            object,
            request: q,
        } && *object == objects.map()[request.object.text()] && q == request),
        !objects.map().contains_key(request.object.text()) ==> (r matches Routed::Respond(resp)
            && resp.id == request.id && resp.output.data@ == Seq::<Seq<u8>>::empty()
            && resp.output.error is None && (resp.error matches Some(e) && e@
            == unknown_object_text(request.object.text()))),
{
    let key = request.object.to_string();
    match objects.get(&key) {
        Some(object) => Routed::Dispatch { object, request },
        None => {
            let err = RpcError::UnknownObject(key);
            let text = err.message();
            Routed::Respond(Response { id: request.id, output: Output::new(), error: Some(text) })
        },
    }
}

/// Whether `r` is the response a worker pushes for request `id` whose
/// dispatch came to `ret`: the output of the called method, or an empty
/// output and the text of the failure as the error of the response.
pub open spec fn responds_with(r: Response, id: String, ret: Result<Output, RpcError>) -> bool {
    &&& r.id == id
    &&& ret matches Ok(o) ==> r.output == o && r.error is None
    &&& ret matches Err(e) ==> r.output.data@ == Seq::<Seq<u8>>::empty() && r.output.error is None
        && (r.error matches Some(t) && t@ == e.text())
}

/// The response a worker pushes on the reply queue of request `id`.
pub fn response_for(id: String, ret: Result<Output, RpcError>) -> (r: Response)
    ensures
        responds_with(r, id, ret),
{
    match ret {
        Ok(output) => Response { id, output, error: None },
        Err(err) => {
            let text = err.message();
            Response { id, output: Output::new(), error: Some(text) }
        },
    }
}

/// What one attempt of the pull loop observed.
#[derive(Debug)]
pub enum PullEvent {
    /// No connection could be had from the pool.
    NoConnection,
    /// The blocking pop failed.
    PopFailed,
    /// The pop timed out with no request.
    Timeout,
    /// A request was taken off one of the queues.
    Received(Request),
}

/// What the pull loop does next.
#[derive(Debug)]
pub enum PullAction {
    /// Wait that many seconds, then try again.
    Backoff(u64),
    /// Try again at once.
    Retry,
    /// Hand the request to the free worker and wait for the next one.
    Schedule(Request),
}

/// The decision of the pull loop: failures of the store are retried after
/// a delay, a timeout at once, and a request is scheduled.
pub fn pull_step(event: PullEvent) -> (r: PullAction)
    ensures
        event matches PullEvent::NoConnection ==> r == PullAction::Backoff(RETRY_DELAY),
        event matches PullEvent::PopFailed ==> r == PullAction::Backoff(RETRY_DELAY),
        event matches PullEvent::Timeout ==> r == PullAction::Retry,
        event matches PullEvent::Received(q) ==> r == PullAction::Schedule(q),
{
    match event {
        PullEvent::NoConnection => PullAction::Backoff(RETRY_DELAY),
        PullEvent::PopFailed => PullAction::Backoff(RETRY_DELAY),
        PullEvent::Timeout => PullAction::Retry,
        PullEvent::Received(q) => PullAction::Schedule(q),
    }
}

} // verus!
