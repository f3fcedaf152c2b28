//! The serving side: objects made of handlers, and the module server that
//! pulls requests for them off their queues.
use vstd::prelude::*;
use crate::protocol::{Arguments, ObjectID, Request, RpcError};
use crate::table::Table;

pub mod router;
pub mod redis;

verus! {

/// An object whose methods are served by handlers of type `H`; unlike a
/// `Router` it reports an unknown method as an error of the call.
pub struct SimpleObject<H> {
    o: ObjectID,
    handlers: Table<H>,
}

/// What dispatching a request to a `SimpleObject` comes to: a failure, or a
/// call of a handler with the request's arguments.
pub enum ObjectStep<'a, H> {
    Fail(RpcError),
    Call { handler: &'a H, arguments: Arguments },
}

impl<H> SimpleObject<H> {
    pub closed spec fn identity(&self) -> ObjectID {
        self.o
    }

    /// The handler of each method name.
    pub closed spec fn handlers(&self) -> Map<Seq<char>, H> {
        self.handlers.map()
    }

    pub fn new(id: ObjectID) -> (r: SimpleObject<H>)
        ensures
            r.identity() == id,
            r.handlers() == Map::<Seq<char>, H>::empty(),
    {
        SimpleObject { o: id, handlers: Table::new() }
    }

    /// Registers `h` for method `m`, replacing an earlier handler of `m`.
    pub fn handle(self, m: &str, h: H) -> (r: SimpleObject<H>)
        ensures
            r.identity() == self.identity(),
            r.handlers() == self.handlers().insert(m@, h),
    {
        let mut handlers = self.handlers;
        handlers.insert(m.to_owned(), h);
        SimpleObject { o: self.o, handlers }
    }

    pub fn id(&self) -> (r: ObjectID)
        ensures
            r == self.identity(),
    {
        self.o.duplicate()
    }

    /// Routes a request to the handler of its method, or fails with
    /// `UnknownMethod` naming the method.
    pub fn dispatch_step(&self, request: Request) -> (r: ObjectStep<'_, H>)
        ensures
            self.handlers().contains_key(request.method@) ==> (r matches ObjectStep::Call {
                handler,
                arguments,
            } && *handler == self.handlers()[request.method@] && arguments == request.arguments),
            !self.handlers().contains_key(request.method@) ==> (r matches ObjectStep::Fail(
                RpcError::UnknownMethod(m),
            ) && m == request.method),
    {
        match self.handlers.get(&request.method) {
            Some(handler) => ObjectStep::Call { handler, arguments: request.arguments },
            None => ObjectStep::Fail(RpcError::UnknownMethod(request.method)),
        }
    }
}

} // verus!
