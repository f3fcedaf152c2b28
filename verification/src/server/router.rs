//! Routing of a request to the handler registered for its method, and the
//! response that answers it.
use vstd::prelude::*;
use crate::protocol::{
    quote_after, unknown_method_text, Arguments, Error, ObjectID, Output, Request, Response,
};
use crate::table::Table;

verus! {

/// Failures of the routing itself.
#[derive(Debug)]
pub enum ServerError {
    UnknownMethod(String),
}

impl ServerError {
    pub open spec fn text(&self) -> Seq<char> {
        match self {
            ServerError::UnknownMethod(m) => unknown_method_text(m@),
        }
    }

    /// The text of the failure: `unknown method 'NAME'`.
    pub fn message(&self) -> (r: String)
        ensures
            r@ == self.text(),
    {
        match self {
            ServerError::UnknownMethod(m) => quote_after("unknown method ", m.as_str()),
        }
    }
}

/// An object whose methods are served by handlers of type `H`, one per
/// method name.
pub struct Router<H> {
    o: ObjectID,
    handlers: Table<H>,
}

/// What dispatching a request comes to: an immediate answer, or a call of
/// a handler with the request's arguments whose outcome answers the request
/// with identifier `id`.
pub enum Step<'a, H> {
    Respond(Response),
    Call { handler: &'a H, id: String, arguments: Arguments },
}

/// The response to request `id` for the outcome of its handler: the
/// handler's results, or no results and the failure's message as the
/// error of the response.
pub open spec fn answers(r: Response, id: Seq<char>, outcome: Result<Seq<Seq<u8>>, Seq<char>>) -> bool {
    &&& r.id@ == id
    &&& r.output.error is None
    &&& match outcome {
        Ok(a) => r.output.data@ == a && r.error is None,
        Err(m) => r.output.data@ == Seq::<Seq<u8>>::empty() && (r.error matches Some(e) && e@ == m),
    }
}

/// Builds the response that answers request `id` with a handler's outcome.
pub fn respond(id: String, outcome: Result<Arguments, Error>) -> (r: Response)
    ensures
        answers(
            r,
            id@,
            match outcome {
                Ok(a) => Ok(a@),
                Err(e) => Err(e.message@),
            },
        ),
{
    match outcome {
        Ok(args) => Response { id, output: Output { data: args, error: None }, error: None },
        Err(err) => Response { id, output: Output::new(), error: Some(err.message) },
    }
}

impl<H> Router<H> {
    pub closed spec fn identity(&self) -> ObjectID {
        self.o
    }

    /// The handler of each method name.
    pub closed spec fn handlers(&self) -> Map<Seq<char>, H> {
        self.handlers.map()
    }

    pub fn new(id: ObjectID) -> (r: Router<H>)
        ensures
            r.identity() == id,
            r.handlers() == Map::<Seq<char>, H>::empty(),
    {
        Router { o: id, handlers: Table::new() }
    }

    /// Registers `h` for method `m`, replacing an earlier handler of `m`.
    pub fn handle(self, m: &str, h: H) -> (r: Router<H>)
        ensures
            r.identity() == self.identity(),
            r.handlers() == self.handlers().insert(m@, h),
    {
        let mut handlers = self.handlers;
        handlers.insert(m.to_owned(), h);
        Router { o: self.o, handlers }
    }

    pub fn id(&self) -> (r: ObjectID)
        ensures
            r == self.identity(),
    {
        self.o.duplicate()
    }

    /// Routes a request: an unknown method is answered at once with
    /// `unknown method 'NAME'`; a known one is handed, with the request's
    /// arguments, to its handler.
    pub fn dispatch_step(&self, request: Request) -> (r: Step<'_, H>)
        ensures
            self.handlers().contains_key(request.method@) ==> (r matches Step::Call {
                handler,
                id,
                arguments,
            } && *handler == self.handlers()[request.method@] && id == request.id && arguments
                == request.arguments),
            !self.handlers().contains_key(request.method@) ==> (r matches Step::Respond(resp)
                && answers(resp, request.id@, Err(unknown_method_text(request.method@)))),
    {
        match self.handlers.get(&request.method) {
            Some(handler) => Step::Call { handler, id: request.id, arguments: request.arguments },
            None => {
                let err = ServerError::UnknownMethod(request.method);
                let text = err.message();
                Step::Respond(Response { id: request.id, output: Output::new(), error: Some(text) })
            },
        }
    }
}

} // verus!
