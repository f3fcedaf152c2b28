//! Wire-level data of the bus: object identities, argument lists,
//! requests, responses and the error a call reports.
use vstd::prelude::*;
use crate::wire::Wire;

verus! {

/// The text form of an object identity: the bare name when the version is
/// empty, `name@version` otherwise.
pub open spec fn id_text(name: Seq<char>, version: Seq<char>) -> Seq<char> {
    if version.len() == 0 {
        name
    } else {
        name + "@"@ + version
    }
}

/// Identity of an object served by a module.
#[derive(Clone, Debug)]
pub struct ObjectID {
    pub name: String,
    pub version: String,
}

impl ObjectID {
    pub open spec fn text(&self) -> Seq<char> {
        id_text(self.name@, self.version@)
    }

    pub fn new(name: &str, version: &str) -> (r: ObjectID)
        ensures
            r.name@ == name@,
            r.version@ == version@,
    {
        ObjectID { name: name.to_owned(), version: version.to_owned() }
    }

    /// A copy with the same name and version.
    pub fn duplicate(&self) -> (r: ObjectID)
        ensures
            r == *self,
    {
        ObjectID { name: self.name.clone(), version: self.version.clone() }
    }

    /// The text by which the object is addressed: `name` or `name@version`.
    pub fn to_string(&self) -> (r: String)
        ensures
            r@ == self.text(),
    {
        let mut s = self.name.clone();
        if !self.version.as_str().is_empty() {
            s.append("@");
            s.append(self.version.as_str());
        }
        s
    }
}

/// The failure of a call, or of encoding or decoding one of its values.
#[derive(Clone, Debug)]
pub struct Error {
    pub message: String,
}

impl Error {
    pub fn new(message: &str) -> (r: Error)
        ensures
            r.message@ == message@,
    {
        Error { message: message.to_owned() }
    }

    /// The text of the failure: its message.
    pub fn to_string(&self) -> (r: String)
        ensures
            r@ == self.message@,
    {
        self.message.clone()
    }
}

/// Whether `o` is what a method that came to `outcome` hands back: its
/// results and no failure, or no results and its failure.
pub open spec fn carries(o: Output, outcome: Result<Arguments, Error>) -> bool {
    match outcome {
        Ok(a) => o.data == a && o.error is None,
        Err(e) => o.data@ == Seq::<Seq<u8>>::empty() && o.error == Some(e),
    }
}

/// Whether `r` is how a caller reads output `o`: the method's failure as a
/// failed call, otherwise the method's results.
pub open spec fn yields(o: Output, r: Result<Arguments, RpcError>) -> bool {
    match o.error {
        Some(e) => r == Err::<Arguments, RpcError>(RpcError::Call(e)),
        None => r == Ok::<Arguments, RpcError>(o.data),
    }
}

/// What a called method hands back: its encoded results, or the failure
/// it reported.  A method's own failure travels here, inside a response
/// that carries no error of its own.
#[derive(Debug)]
pub struct Output {
    pub data: Arguments,
    pub error: Option<Error>,
}

impl Output {
    /// No results and no failure.
    pub fn new() -> (r: Output)
        ensures
            r.data@ == Seq::<Seq<u8>>::empty(),
            r.error is None,
    {
        Output { data: Arguments::new(), error: None }
    }

    /// The output of a method that came to `outcome`.
    pub fn from_outcome(outcome: Result<Arguments, Error>) -> (r: Output)
        ensures
            carries(r, outcome),
    {
        match outcome {
            Ok(data) => Output { data, error: None },
            Err(e) => Output { data: Arguments::new(), error: Some(e) },
        }
    }

    /// What the caller of the method makes of its output.
    pub fn into_result(self) -> (r: Result<Arguments, RpcError>)
        ensures
            yields(self, r),
    {
        match self.error {
            Some(e) => Err(RpcError::Call(e)),
            None => Ok(self.data),
        }
    }
}

/// The encoded values of a call's arguments or of its results, in order.
#[derive(Clone, Debug)]
pub struct Arguments {
    items: Vec<Vec<u8>>,
}

impl View for Arguments {
    type V = Seq<Seq<u8>>;

    closed spec fn view(&self) -> Seq<Seq<u8>> {
        self.items@.map_values(|b: Vec<u8>| b@)
    }
}

impl Arguments {
    pub fn new() -> (r: Arguments)
        ensures
            r@ == Seq::<Seq<u8>>::empty(),
    {
        let r = Arguments { items: Vec::new() };
        assert(r@ =~= Seq::<Seq<u8>>::empty());
        r
    }

    /// Builds an argument list from already encoded values.
    pub fn from_items(items: Vec<Vec<u8>>) -> (r: Arguments)
        ensures
            r@ == items@.map_values(|b: Vec<u8>| b@),
    {
        Arguments { items }
    }

    /// Gives up the encoded values, in order.
    pub fn into_items(self) -> (r: Vec<Vec<u8>>)
        ensures
            r@.map_values(|b: Vec<u8>| b@) == self@,
    {
        self.items
    }

    pub fn len(&self) -> (r: usize)
        ensures
            r == self@.len(),
    {
        self.items.len()
    }

    /// The encoded value at position `i`.
    pub fn get(&self, i: usize) -> (r: &Vec<u8>)
        requires
            i < self@.len(),
        ensures
            r@ == self@[i as int],
    {
        &self.items[i]
    }

    /// Appends an already encoded value.
    pub fn push(&mut self, bytes: Vec<u8>)
        ensures
            final(self)@ == old(self)@.push(bytes@),
    {
        self.items.push(bytes);
        assert(self@ =~= old(self)@.push(bytes@));
    }
}

/// Reading and writing typed values in an argument list.
pub trait Container: View<V = Seq<Seq<u8>>> + Sized {
    /// Decodes the value at position `i`.
    fn decode<T: Wire>(&self, i: usize) -> (r: Result<T, Error>)
        requires
            i < self@.len(),
        ensures
            r is Ok <==> T::decoded(self@[i as int]) is Some,
            r matches Ok(v) ==> T::decoded(self@[i as int]) == Some(v@),
            r matches Err(e) ==> e.message@ == T::decode_error(self@[i as int]),
            r is Ok ==> T::accepts(self@[i as int]),
    ;

    /// Encodes `o` and appends it; this always succeeds.
    fn add<T: Wire>(&mut self, o: T) -> (r: Result<(), Error>)
        ensures
            r is Ok,
            final(self)@ == old(self)@.push(T::encoded(o@)),
            T::fits(o@) ==> T::decoded(final(self)@.last()) == Some(o@),
    ;
}

impl Container for Arguments {
    fn decode<T: Wire>(&self, i: usize) -> (r: Result<T, Error>) {
        T::decode(self.get(i))
    }

    fn add<T: Wire>(&mut self, o: T) -> (r: Result<(), Error>) {
        match o.encode() {
            Ok(b) => {
                self.push(b);
                Ok(())
            },
            Err(e) => Err(e),
        }
    }
}

/// Decoding a fixed number of leading arguments at once, as a tuple.
pub trait Values<T: View>: View<V = Seq<Seq<u8>>> + Sized {
    /// How many leading arguments are read.
    spec fn arity() -> nat;

    /// The tuple the leading arguments decode to, if each of them decodes.
    spec fn decoded_values(&self) -> Option<T::V>;

    /// The message of the first leading argument that does not decode.
    spec fn first_failure(&self) -> Option<Seq<char>>;

    fn values(&self) -> (r: Result<T, Error>)
        requires
            Self::arity() <= self@.len(),
        ensures
            r is Ok <==> self.decoded_values() is Some,
            r matches Ok(t) ==> self.decoded_values() == Some(t@),
            r matches Err(e) ==> self.first_failure() == Some(e.message@),
    ;
}

impl<A: Wire> Values<(A,)> for Arguments {
    open spec fn arity() -> nat {
        1
    }

    open spec fn decoded_values(&self) -> Option<(A::V,)> {
        match A::decoded(self@[0]) {
            Some(a) => Some((a,)),
            None => None,
        }
    }

    open spec fn first_failure(&self) -> Option<Seq<char>> {
        if A::decoded(self@[0]) is None {
            Some(A::decode_error(self@[0]))
        } else {
            None
        }
    }

    fn values(&self) -> (r: Result<(A,), Error>) {
        let a: A = self.decode(0)?;
        Ok((a,))
    }
}

impl<A: Wire, B: Wire> Values<(A, B)> for Arguments {
    open spec fn arity() -> nat {
        2
    }

    open spec fn decoded_values(&self) -> Option<(A::V, B::V)> {
        match (A::decoded(self@[0]), B::decoded(self@[1])) {
            (Some(a), Some(b)) => Some((a, b)),
            _ => None,
        }
    }

    open spec fn first_failure(&self) -> Option<Seq<char>> {
        if A::decoded(self@[0]) is None {
            Some(A::decode_error(self@[0]))
        } else if B::decoded(self@[1]) is None {
            Some(B::decode_error(self@[1]))
        } else {
            None
        }
    }

    fn values(&self) -> (r: Result<(A, B), Error>) {
        let a: A = self.decode(0)?;
        let b: B = self.decode(1)?;
        Ok((a, b))
    }
}

impl<A: Wire, B: Wire, C: Wire> Values<(A, B, C)> for Arguments {
    open spec fn arity() -> nat {
        3
    }

    open spec fn decoded_values(&self) -> Option<(A::V, B::V, C::V)> {
        match (A::decoded(self@[0]), B::decoded(self@[1]), C::decoded(self@[2])) {
            (Some(a), Some(b), Some(c)) => Some((a, b, c)),
            _ => None,
        }
    }

    open spec fn first_failure(&self) -> Option<Seq<char>> {
        if A::decoded(self@[0]) is None {
            Some(A::decode_error(self@[0]))
        } else if B::decoded(self@[1]) is None {
            Some(B::decode_error(self@[1]))
        } else if C::decoded(self@[2]) is None {
            Some(C::decode_error(self@[2]))
        } else {
            None
        }
    }

    fn values(&self) -> (r: Result<(A, B, C), Error>) {
        let a: A = self.decode(0)?;
        let b: B = self.decode(1)?;
        let c: C = self.decode(2)?;
        Ok((a, b, c))
    }
}

impl<A: Wire, B: Wire, C: Wire, D: Wire> Values<(A, B, C, D)> for Arguments {
    open spec fn arity() -> nat {
        4
    }

    open spec fn decoded_values(&self) -> Option<(A::V, B::V, C::V, D::V)> {
        match (
            A::decoded(self@[0]),
            B::decoded(self@[1]),
            C::decoded(self@[2]),
            D::decoded(self@[3]),
        ) {
            (Some(a), Some(b), Some(c), Some(d)) => Some((a, b, c, d)),
            _ => None,
        }
    }

    open spec fn first_failure(&self) -> Option<Seq<char>> {
        if A::decoded(self@[0]) is None {
            Some(A::decode_error(self@[0]))
        } else if B::decoded(self@[1]) is None {
            Some(B::decode_error(self@[1]))
        } else if C::decoded(self@[2]) is None {
            Some(C::decode_error(self@[2]))
        } else if D::decoded(self@[3]) is None {
            Some(D::decode_error(self@[3]))
        } else {
            None
        }
    }

    fn values(&self) -> (r: Result<(A, B, C, D), Error>) {
        let a: A = self.decode(0)?;
        let b: B = self.decode(1)?;
        let c: C = self.decode(2)?;
        let d: D = self.decode(3)?;
        Ok((a, b, c, d))
    }
}

/// Whether `c` is a lower-case hexadecimal digit.
pub open spec fn is_lower_hex(c: char) -> bool {
    ('0' <= c && c <= '9') || ('a' <= c && c <= 'f')
}

/// The text of a version 4 UUID in hyphenated lower-case form:
/// `xxxxxxxx-xxxx-4xxx-Yxxx-xxxxxxxxxxxx`, with `Y` one of `8`, `9`, `a`, `b`.
pub open spec fn is_uuid_v4_text(t: Seq<char>) -> bool {
    &&& t.len() == 36
    &&& forall|i: int|
        0 <= i < 36 ==> if i == 8 || i == 13 || i == 18 || i == 23 {
            #[trigger] t[i] == '-'
        } else {
            is_lower_hex(t[i])
        }
    &&& t[14] == '4'
    &&& (t[19] == '8' || t[19] == '9' || t[19] == 'a' || t[19] == 'b')
}

/// Calls `uuid::Uuid::new_v4` and renders the identifier with its `Display`
/// implementation.
/// Claims: the text is a hyphenated lower-case version 4 UUID (`Display`
/// writes the hyphenated lower-case form; `new_v4` sets the version and
/// variant bits).  Which identifier comes out is random and not claimed.
#[verifier::external_body]
fn fresh_request_id() -> (r: String)
    ensures
        is_uuid_v4_text(r@),
{
    uuid::Uuid::new_v4().to_string()
}

/// A call of `method` on `object`, with its encoded arguments.  The answer is
/// pushed on the queue named `reply_to`.
#[derive(Debug)]
pub struct Request {
    pub id: String,
    pub arguments: Arguments,
    pub object: ObjectID,
    pub reply_to: String,
    pub method: String,
}

impl Request {
    /// A request with a fresh identifier, no arguments, answered on the
    /// queue named after its own identifier.
    pub fn new(object: ObjectID, method: &str) -> (r: Request)
        ensures
            r.object == object,
            r.method@ == method@,
            r.reply_to@ == r.id@,
            r.arguments@ == Seq::<Seq<u8>>::empty(),
            is_uuid_v4_text(r.id@),
    {
        let id = fresh_request_id();
        Request {
            object,
            id: id.clone(),
            method: method.to_owned(),
            arguments: Arguments::new(),
            reply_to: id,
        }
    }

    /// Appends one encoded argument.
    pub fn arg<T: Wire>(self, argument: T) -> (r: Result<Request, Error>)
        ensures
            r is Ok,
            r matches Ok(q) ==> {
                &&& q.arguments@ == self.arguments@.push(T::encoded(argument@))
                &&& T::fits(argument@) ==> T::decoded(T::encoded(argument@)) == Some(argument@)
                &&& q.id == self.id
                &&& q.object == self.object
                &&& q.reply_to == self.reply_to
                &&& q.method == self.method
            },
    {
        let mut q = self;
        q.arguments.add(argument)?;
        Ok(q)
    }
}

/// The answer to a request: its identifier, the output of the called
/// method, and the error text when the request could not be served.
#[derive(Debug)]
pub struct Response {
    pub id: String,
    pub output: Output,
    pub error: Option<String>,
}

impl Response {
    /// Whether the response carries a non-empty error text.
    pub fn is_error(&self) -> (r: bool)
        ensures
            r <==> (self.error matches Some(e) && e@.len() > 0),
    {
        match &self.error {
            Some(e) => !e.as_str().is_empty(),
            None => false,
        }
    }
}

/// What a request or a response is read from when it is taken off a queue:
/// binary data, or a reply of another kind.
#[derive(Debug)]
pub enum Reply {
    Binary(Vec<u8>),
    NotBinary,
}

/// The message a reply that does not hold binary data is refused with.
pub open spec fn not_binary_text() -> Seq<char> {
    "expecting binary data"@
}

impl Reply {
    /// The bytes a message is decoded from; only binary data is accepted.
    pub fn payload(self) -> (r: Result<Vec<u8>, Error>)
        ensures
            self matches Reply::Binary(b) ==> (r matches Ok(p) && p@ == b@),
            self matches Reply::NotBinary ==> (r matches Err(e) && e.message@ == not_binary_text()),
    {
        match self {
            Reply::Binary(b) => Ok(b),
            Reply::NotBinary => Err(Error::new("expecting binary data")),
        }
    }
}

/// `'` + `text` + `'`, as error messages quote names.
pub open spec fn quoted(text: Seq<char>) -> Seq<char> {
    "'"@ + text + "'"@
}

/// The message of an unknown method.
pub open spec fn unknown_method_text(method: Seq<char>) -> Seq<char> {
    "unknown method "@ + quoted(method)
}

/// The message of an unknown object.
pub open spec fn unknown_object_text(object: Seq<char>) -> Seq<char> {
    "unknown object "@ + quoted(object)
}

/// Builds `prefix'name'`.
pub(crate) fn quote_after(prefix: &str, name: &str) -> (r: String)
    ensures
        r@ == prefix@ + quoted(name@),
{
    let mut s = prefix.to_owned();
    s.append("'");
    s.append(name);
    s.append("'");
    assert(s@ =~= prefix@ + quoted(name@));
    s
}

/// Why a call did not produce results.
#[derive(Clone, Debug)]
pub enum RpcError {
    /// The object has no method of that name.
    UnknownMethod(String),
    /// The module serves no object of that identity.
    UnknownObject(String),
    /// The bus itself failed (connection, encoding of the request, ...).
    Protocol(String),
    /// The called method reported a failure.
    Call(Error),
}

impl RpcError {
    /// The text a response carries for this failure.
    pub open spec fn text(&self) -> Seq<char> {
        match self {
            RpcError::UnknownMethod(m) => unknown_method_text(m@),
            RpcError::UnknownObject(o) => unknown_object_text(o@),
            RpcError::Protocol(s) => s@,
            RpcError::Call(e) => e.message@,
        }
    }

    pub fn message(&self) -> (r: String)
        ensures
            r@ == self.text(),
    {
        match self {
            RpcError::UnknownMethod(m) => quote_after("unknown method ", m.as_str()),
            RpcError::UnknownObject(o) => quote_after("unknown object ", o.as_str()),
            RpcError::Protocol(s) => s.clone(),
            RpcError::Call(e) => e.message.clone(),
        }
    }
}

/// The queue on which a module receives the requests for the object
/// addressed as `key`: `module.key`.
pub open spec fn queue_text(module: Seq<char>, key: Seq<char>) -> Seq<char> {
    module + "."@ + key
}

/// The channel on which a module publishes the events of stream `name` of
/// the object addressed as `key`: `module.key.name`.
pub open spec fn channel_text(module: Seq<char>, key: Seq<char>, name: Seq<char>) -> Seq<char> {
    module + "."@ + key + "."@ + name
}

pub fn queue_name(module: &str, key: &str) -> (r: String)
    ensures
        r@ == queue_text(module@, key@),
{
    let mut s = module.to_owned();
    s.append(".");
    s.append(key);
    s
}

pub fn channel_name(module: &str, key: &str, name: &str) -> (r: String)
    ensures
        r@ == channel_text(module@, key@, name@),
{
    let mut s = queue_name(module, key);
    s.append(".");
    s.append(name);
    s
}

} // verus!
