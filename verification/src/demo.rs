//! The calculator client stub and the greeting handlers the demo program
//! serves.
use vstd::prelude::*;
use crate::protocol::{Arguments, Error, Container, ObjectID};
use crate::wire::Wire;

verus! {

/// Client stub for the `calculator` object, version `1.0`, called through
/// a client of type `C`.
pub struct CalculatorStub<C> {
    client: C,
    object: ObjectID,
}

impl<C> CalculatorStub<C> {
    pub closed spec fn spec_client(&self) -> C {
        self.client
    }

    pub closed spec fn spec_object(&self) -> ObjectID {
        self.object
    }

    pub fn new(client: C) -> (r: CalculatorStub<C>)
        ensures
            r.spec_client() == client,
            r.spec_object().name@ == "calculator"@,
            r.spec_object().version@ == "1.0"@,
    {
        CalculatorStub { client, object: ObjectID::new("calculator", "1.0") }
    }

    pub fn client(&self) -> (r: &C)
        ensures
            *r == self.spec_client(),
    {
        &self.client
    }

    pub fn object(&self) -> (r: &ObjectID)
        ensures
            *r == self.spec_object(),
    {
        &self.object
    }
}

/// The outcome of a greeting handler answering with `prefix` followed by
/// the name it was given as its first argument.
pub open spec fn greeting_outcome(
    prefix: Seq<char>,
    input: Seq<Seq<u8>>,
    r: Result<Arguments, Error>,
) -> bool {
    &&& <String as Wire>::decoded(input[0]) is None ==> r is Err
    &&& <String as Wire>::decoded(input[0]) matches Some(name) ==> (r matches Ok(out) && out@
        == seq![<String as Wire>::encoded(prefix + name)])
    &&& <String as Wire>::decoded(input[0]) matches Some(name) ==> (<String as Wire>::fits(
        prefix + name,
    ) ==> (r matches Ok(out) && <String as Wire>::decoded(out@[0]) == Some(prefix + name)))
    &&& r is Ok ==> <String as Wire>::accepts(input[0])
}

fn greet(prefix: &str, input: Arguments) -> (r: Result<Arguments, Error>)
    requires
        input@.len() >= 1,
    ensures
        greeting_outcome(prefix@, input@, r),
{
    let name: String = input.decode(0)?;
    let mut text = prefix.to_owned();
    text.append(name.as_str());
    let mut out = Arguments::new();
    out.add(text)?;
    Ok(out)
}

/// Answers `hello NAME` to a call whose first argument is `NAME`.
pub fn hello(input: Arguments) -> (r: Result<Arguments, Error>)
    requires
        input@.len() >= 1,
    ensures
        greeting_outcome("hello "@, input@, r),
{
    greet("hello ", input)
}

/// Answers `pong NAME` to a call whose first argument is `NAME`.
pub fn ping(input: Arguments) -> (r: Result<Arguments, Error>)
    requires
        input@.len() >= 1,
    ensures
        greeting_outcome("pong "@, input@, r),
{
    greet("pong ", input)
}

/// A handler that always fails.
pub struct M {}

impl M {
    pub fn test(input: Arguments) -> (r: Result<Arguments, Error>)
        ensures
            r matches Err(e) && e.message@ == "failed"@,
    {
        Err(Error::new("failed"))
    }
}

} // verus!
