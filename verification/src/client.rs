//! The calling side: where a request is sent, where events are listened
//! for, and what a response means to the caller.
use vstd::prelude::*;
use crate::protocol::{
    channel_name, channel_text, queue_name, queue_text, ObjectID, Output, Response, RpcError,
};

verus! {

/// The queue a request for `object` served by `module` is pushed on.
pub fn request_queue(module: &str, object: &ObjectID) -> (r: String)
    ensures
        r@ == queue_text(module@, object.text()),
{
    let key = object.to_string();
    queue_name(module, key.as_str())
}

/// The channel the events of stream `key` of `object` served by `module`
/// are received from.
pub fn stream_channel(module: &str, object: &ObjectID, key: &str) -> (r: String)
    ensures
        r@ == channel_text(module@, object.text(), key@),
{
    let id = object.to_string();
    channel_name(module, id.as_str(), key)
}

/// How the caller reads a response: an error text, even an empty one,
/// means the request was not served and is a protocol error; otherwise the
/// caller gets the output of the called method.
pub open spec fn reads_as(response: Response, r: Result<Output, RpcError>) -> bool {
    &&& response.error is None ==> r == Ok::<Output, RpcError>(response.output)
    &&& response.error matches Some(e) ==> r == Err::<Output, RpcError>(RpcError::Protocol(e))
}

/// What the caller makes of a response.
pub fn call_result(response: Response) -> (r: Result<Output, RpcError>)
    ensures
        reads_as(response, r),
{
    match response.error {
        Some(err) => Err(RpcError::Protocol(err)),
        None => Ok(response.output),
    }
}

} // verus!
