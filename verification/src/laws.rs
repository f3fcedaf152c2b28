//! Properties of the bus that span several of its operations.
use vstd::prelude::*;
use crate::client::reads_as;
use crate::demo::greeting_outcome;
use crate::protocol::{
    carries, channel_text, queue_text, yields, Arguments, Error, Output, Response, RpcError,
    Values,
};
use crate::server::redis::{responds_with, Server};
use crate::server::router::answers;
use crate::interface::{
    accepted, arg_value, call_error, calls_of, has_receiver, is_call, is_stream_method,
    name_broken, param_names, refusal, rename_from, sender_args, sender_broken, stream_error,
    stream_kind, streams_of, wire_name, ArgDecl, Attr, AttrArg, InterfaceError, MacroArg,
    MethodDecl, ReturnDecl, TypeDecl,
};
use crate::wire::Wire;

verus! {

/// A value added to an argument list is decoded back from the position it
/// was added at.
pub proof fn law_added_value_decodes_back<T: Wire>(
    before: Seq<Seq<u8>>,
    after: Seq<Seq<u8>>,
    v: T::V,
)
    requires
        after == before.push(T::encoded(v)),
        T::decoded(T::encoded(v)) == Some(v),
    ensures
        after.len() == before.len() + 1,
        T::decoded(after[before.len() as int]) == Some(v),
        forall|i: int| 0 <= i < before.len() ==> after[i] == before[i],
{
}

/// Three values added in turn to an empty argument list are read back, in
/// order, as the tuple of those values.  Each `add` succeeds and states that
/// the value it appended decodes back (for strings: when they fit).
pub proof fn law_values_round_trip<A: Wire, B: Wire, C: Wire>(
    args: Arguments,
    a: A::V,
    b: B::V,
    c: C::V,
)
    requires
        args@ == seq![A::encoded(a), B::encoded(b), C::encoded(c)],
        A::decoded(args@[0]) == Some(a),
        B::decoded(args@[1]) == Some(b),
        C::decoded(args@[2]) == Some(c),
    ensures
        <Arguments as Values<(A, B, C)>>::arity() <= args@.len(),
        <Arguments as Values<(A, B, C)>>::decoded_values(&args) == Some((a, b, c)),
{
}

/// The encoding of an integer or a boolean never starts like a string:
/// it cannot be read as one.
pub proof fn law_non_text_is_no_string(i: i64, u: u64, b: bool)
    ensures
        !<String as Wire>::accepts(<i64 as Wire>::encoded(i)),
        !<String as Wire>::accepts(<u64 as Wire>::encoded(u)),
        !<String as Wire>::accepts(<bool as Wire>::encoded(b)),
{
}

/// A greeting handler given an integer where it expects a name fails.
pub proof fn law_greeting_refuses_integers(
    prefix: Seq<char>,
    input: Seq<Seq<u8>>,
    r: Result<Arguments, Error>,
    v: i64,
)
    requires
        greeting_outcome(prefix, input, r),
        input.len() >= 1,
        input[0] == <i64 as Wire>::encoded(v),
    ensures
        r is Err,
{
    law_non_text_is_no_string(v, 0, true);
}

/// A caller reads the response a router builds from a handler's outcome
/// as that outcome: the handler's results, or a protocol error carrying the
/// handler's message.
pub proof fn law_caller_sees_handler_outcome(
    response: Response,
    id: Seq<char>,
    outcome: Result<Seq<Seq<u8>>, Seq<char>>,
    seen: Result<Output, RpcError>,
)
    requires
        answers(response, id, outcome),
        reads_as(response, seen),
    ensures
        outcome matches Ok(a) ==> (seen matches Ok(o) && o.data@ == a && o.error is None),
        outcome matches Err(m) ==> (seen matches Err(RpcError::Protocol(p)) && p@ == m),
{
}

/// A caller reads the response a module's worker pushes as the worker's
/// outcome: the output of the called method, or, when the request could
/// not be served (unknown object, unknown method), a protocol error whose
/// message is the text of that failure.
pub proof fn law_caller_sees_call_outcome(
    response: Response,
    id: String,
    ret: Result<Output, RpcError>,
    seen: Result<Output, RpcError>,
)
    requires
        responds_with(response, id, ret),
        reads_as(response, seen),
    ensures
        ret matches Ok(o) ==> (seen matches Ok(x) && x == o),
        ret matches Err(e) ==> (seen matches Err(RpcError::Protocol(p)) && p@ == e.text()),
{
}

/// A called method's outcome reaches its caller unchanged: the output a
/// worker sends back for it is read by the caller as the method's results,
/// or as a failed call carrying the method's own error.
pub proof fn law_caller_sees_method_outcome(
    outcome: Result<Arguments, Error>,
    output: Output,
    response: Response,
    id: String,
    seen: Result<Output, RpcError>,
    result: Result<Arguments, RpcError>,
)
    requires
        carries(output, outcome),
        responds_with(response, id, Ok(output)),
        reads_as(response, seen),
        seen matches Ok(o) ==> yields(o, result),
    ensures
        seen is Ok,
        outcome matches Ok(a) ==> (result matches Ok(x) && x == a),
        outcome matches Err(e) ==> (result matches Err(RpcError::Call(x)) && x == e),
{
}

/// Within one module, the queue a caller pushes a request for an object on
/// is one of the queues the module server pulls from exactly when an object
/// is registered on that server under that object's address.
pub proof fn law_request_reaches_registered_object<P, O>(
    server: Server<P, O>,
    queues: Seq<String>,
    address: Seq<char>,
)
    requires
        queues.len() == server.keys().len(),
        forall|i: int|
            0 <= i < queues.len() ==> #[trigger] queues[i]@ == queue_text(
                server.module(),
                server.keys()[i],
            ),
    ensures
        (exists|i: int| 0 <= i < queues.len() && #[trigger] queues[i]@ == queue_text(server.module(), address))
            <==> server.objects().contains_key(address),
{
    server.lemma_registered();
    let keys = server.keys();
    if keys.contains(address) {
        let i = keys.index_of(address);
        assert(queues[i]@ == queue_text(server.module(), address));
    }
    if exists|i: int| 0 <= i < queues.len() && #[trigger] queues[i]@ == queue_text(server.module(), address) {
        let i = choose|i: int| 0 <= i < queues.len() && #[trigger] queues[i]@ == queue_text(server.module(), address);
        lemma_queue_text_injective(server.module(), keys[i], address);
        assert(keys[i] == address);
    }
}

/// Within one module, different addresses have different queues.
pub proof fn lemma_queue_text_injective(module: Seq<char>, k1: Seq<char>, k2: Seq<char>)
    requires
        queue_text(module, k1) == queue_text(module, k2),
    ensures
        k1 == k2,
{
    let p = module + "."@;
    assert(queue_text(module, k1) == p + k1);
    assert(queue_text(module, k2) == p + k2);
    assert((p + k1).skip(p.len() as int) =~= k1);
    assert((p + k2).skip(p.len() as int) =~= k2);
}

/// The channel a module publishes a stream of an object on is the channel
/// a caller listens on for that stream of that object, and different
/// streams of one object use different channels.
pub proof fn law_stream_channels_agree(
    module: Seq<char>,
    address: Seq<char>,
    name: Seq<char>,
    other: Seq<char>,
)
    ensures
        channel_text(module, address, name) == queue_text(module, address) + "."@ + name,
        name != other ==> channel_text(module, address, name) != channel_text(
            module,
            address,
            other,
        ),
{
    let p = module + "."@ + address + "."@;
    assert(channel_text(module, address, name) == p + name);
    assert(channel_text(module, address, other) == p + other);
    assert((p + name).skip(p.len() as int) =~= name);
    assert((p + other).skip(p.len() as int) =~= other);
}

/// Registering `v` under `k` (a handler under a method name, an object
/// under its address) makes `k` lead to `v`, and leaves every other name
/// leading where it led before.
pub proof fn law_registration_replaces<V>(
    before: Map<Seq<char>, V>,
    after: Map<Seq<char>, V>,
    k: Seq<char>,
    v: V,
    other: Seq<char>,
)
    requires
        after == before.insert(k, v),
    ensures
        after.contains_key(k),
        after[k] == v,
        other != k ==> (after.contains_key(other) <==> before.contains_key(other)),
        other != k && before.contains_key(other) ==> after[other] == before[other],
{
}

/// An annotation argument other than `key = ..` leaves the value of `key`
/// alone: without such an argument the value is the default, and otherwise
/// it is that of the last one.
pub proof fn law_annotation_defaults(args: Seq<MacroArg>, key: Seq<char>, default: Seq<char>)
    ensures
        (forall|i: int|
            0 <= i < args.len() ==> !(#[trigger] args[i] matches MacroArg::NameValue { key: k, .. }
                && k@ == key)) ==> arg_value(args, key, default) == default,
    decreases args.len(),
{
    if args.len() > 0 {
        law_annotation_defaults(args.drop_last(), key, default);
        if forall|i: int|
            0 <= i < args.len() ==> !(#[trigger] args[i] matches MacroArg::NameValue { key: k, .. }
                && k@ == key) {
            assert forall|i: int|
                0 <= i < args.drop_last().len() implies !(#[trigger] args.drop_last()[i] matches MacroArg::NameValue {
                key: k,
                ..
            } && k@ == key) by {
                assert(args.drop_last()[i] == args[i]);
            }
            assert(!(args[args.len() - 1] matches MacroArg::NameValue { key: k, .. } && k@ == key));
        }
    }
}

/// A method is an event stream candidate exactly when one of its
/// attributes, wherever it stands among the others, is named `stream`:
/// without one it is a call; with one it is a stream or refused, and a
/// stream when it is `async`, takes `(&self, Sender<..>)` and returns
/// nothing.
pub proof fn law_stream_marker_anywhere(m: MethodDecl)
    ensures
        (forall|i: int| 0 <= i < m.attrs@.len() ==> #[trigger] m.attrs@[i].name@ != "stream"@)
            ==> stream_kind(m) == Ok::<bool, InterfaceError>(false),
        (exists|i: int| 0 <= i < m.attrs@.len() && #[trigger] m.attrs@[i].name@ == "stream"@)
            ==> !(stream_kind(m) matches Ok(false)),
        (exists|i: int| 0 <= i < m.attrs@.len() && #[trigger] m.attrs@[i].name@ == "stream"@)
            && m.is_async && m.inputs@.len() == 2 && m.output is Unit && (m.inputs@[1] matches ArgDecl::Typed {
            ty: TypeDecl::Path { last: Some(l), .. },
            ..
        } && l@ == "Sender"@) ==> stream_kind(m) == Ok::<bool, InterfaceError>(true),
{
}

/// Adding an attribute with another name than `stream`, before or after
/// the others, never changes whether a method is a stream or a call.
pub proof fn law_stream_kind_ignores_other_attributes(m1: MethodDecl, m2: MethodDecl, k: int, a: Attr)
    requires
        0 <= k <= m1.attrs@.len(),
        m2.attrs@ == m1.attrs@.insert(k, a),
        a.name@ != "stream"@,
        m2.is_async == m1.is_async,
        m2.inputs@ == m1.inputs@,
        m2.output == m1.output,
    ensures
        stream_kind(m2) == stream_kind(m1),
{
    let s1 = m1.attrs@;
    let s2 = m2.attrs@;
    if exists|i: int| 0 <= i < s1.len() && #[trigger] s1[i].name@ == "stream"@ {
        let i = choose|i: int| 0 <= i < s1.len() && #[trigger] s1[i].name@ == "stream"@;
        if i < k {
            assert(s2[i] == s1[i]);
        } else {
            assert(s2[i + 1] == s1[i]);
        }
    }
    if exists|i: int| 0 <= i < s2.len() && #[trigger] s2[i].name@ == "stream"@ {
        let i = choose|i: int| 0 <= i < s2.len() && #[trigger] s2[i].name@ == "stream"@;
        if i < k {
            assert(s1[i] == s2[i]);
        } else if i > k {
            assert(s1[i - 1] == s2[i]);
        }
    }
}

/// Whether an attribute settles the wire name: a `rename` that does not
/// parse, is an empty list, or starts with a string.
pub open spec fn settles_name(a: Attr) -> bool {
    a.name@ == "rename"@ && (a.arg is Unparsable || a.arg is EmptyList || a.arg is FirstString)
}

/// Attributes that do not settle the name are passed over.
proof fn lemma_rename_skips(attrs: Seq<Attr>, i: int, j: int)
    requires
        0 <= i <= j <= attrs.len(),
        forall|t: int| i <= t < j ==> !settles_name(#[trigger] attrs[t]),
    ensures
        rename_from(attrs, i) == rename_from(attrs, j),
    decreases j - i,
{
    if i < j {
        lemma_rename_skips(attrs, i + 1, j);
        assert(!settles_name(attrs[i]));
    }
}

/// The wire name of a method is set by its first `rename` attribute that
/// parses to a list: its leading string, or a refusal when the attribute
/// does not parse or the list is empty; attributes with other names, and
/// `rename` attributes whose list starts with something else, are passed
/// over, and without a settling `rename` the name is the identifier.
pub proof fn law_wire_name_from_first_rename(m: MethodDecl, i: int)
    requires
        0 <= i <= m.attrs@.len(),
        forall|t: int| 0 <= t < i ==> !settles_name(#[trigger] m.attrs@[t]),
    ensures
        i == m.attrs@.len() ==> wire_name(m) == Ok::<Seq<char>, InterfaceError>(m.ident@),
        i < m.attrs@.len() && m.attrs@[i].name@ == "rename"@ ==> (m.attrs@[i].arg matches AttrArg::FirstString(
            s,
        ) ==> wire_name(m) == Ok::<Seq<char>, InterfaceError>(s@)),
        i < m.attrs@.len() && m.attrs@[i].name@ == "rename"@ ==> (m.attrs@[i].arg is Unparsable
            || m.attrs@[i].arg is EmptyList ==> wire_name(m) is Err),
{
    lemma_rename_skips(m.attrs@, 0, i);
}

/// A method whose first parameter is not the receiver (or that has none)
/// is not served: it is neither a call nor a stream, it breaks no rule, and
/// adding it to a trait changes neither the calls nor the streams.
pub proof fn law_unserved_without_receiver(ms: Seq<MethodDecl>, m: MethodDecl)
    requires
        m.inputs@.len() == 0 || m.inputs@[0] is Typed,
    ensures
        !is_call(m),
        !is_stream_method(m),
        accepted(m),
        calls_of(ms.push(m)) == calls_of(ms),
        streams_of(ms.push(m)) == streams_of(ms),
        refusal(ms.push(m)) == refusal(ms),
{
    let all = ms.push(m);
    assert(all.drop_last() =~= ms);
    assert(stream_error(all) == stream_error(ms));
    assert(call_error(all) == call_error(ms));
    if name_broken(all) {
        let i = choose|i: int| 0 <= i < all.len() && has_receiver(all[i]) && #[trigger] wire_name(all[i]) is Err;
        assert(i < ms.len());
        assert(all[i] == ms[i]);
    }
    if name_broken(ms) {
        let i = choose|i: int| 0 <= i < ms.len() && has_receiver(ms[i]) && #[trigger] wire_name(ms[i]) is Err;
        assert(all[i] == ms[i]);
    }
    if sender_broken(all) {
        let i = choose|i: int|
            0 <= i < all.len() && is_stream_method(all[i]) && #[trigger] sender_args(all[i].inputs@[1]) is None;
        assert(i < ms.len());
        assert(all[i] == ms[i]);
    }
    if sender_broken(ms) {
        let i = choose|i: int|
            0 <= i < ms.len() && is_stream_method(ms[i]) && #[trigger] sender_args(ms[i].inputs@[1]) is None;
        assert(all[i] == ms[i]);
    }
}

/// The names of a method's parameters after the receiver: one per
/// parameter, in declaration order, present exactly when each of those
/// parameters is a plain identifier.
pub proof fn law_param_names_one_per_parameter(inputs: Seq<ArgDecl>)
    ensures
        (forall|k: int| 1 <= k < inputs.len() ==> (#[trigger] inputs[k] matches ArgDecl::Typed {
            name: Some(_),
            ..
        })) <==> param_names(inputs) is Some,
        param_names(inputs) matches Some(ns) ==> {
            &&& ns.len() == (if inputs.len() == 0 { 0 } else { inputs.len() - 1 })
            &&& forall|k: int|
                0 <= k < ns.len() ==> (#[trigger] inputs[k + 1] matches ArgDecl::Typed {
                    name: Some(n),
                    ..
                } && n@ == ns[k])
        },
    decreases inputs.len(),
{
    if inputs.len() > 1 {
        let front = inputs.drop_last();
        law_param_names_one_per_parameter(front);
        assert forall|k: int| 1 <= k < front.len() implies front[k] == inputs[k] by {}
        if !(forall|k: int| 1 <= k < inputs.len() ==> (#[trigger] inputs[k] matches ArgDecl::Typed {
            name: Some(_),
            ..
        })) {
            let k = choose|k: int| 1 <= k < inputs.len() && !(#[trigger] inputs[k] matches ArgDecl::Typed {
                name: Some(_),
                ..
            });
            if k < inputs.len() - 1 {
                assert(!(front[k] matches ArgDecl::Typed { name: Some(_), .. }));
            }
        }
        if param_names(inputs) is Some {
            let ns = param_names(inputs)->Some_0;
            let fs = param_names(front)->Some_0;
            assert(ns == fs.push(inputs.last()->Typed_name->Some_0@));
            assert forall|k: int| 0 <= k < ns.len() implies (#[trigger] inputs[k + 1] matches ArgDecl::Typed {
                name: Some(n),
                ..
            } && n@ == ns[k]) by {
                if k < fs.len() {
                    assert(front[k + 1] == inputs[k + 1]);
                }
            }
        }
    }
}

/// Reading the four leading arguments as a tuple reads each position as
/// its own type: the tuple is there exactly when each of them decodes, and
/// its k-th component is what the k-th argument decodes to.
pub proof fn law_four_values_by_position<A: Wire, B: Wire, C: Wire, D: Wire>(args: Arguments)
    requires
        args@.len() >= 4,
    ensures
        <Arguments as Values<(A, B, C, D)>>::decoded_values(&args) is Some <==> (A::decoded(
            args@[0],
        ) is Some && B::decoded(args@[1]) is Some && C::decoded(args@[2]) is Some && D::decoded(
            args@[3],
        ) is Some),
        <Arguments as Values<(A, B, C, D)>>::decoded_values(&args) matches Some(t) ==> {
            &&& A::decoded(args@[0]) == Some(t.0)
            &&& B::decoded(args@[1]) == Some(t.1)
            &&& C::decoded(args@[2]) == Some(t.2)
            &&& D::decoded(args@[3]) == Some(t.3)
        },
{
}

/// The same for three leading arguments.
pub proof fn law_three_values_by_position<A: Wire, B: Wire, C: Wire>(args: Arguments)
    requires
        args@.len() >= 3,
    ensures
        <Arguments as Values<(A, B, C)>>::decoded_values(&args) is Some <==> (A::decoded(args@[0])
            is Some && B::decoded(args@[1]) is Some && C::decoded(args@[2]) is Some),
        <Arguments as Values<(A, B, C)>>::decoded_values(&args) matches Some(t) ==> {
            &&& A::decoded(args@[0]) == Some(t.0)
            &&& B::decoded(args@[1]) == Some(t.1)
            &&& C::decoded(args@[2]) == Some(t.2)
        },
{
}

/// The same for two leading arguments.
pub proof fn law_two_values_by_position<A: Wire, B: Wire>(args: Arguments)
    requires
        args@.len() >= 2,
    ensures
        <Arguments as Values<(A, B)>>::decoded_values(&args) is Some <==> (A::decoded(args@[0])
            is Some && B::decoded(args@[1]) is Some),
        <Arguments as Values<(A, B)>>::decoded_values(&args) matches Some(t) ==> {
            &&& A::decoded(args@[0]) == Some(t.0)
            &&& B::decoded(args@[1]) == Some(t.1)
        },
{
}

/// The same for one leading argument.
pub proof fn law_one_value_by_position<A: Wire>(args: Arguments)
    requires
        args@.len() >= 1,
    ensures
        <Arguments as Values<(A,)>>::decoded_values(&args) is Some <==> A::decoded(args@[0]) is Some,
        <Arguments as Values<(A,)>>::decoded_values(&args) matches Some(t) ==> A::decoded(args@[0])
            == Some(t.0),
{
}

/// Four values added in turn to an empty argument list are read back, in
/// order, as the tuple of those values.
pub proof fn law_four_values_round_trip<A: Wire, B: Wire, C: Wire, D: Wire>(
    args: Arguments,
    a: A::V,
    b: B::V,
    c: C::V,
    d: D::V,
)
    requires
        args@ == seq![A::encoded(a), B::encoded(b), C::encoded(c), D::encoded(d)],
        A::decoded(args@[0]) == Some(a),
        B::decoded(args@[1]) == Some(b),
        C::decoded(args@[2]) == Some(c),
        D::decoded(args@[3]) == Some(d),
    ensures
        <Arguments as Values<(A, B, C, D)>>::decoded_values(&args) == Some((a, b, c, d)),
{
}

} // verus!
