//! The rules by which an annotated service trait becomes a served object
//! and a client stub: which methods are calls and which are event streams,
//! the name each travels under, the object identity, and the signatures
//! that are refused.
//!
//! A trait is described here by plain values: for each method its name,
//! its attributes, whether it is `async`, its parameters and its return type.
//!
//! A refused trait gives an `Err` naming the broken rule; the annotation
//! reports it as an error at expansion, and nothing is generated for the
//! trait.
use vstd::prelude::*;
use crate::protocol::ObjectID;

verus! {

/// How the argument of a method attribute reads.
#[derive(Debug)]
pub enum AttrArg {
    /// The attribute's tokens are not a well-formed meta item.
    Unparsable,
    /// A bare word or a `name = value` item rather than a list.
    NotList,
    /// An empty list `name()`.
    EmptyList,
    /// A list whose first item is a string literal.
    FirstString(String),
    /// A list whose first item is something else.
    FirstOther,
}

/// An attribute on a method: its name and how its argument reads.
#[derive(Debug)]
pub struct Attr {
    pub name: String,
    pub arg: AttrArg,
}

/// A type as far as the rules read it.
#[derive(Debug)]
pub enum TypeDecl {
    /// A path type: its last segment (none for an empty path) and, when that
    /// segment has angle-bracketed arguments, their text.
    Path { last: Option<String>, args: Option<Vec<String>> },
    /// Any other type (reference, tuple, ...).
    Other,
}

/// A parameter of a method.
#[derive(Debug)]
pub enum ArgDecl {
    /// The `self` receiver, in any form.
    Receiver,
    /// A typed parameter; `name` is its identifier when the pattern is one.
    Typed { name: Option<String>, ty: TypeDecl },
}

/// What a method returns.
#[derive(Debug)]
pub enum ReturnDecl {
    /// Nothing (no `->`).
    Unit,
    Type(TypeDecl),
}

/// A method of the annotated trait.
#[derive(Debug)]
pub struct MethodDecl {
    pub ident: String,
    pub attrs: Vec<Attr>,
    pub is_async: bool,
    pub inputs: Vec<ArgDecl>,
    pub output: ReturnDecl,
}

/// An argument of the annotation: `key = "value"`, or anything else.
#[derive(Debug)]
pub enum MacroArg {
    NameValue { key: String, value: String },
    Other,
}

/// Why a trait cannot be turned into an object: the error the annotation
/// stops expansion with.
#[derive(Debug)]
pub enum InterfaceError {
    /// A call method does not return `Result<..>`.
    NotResult,
    /// The second parameter of a stream method is not a `Sender<..>` path.
    NotSender,
    /// A `rename` attribute is not a list starting with a string literal.
    RenameNotLiteral,
    /// A stream method is not `async`.
    StreamNotAsync,
    /// A stream method does not take exactly `(&self, Sender<T>)`.
    StreamArity,
    /// A stream method returns a value.
    StreamReturns,
    /// The second parameter of a stream method is a path not ending in `Sender`.
    StreamArgument,
    /// A parameter of a call method is not a plain identifier.
    UnnamedArgument,
}

/// The inner types of a `Result<..>` return type.
pub open spec fn result_args(ty: ReturnDecl) -> Option<Seq<Seq<char>>> {
    match ty {
        ReturnDecl::Type(TypeDecl::Path { last: Some(l), args: Some(a) }) => if l@ == "Result"@ {
            Some(a@.map_values(|s: String| s@))
        } else {
            None
        },
        _ => None,
    }
}

/// The inner types of a `Sender<..>` parameter.
pub open spec fn sender_args(arg: ArgDecl) -> Option<Seq<Seq<char>>> {
    match arg {
        ArgDecl::Typed { ty: TypeDecl::Path { last: Some(l), args: Some(a) }, .. } => if l@
            == "Sender"@ {
            Some(a@.map_values(|s: String| s@))
        } else {
            None
        },
        _ => None,
    }
}

/// The inner types of a method's `Result<..>` return type; any other
/// return type is refused.
pub fn return_inner_type(ty: &ReturnDecl) -> (r: Result<&Vec<String>, InterfaceError>)
    ensures
        result_args(*ty) is None ==> r matches Err(InterfaceError::NotResult),
        result_args(*ty) matches Some(a) ==> (r matches Ok(v) && v@.map_values(
            |s: String| s@,
        ) == a),
{
    match ty {
        ReturnDecl::Type(TypeDecl::Path { last: Some(l), args: Some(a) }) => {
            if l.eq(&"Result".to_owned()) {
                Ok(a)
            } else {
                Err(InterfaceError::NotResult)
            }
        },
        _ => Err(InterfaceError::NotResult),
    }
}

/// The inner types of a `Sender<..>` parameter; any other parameter is
/// refused.
pub fn sender_inner_type(arg: &ArgDecl) -> (r: Result<&Vec<String>, InterfaceError>)
    ensures
        sender_args(*arg) is None ==> r matches Err(InterfaceError::NotSender),
        sender_args(*arg) matches Some(a) ==> (r matches Ok(v) && v@.map_values(
            |s: String| s@,
        ) == a),
{
    match arg {
        ArgDecl::Typed { ty: TypeDecl::Path { last: Some(l), args: Some(a) }, .. } => {
            if l.eq(&"Sender".to_owned()) {
                Ok(a)
            } else {
                Err(InterfaceError::NotSender)
            }
        },
        _ => Err(InterfaceError::NotSender),
    }
}

/// The name given by the first `rename` attribute at or after position `i`
/// that settles it, if any.
pub open spec fn rename_from(attrs: Seq<Attr>, i: int) -> Option<Result<Seq<char>, InterfaceError>>
    decreases attrs.len() - i,
{
    if i < 0 || i >= attrs.len() {
        None
    } else if attrs[i].name@ != "rename"@ {
        rename_from(attrs, i + 1)
    } else {
        match attrs[i].arg {
            AttrArg::Unparsable => Some(Err(InterfaceError::RenameNotLiteral)),
            AttrArg::EmptyList => Some(Err(InterfaceError::RenameNotLiteral)),
            AttrArg::FirstString(s) => Some(Ok(s@)),
            _ => rename_from(attrs, i + 1),
        }
    }
}

/// The name a method travels under: that of its `rename` attribute, or its
/// own identifier.
pub open spec fn wire_name(m: MethodDecl) -> Result<Seq<char>, InterfaceError> {
    match rename_from(m.attrs@, 0) {
        Some(r) => r,
        None => Ok(m.ident@),
    }
}

/// The name a method travels under: the string of the first `rename`
/// attribute that is a list starting with a string literal, or the method's
/// own identifier.  A `rename` attribute that does not parse, or whose list
/// is empty, is refused.
pub fn method_name(m: &MethodDecl) -> (r: Result<String, InterfaceError>)
    ensures
        wire_name(*m) matches Ok(n) ==> (r matches Ok(s) && s@ == n),
        wire_name(*m) is Err ==> r matches Err(InterfaceError::RenameNotLiteral),
{
    let rename = "rename".to_owned();
    let mut i: usize = 0;
    while i < m.attrs.len()
        invariant
            i <= m.attrs@.len(),
            rename@ == "rename"@,
            rename_from(m.attrs@, 0) == rename_from(m.attrs@, i as int),
        decreases m.attrs@.len() - i,
    {
        let attr = &m.attrs[i];
        if attr.name.eq(&rename) {
            match &attr.arg {
                AttrArg::Unparsable => return Err(InterfaceError::RenameNotLiteral),
                AttrArg::EmptyList => return Err(InterfaceError::RenameNotLiteral),
                AttrArg::FirstString(s) => return Ok(s.clone()),
                _ => {},
            }
        }
        i = i + 1;
    }
    Ok(m.ident.clone())
}

/// Whether a method carries an attribute of the given name.
pub open spec fn has_attr(attrs: Seq<Attr>, name: Seq<char>) -> bool {
    exists|i: int| 0 <= i < attrs.len() && #[trigger] attrs[i].name@ == name
}

/// Whether a method is an event stream: it carries `#[stream]`; such a
/// method must be `async`, take `(&self, Sender<T>)` and return nothing.
pub open spec fn stream_kind(m: MethodDecl) -> Result<bool, InterfaceError> {
    if !has_attr(m.attrs@, "stream"@) {
        Ok(false)
    } else if !m.is_async {
        Err(InterfaceError::StreamNotAsync)
    } else if m.inputs@.len() != 2 {
        Err(InterfaceError::StreamArity)
    } else if !(m.output is Unit) {
        Err(InterfaceError::StreamReturns)
    } else {
        match m.inputs@[1] {
            ArgDecl::Typed { ty: TypeDecl::Path { last: Some(l), .. }, .. } => if l@ != "Sender"@ {
                Err(InterfaceError::StreamArgument)
            } else {
                Ok(true)
            },
            _ => Ok(true),
        }
    }
}

pub fn is_stream(m: &MethodDecl) -> (r: Result<bool, InterfaceError>)
    ensures
        r == stream_kind(*m),
{
    let stream = "stream".to_owned();
    let mut found = false;
    let mut i: usize = 0;
    while i < m.attrs.len()
        invariant
            i <= m.attrs@.len(),
            stream@ == "stream"@,
            found == exists|j: int| 0 <= j < i && #[trigger] m.attrs@[j].name@ == "stream"@,
        decreases m.attrs@.len() - i,
    {
        if m.attrs[i].name.eq(&stream) {
            found = true;
        }
        i = i + 1;
    }
    if !found {
        return Ok(false);
    }
    if !m.is_async {
        return Err(InterfaceError::StreamNotAsync);
    }
    if m.inputs.len() != 2 {
        return Err(InterfaceError::StreamArity);
    }
    match &m.output {
        ReturnDecl::Unit => {},
        _ => return Err(InterfaceError::StreamReturns),
    }
    match &m.inputs[1] {
        ArgDecl::Typed { ty: TypeDecl::Path { last: Some(l), .. }, .. } => {
            if l.eq(&"Sender".to_owned()) {
                Ok(true)
            } else {
                Err(InterfaceError::StreamArgument)
            }
        },
        _ => Ok(true),
    }
}

/// Whether the method's first parameter is the receiver: only such
/// methods are served.
pub open spec fn has_receiver(m: MethodDecl) -> bool {
    m.inputs@.len() > 0 && m.inputs@[0] is Receiver
}

/// The identity of the generated object: the `name` and `version`
/// arguments of the annotation (the last of each wins), defaulting to the
/// trait's name and `1.0`.
pub open spec fn arg_value(args: Seq<MacroArg>, key: Seq<char>, default: Seq<char>) -> Seq<char>
    decreases args.len(),
{
    if args.len() == 0 {
        default
    } else {
        match args.last() {
            MacroArg::NameValue { key: k, value: v } => if k@ == key {
                v@
            } else {
                arg_value(args.drop_last(), key, default)
            },
            MacroArg::Other => arg_value(args.drop_last(), key, default),
        }
    }
}

fn find_arg(args: &Vec<MacroArg>, key: &String, default: &str) -> (r: String)
    ensures
        r@ == arg_value(args@, key@, default@),
{
    let mut v = default.to_owned();
    let mut i: usize = 0;
    while i < args.len()
        invariant
            i <= args@.len(),
            v@ == arg_value(args@.take(i as int), key@, default@),
        decreases args@.len() - i,
    {
        assert(args@.take(i + 1).drop_last() =~= args@.take(i as int));
        match &args[i] {
            MacroArg::NameValue { key: k, value: val } => {
                if k.eq(key) {
                    v = val.clone();
                }
            },
            MacroArg::Other => {},
        }
        i = i + 1;
    }
    assert(args@.take(args@.len() as int) =~= args@);
    v
}

/// The identity of the object generated for trait `trait_name`.
pub fn object_id(trait_name: &str, args: &Vec<MacroArg>) -> (r: ObjectID)
    ensures
        r.name@ == arg_value(args@, "name"@, trait_name@),
        r.version@ == arg_value(args@, "version"@, "1.0"@),
{
    let name = find_arg(args, &"name".to_owned(), trait_name);
    let version = find_arg(args, &"version".to_owned(), "1.0");
    ObjectID { name, version }
}

/// A served method that is called: its identifier, the name it travels
/// under, the names of its parameters after the receiver, whether it is
/// `async`, and the inner types of its `Result`.
#[derive(Debug)]
pub struct CallPlan {
    pub ident: String,
    pub wire_name: String,
    pub arg_names: Vec<String>,
    pub is_async: bool,
    pub result: Vec<String>,
}

/// A served event stream: its identifier, the name it travels under, and
/// the inner types of its `Sender`.
#[derive(Debug)]
pub struct StreamPlan {
    pub ident: String,
    pub wire_name: String,
    pub item: Vec<String>,
}

/// What is generated for a trait: the object identity, its calls and its
/// streams, each in the trait's order.
#[derive(Debug)]
pub struct ObjectPlan {
    pub id: ObjectID,
    pub calls: Vec<CallPlan>,
    pub streams: Vec<StreamPlan>,
}

/// The parameter names after the receiver, when each is a plain identifier.
pub open spec fn param_names(inputs: Seq<ArgDecl>) -> Option<Seq<Seq<char>>>
    decreases inputs.len(),
{
    if inputs.len() <= 1 {
        Some(Seq::empty())
    } else {
        match param_names(inputs.drop_last()) {
            Some(ns) => match inputs.last() {
                ArgDecl::Typed { name: Some(n), .. } => Some(ns.push(n@)),
                _ => None,
            },
            None => None,
        }
    }
}

/// Whether `p` is the plan of call method `m`.
pub open spec fn plans_call(p: CallPlan, m: MethodDecl) -> bool {
    &&& p.ident@ == m.ident@
    &&& wire_name(m) == Ok::<Seq<char>, InterfaceError>(p.wire_name@)
    &&& param_names(m.inputs@) == Some(p.arg_names@.map_values(|s: String| s@))
    &&& p.is_async == m.is_async
    &&& result_args(m.output) == Some(p.result@.map_values(|s: String| s@))
}

/// Whether `p` is the plan of stream method `m`.
pub open spec fn plans_stream(p: StreamPlan, m: MethodDecl) -> bool {
    &&& p.ident@ == m.ident@
    &&& wire_name(m) == Ok::<Seq<char>, InterfaceError>(p.wire_name@)
    &&& sender_args(m.inputs@[1]) == Some(p.item@.map_values(|s: String| s@))
}

/// Whether a method is accepted: one without receiver is left out; a
/// stream needs a name and a `Sender<..>` parameter; a call needs a name,
/// named parameters and a `Result<..>` return type.
pub open spec fn accepted(m: MethodDecl) -> bool {
    has_receiver(m) ==> match stream_kind(m) {
        Err(_) => false,
        Ok(true) => wire_name(m) is Ok && sender_args(m.inputs@[1]) is Some,
        Ok(false) => wire_name(m) is Ok && param_names(m.inputs@) is Some && result_args(m.output) is Some,
    }
}

pub open spec fn is_call(m: MethodDecl) -> bool {
    has_receiver(m) && stream_kind(m) == Ok::<bool, InterfaceError>(false)
}

pub open spec fn is_stream_method(m: MethodDecl) -> bool {
    has_receiver(m) && stream_kind(m) == Ok::<bool, InterfaceError>(true)
}

/// The call methods of a trait, in order.
pub open spec fn calls_of(ms: Seq<MethodDecl>) -> Seq<MethodDecl>
    decreases ms.len(),
{
    if ms.len() == 0 {
        Seq::empty()
    } else if is_call(ms.last()) {
        calls_of(ms.drop_last()).push(ms.last())
    } else {
        calls_of(ms.drop_last())
    }
}

/// The stream methods of a trait, in order.
pub open spec fn streams_of(ms: Seq<MethodDecl>) -> Seq<MethodDecl>
    decreases ms.len(),
{
    if ms.len() == 0 {
        Seq::empty()
    } else if is_stream_method(ms.last()) {
        streams_of(ms.drop_last()).push(ms.last())
    } else {
        streams_of(ms.drop_last())
    }
}

fn arg_names(m: &MethodDecl) -> (r: Option<Vec<String>>)
    ensures
        param_names(m.inputs@) is None ==> r is None,
        param_names(m.inputs@) matches Some(ns) ==> (r matches Some(v) && v@.map_values(
            |s: String| s@,
        ) == ns),
{
    let mut out: Vec<String> = Vec::new();
    if m.inputs.len() <= 1 {
        assert(out@.map_values(|s: String| s@) =~= Seq::<Seq<char>>::empty());
        return Some(out);
    }
    let mut i: usize = 1;
    assert(m.inputs@.take(1).len() <= 1);
    assert(out@.map_values(|s: String| s@) =~= Seq::<Seq<char>>::empty());
    while i < m.inputs.len()
        invariant
            1 <= i <= m.inputs@.len(),
            param_names(m.inputs@.take(i as int)) == Some(out@.map_values(|s: String| s@)),
        decreases m.inputs@.len() - i,
    {
        assert(m.inputs@.take(i + 1).drop_last() =~= m.inputs@.take(i as int));
        assert(m.inputs@.take(i + 1).last() == m.inputs@[i as int]);
        match &m.inputs[i] {
            ArgDecl::Typed { name: Some(n), .. } => {
                out.push(n.clone());
                assert(out@.map_values(|s: String| s@) =~= param_names(
                    m.inputs@.take(i as int),
                ).unwrap().push(n@));
            },
            _ => {
                assert(param_names(m.inputs@.take(i + 1)) is None);
                proof {
                    lemma_param_names_prefix(m.inputs@, i + 1);
                }
                return None;
            },
        }
        i = i + 1;
    }
    assert(m.inputs@.take(m.inputs@.len() as int) =~= m.inputs@);
    Some(out)
}

/// A parameter list with an unnamed parameter among its first `n` has no
/// names.
proof fn lemma_param_names_prefix(inputs: Seq<ArgDecl>, n: int)
    requires
        2 <= n <= inputs.len(),
        param_names(inputs.take(n)) is None,
    ensures
        param_names(inputs) is None,
    decreases inputs.len() - n,
{
    if n < inputs.len() {
        assert(inputs.take(n + 1).drop_last() =~= inputs.take(n));
        lemma_param_names_prefix(inputs, n + 1);
    } else {
        assert(inputs.take(n) =~= inputs);
    }
}

/// The first broken stream rule among the served methods, in the trait's
/// order.
pub open spec fn stream_error(ms: Seq<MethodDecl>) -> Option<InterfaceError>
    decreases ms.len(),
{
    if ms.len() == 0 {
        None
    } else {
        match stream_error(ms.drop_last()) {
            Some(e) => Some(e),
            None => if has_receiver(ms.last()) {
                match stream_kind(ms.last()) {
                    Err(e) => Some(e),
                    Ok(_) => None,
                }
            } else {
                None
            },
        }
    }
}

/// Whether a served method carries a `rename` attribute that is refused.
pub open spec fn name_broken(ms: Seq<MethodDecl>) -> bool {
    exists|i: int| 0 <= i < ms.len() && has_receiver(ms[i]) && #[trigger] wire_name(ms[i]) is Err
}

/// The first call method, in the trait's order, that does not return a
/// `Result<..>` or has a parameter that is not a plain identifier; of one
/// method the return type is looked at first.
pub open spec fn call_error(ms: Seq<MethodDecl>) -> Option<InterfaceError>
    decreases ms.len(),
{
    if ms.len() == 0 {
        None
    } else {
        match call_error(ms.drop_last()) {
            Some(e) => Some(e),
            None => if !is_call(ms.last()) {
                None
            } else if result_args(ms.last().output) is None {
                Some(InterfaceError::NotResult)
            } else if param_names(ms.last().inputs@) is None {
                Some(InterfaceError::UnnamedArgument)
            } else {
                None
            },
        }
    }
}

/// Whether the second parameter of a stream method is not a `Sender<..>`.
pub open spec fn sender_broken(ms: Seq<MethodDecl>) -> bool {
    exists|i: int|
        0 <= i < ms.len() && is_stream_method(ms[i]) && #[trigger] sender_args(ms[i].inputs@[1])
            is None
}

/// The error a trait is refused with, if any.  The expansion first sorts
/// every served method into calls and streams, then names them, then
/// writes the calls, then the streams; the first rule broken on that way
/// stops it.
pub open spec fn refusal(ms: Seq<MethodDecl>) -> Option<InterfaceError> {
    match stream_error(ms) {
        Some(e) => Some(e),
        None => if name_broken(ms) {
            Some(InterfaceError::RenameNotLiteral)
        } else {
            match call_error(ms) {
                Some(e) => Some(e),
                None => if sender_broken(ms) {
                    Some(InterfaceError::NotSender)
                } else {
                    None
                },
            }
        },
    }
}

/// Once a prefix has a stream error, the whole list has that one.
proof fn lemma_stream_error_prefix(ms: Seq<MethodDecl>, n: int)
    requires
        0 <= n <= ms.len(),
        stream_error(ms.take(n)) is Some,
    ensures
        stream_error(ms) == stream_error(ms.take(n)),
    decreases ms.len() - n,
{
    if n == ms.len() {
        assert(ms.take(n) =~= ms);
    } else {
        assert(ms.take(n + 1).drop_last() =~= ms.take(n));
        lemma_stream_error_prefix(ms, n + 1);
    }
}

/// Once a prefix has a call error, the whole list has that one.
proof fn lemma_call_error_prefix(ms: Seq<MethodDecl>, n: int)
    requires
        0 <= n <= ms.len(),
        call_error(ms.take(n)) is Some,
    ensures
        call_error(ms) == call_error(ms.take(n)),
    decreases ms.len() - n,
{
    if n == ms.len() {
        assert(ms.take(n) =~= ms);
    } else {
        assert(ms.take(n + 1).drop_last() =~= ms.take(n));
        lemma_call_error_prefix(ms, n + 1);
    }
}

fn takes_receiver(m: &MethodDecl) -> (r: bool)
    ensures
        r == has_receiver(*m),
{
    m.inputs.len() > 0 && match &m.inputs[0] {
        ArgDecl::Receiver => true,
        _ => false,
    }
}

/// Sorts the served methods into calls and streams, refusing the first
/// that breaks a stream rule.
fn check_streams(methods: &Vec<MethodDecl>) -> (r: Result<(), InterfaceError>)
    ensures
        r matches Err(e) ==> stream_error(methods@) == Some(e),
        r is Err ==> exists|i: int| 0 <= i < methods@.len() && !accepted(#[trigger] methods@[i]),
        r is Ok ==> stream_error(methods@) is None,
        r is Ok ==> forall|i: int|
            0 <= i < methods@.len() && has_receiver(#[trigger] methods@[i]) ==> stream_kind(
                methods@[i],
            ) is Ok,
{
    let mut i: usize = 0;
    while i < methods.len()
        invariant
            i <= methods@.len(),
            stream_error(methods@.take(i as int)) is None,
            forall|j: int|
                0 <= j < i && has_receiver(#[trigger] methods@[j]) ==> stream_kind(methods@[j]) is Ok,
        decreases methods@.len() - i,
    {
        let m = &methods[i];
        assert(methods@.take(i + 1).drop_last() =~= methods@.take(i as int));
        assert(methods@.take(i + 1).last() == *m);
        if takes_receiver(m) {
            match is_stream(m) {
                Err(e) => {
                    proof {
                        lemma_stream_error_prefix(methods@, i + 1);
                    }
                    assert(!accepted(methods@[i as int]));
                    return Err(e);
                },
                Ok(_) => {},
            }
        }
        i = i + 1;
    }
    assert(methods@.take(methods@.len() as int) =~= methods@);
    Ok(())
}

/// Names every served method, refusing a `rename` that is not a string.
fn check_names(methods: &Vec<MethodDecl>) -> (r: Result<(), InterfaceError>)
    requires
        forall|i: int|
            0 <= i < methods@.len() && has_receiver(#[trigger] methods@[i]) ==> stream_kind(
                methods@[i],
            ) is Ok,
    ensures
        r is Ok <==> !name_broken(methods@),
        r matches Err(e) ==> e == InterfaceError::RenameNotLiteral,
        r is Err ==> exists|i: int| 0 <= i < methods@.len() && !accepted(#[trigger] methods@[i]),
{
    let mut i: usize = 0;
    while i < methods.len()
        invariant
            i <= methods@.len(),
            forall|j: int| 0 <= j < i && has_receiver(methods@[j]) ==> #[trigger] wire_name(methods@[j]) is Ok,
        decreases methods@.len() - i,
    {
        let m = &methods[i];
        if takes_receiver(m) {
            match method_name(m) {
                Err(e) => {
                    assert(wire_name(methods@[i as int]) is Err);
                    assert(!accepted(methods@[i as int]));
                    return Err(e);
                },
                Ok(_) => {},
            }
        }
        i = i + 1;
    }
    Ok(())
}

/// The plans of the call methods, refusing the first call that does not
/// return a `Result<..>` or has an unnamed parameter.
fn plan_calls(methods: &Vec<MethodDecl>) -> (r: Result<Vec<CallPlan>, InterfaceError>)
    requires
        forall|i: int|
            0 <= i < methods@.len() && has_receiver(#[trigger] methods@[i]) ==> stream_kind(
                methods@[i],
            ) is Ok && wire_name(methods@[i]) is Ok,
    ensures
        r matches Err(e) ==> call_error(methods@) == Some(e),
        r is Err ==> exists|i: int| 0 <= i < methods@.len() && !accepted(#[trigger] methods@[i]),
        r matches Ok(calls) ==> {
            &&& call_error(methods@) is None
            &&& forall|i: int|
                0 <= i < methods@.len() && is_call(#[trigger] methods@[i]) ==> result_args(
                    methods@[i].output,
                ) is Some && param_names(methods@[i].inputs@) is Some
            &&& calls@.len() == calls_of(methods@).len()
            &&& forall|k: int|
                0 <= k < calls@.len() ==> plans_call(#[trigger] calls@[k], calls_of(methods@)[k])
        },
{
    let mut calls: Vec<CallPlan> = Vec::new();
    let mut i: usize = 0;
    while i < methods.len()
        invariant
            i <= methods@.len(),
            forall|j: int|
                0 <= j < methods@.len() && has_receiver(#[trigger] methods@[j]) ==> stream_kind(
                    methods@[j],
                ) is Ok && wire_name(methods@[j]) is Ok,
            call_error(methods@.take(i as int)) is None,
            forall|j: int|
                0 <= j < i && is_call(#[trigger] methods@[j]) ==> result_args(methods@[j].output)
                    is Some && param_names(methods@[j].inputs@) is Some,
            calls@.len() == calls_of(methods@.take(i as int)).len(),
            forall|k: int|
                0 <= k < calls@.len() ==> plans_call(
                    #[trigger] calls@[k],
                    calls_of(methods@.take(i as int))[k],
                ),
        decreases methods@.len() - i,
    {
        let m = &methods[i];
        let ghost prefix = methods@.take(i as int);
        let ghost next = methods@.take(i + 1);
        assert(next.drop_last() =~= prefix);
        assert(next.last() == *m);
        if takes_receiver(m) {
            let kind = is_stream(m);
            if let Ok(false) = kind {
                let result = match return_inner_type(&m.output) {
                    Ok(v) => v,
                    Err(e) => {
                        proof {
                            lemma_call_error_prefix(methods@, i + 1);
                        }
                        assert(!accepted(methods@[i as int]));
                        return Err(e);
                    },
                };
                let names = match arg_names(m) {
                    Some(v) => v,
                    None => {
                        proof {
                            lemma_call_error_prefix(methods@, i + 1);
                        }
                        assert(!accepted(methods@[i as int]));
                        return Err(InterfaceError::UnnamedArgument);
                    },
                };
                let name = method_name(m)?;
                calls.push(
                    CallPlan {
                        ident: m.ident.clone(),
                        wire_name: name,
                        arg_names: names,
                        is_async: m.is_async,
                        result: result.clone(),
                    },
                );
            }
        }
        i = i + 1;
    }
    assert(methods@.take(methods@.len() as int) =~= methods@);
    Ok(calls)
}

/// The plans of the stream methods, refusing one whose second parameter is
/// not a `Sender<..>`.
fn plan_streams(methods: &Vec<MethodDecl>) -> (r: Result<Vec<StreamPlan>, InterfaceError>)
    requires
        forall|i: int|
            0 <= i < methods@.len() && has_receiver(#[trigger] methods@[i]) ==> stream_kind(
                methods@[i],
            ) is Ok && wire_name(methods@[i]) is Ok,
    ensures
        r is Err <==> sender_broken(methods@),
        r matches Err(e) ==> e == InterfaceError::NotSender,
        r matches Ok(streams) ==> {
            &&& streams@.len() == streams_of(methods@).len()
            &&& forall|k: int|
                0 <= k < streams@.len() ==> plans_stream(
                    #[trigger] streams@[k],
                    streams_of(methods@)[k],
                )
        },
{
    let mut streams: Vec<StreamPlan> = Vec::new();
    let mut i: usize = 0;
    while i < methods.len()
        invariant
            i <= methods@.len(),
            forall|j: int|
                0 <= j < methods@.len() && has_receiver(#[trigger] methods@[j]) ==> stream_kind(
                    methods@[j],
                ) is Ok && wire_name(methods@[j]) is Ok,
            forall|j: int|
                0 <= j < i && is_stream_method(methods@[j]) ==> #[trigger] sender_args(
                    methods@[j].inputs@[1],
                ) is Some,
            streams@.len() == streams_of(methods@.take(i as int)).len(),
            forall|k: int|
                0 <= k < streams@.len() ==> plans_stream(
                    #[trigger] streams@[k],
                    streams_of(methods@.take(i as int))[k],
                ),
        decreases methods@.len() - i,
    {
        let m = &methods[i];
        let ghost prefix = methods@.take(i as int);
        let ghost next = methods@.take(i + 1);
        assert(next.drop_last() =~= prefix);
        assert(next.last() == *m);
        if takes_receiver(m) {
            let kind = is_stream(m);
            if let Ok(true) = kind {
                let item = match sender_inner_type(&m.inputs[1]) {
                    Ok(v) => v,
                    Err(e) => {
                        assert(sender_args(methods@[i as int].inputs@[1]) is None);
                        return Err(e);
                    },
                };
                let name = method_name(m)?;
                streams.push(
                    StreamPlan { ident: m.ident.clone(), wire_name: name, item: item.clone() },
                );
            }
        }
        i = i + 1;
    }
    assert(methods@.take(methods@.len() as int) =~= methods@);
    Ok(streams)
}

/// Turns a trait into what is generated for it: the object identity from
/// the annotation, then each method with a receiver as a call or, when it
/// carries `#[stream]`, as an event stream.  A method that breaks a rule
/// makes the whole trait refused, with the error `refusal` names.
pub fn plan(trait_name: &str, args: &Vec<MacroArg>, methods: &Vec<MethodDecl>) -> (r: Result<
    ObjectPlan,
    InterfaceError,
>)
    ensures
        r is Ok <==> forall|i: int| 0 <= i < methods@.len() ==> accepted(#[trigger] methods@[i]),
        r matches Err(e) ==> refusal(methods@) == Some(e),
        r is Ok ==> refusal(methods@) is None,
        r matches Ok(p) ==> {
            &&& p.id.name@ == arg_value(args@, "name"@, trait_name@)
            &&& p.id.version@ == arg_value(args@, "version"@, "1.0"@)
            &&& p.calls@.len() == calls_of(methods@).len()
            &&& forall|k: int|
                0 <= k < p.calls@.len() ==> plans_call(#[trigger] p.calls@[k], calls_of(methods@)[k])
            &&& p.streams@.len() == streams_of(methods@).len()
            &&& forall|k: int|
                0 <= k < p.streams@.len() ==> plans_stream(
                    #[trigger] p.streams@[k],
                    streams_of(methods@)[k],
                )
        },
{
    let id = object_id(trait_name, args);
    check_streams(methods)?;
    check_names(methods)?;
    assert(forall|i: int|
        0 <= i < methods@.len() && has_receiver(#[trigger] methods@[i]) ==> wire_name(methods@[i]) is Ok);
    let calls = plan_calls(methods)?;
    let streams = match plan_streams(methods) {
        Ok(v) => v,
        Err(e) => {
            let ghost i = choose|i: int|
                0 <= i < methods@.len() && is_stream_method(methods@[i]) && #[trigger] sender_args(methods@[i].inputs@[1]) is None;
            assert(!accepted(methods@[i]));
            return Err(e);
        },
    };
    assert forall|i: int| 0 <= i < methods@.len() implies accepted(#[trigger] methods@[i]) by {
        if has_receiver(methods@[i]) {
            if is_stream_method(methods@[i]) {
                assert(sender_args(methods@[i].inputs@[1]) is Some);
            }
        }
    }
    Ok(ObjectPlan { id, calls, streams })
}

impl ObjectPlan {
    /// The call a request for method `method` is dispatched to: the first
    /// call travelling under that name.
    pub fn dispatch_target(&self, method: &String) -> (r: Option<usize>)
        ensures
            r matches Some(k) ==> k < self.calls@.len() && self.calls@[k as int].wire_name@
                == method@ && forall|j: int|
                0 <= j < k ==> #[trigger] self.calls@[j].wire_name@ != method@,
            r is None ==> forall|j: int|
                0 <= j < self.calls@.len() ==> #[trigger] self.calls@[j].wire_name@ != method@,
    {
        let mut k: usize = 0;
        while k < self.calls.len()
            invariant
                k <= self.calls@.len(),
                forall|j: int| 0 <= j < k ==> #[trigger] self.calls@[j].wire_name@ != method@,
            decreases self.calls@.len() - k,
        {
            if self.calls[k].wire_name.eq(method) {
                return Some(k);
            }
            k = k + 1;
        }
        None
    }

    /// Streams need the served value to be shared with the tasks that feed
    /// them, so the implementation must then be `Clone`.
    pub fn needs_clone(&self) -> (r: bool)
        ensures
            r <==> self.streams@.len() > 0,
    {
        self.streams.len() > 0
    }
}

} // verus!
