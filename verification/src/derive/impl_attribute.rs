//! Script methods: which methods of a script's `impl` block the engine can
//! call, how a call is checked against a method's arguments, and the
//! interface trait that other scripts call the methods through.
use vstd::prelude::*;

use crate::engine_types::{method_normal, method_static, MethodFlags};
use crate::derive::fields::field_description;
use crate::text::{concat_str, join_with, str_eq, strings_view};

verus! {

/// The shape of a Rust type, as far as the macros look at it.
pub enum TypeKind {
    Array,
    BareFn,
    Group,
    ImplTrait,
    Infer,
    Macro,
    Never,
    Paren,
    /// A path; the identifier of its last segment.
    Path(String),
    Ptr,
    Reference,
    Slice,
    TraitObject,
    /// A tuple with this many elements.
    Tuple(usize),
    Verbatim,
    Other,
}

/// A Rust type: its shape and its source text.
pub struct RustType {
    pub kind: TypeKind,
    pub text: String,
}

/// A parameter of this type receives the call context rather than an
/// argument from the caller: a path whose last segment is `Context`.
pub open spec fn context_type(ty: RustType) -> bool {
    ty.kind matches TypeKind::Path(last) && last@ == "Context"@
}

/// Whether a parameter of this type receives the call context.
pub fn is_context_type(ty: &RustType) -> (r: bool)
    ensures
        r == context_type(*ty),
{
    match &ty.kind {
        TypeKind::Path(last) => str_eq(last.as_str(), "Context"),
        _ => false,
    }
}

/// The message with which a type is rejected as the target of a script
/// `impl` block.
pub open spec fn impl_target_error(kind: TypeKind) -> Seq<char> {
    match kind {
        TypeKind::Array => "Arrays are not supported!"@,
        TypeKind::BareFn => "Bare functions are not supported!"@,
        TypeKind::Group => "Groups are not supported!"@,
        TypeKind::ImplTrait => "Impl traits are not suppored!"@,
        TypeKind::Infer => "Infer is not supported!"@,
        TypeKind::Macro => "Macro types are not supported!"@,
        TypeKind::Never => "Never type is not supported!"@,
        TypeKind::Ptr => "Pointer types are not supported!"@,
        TypeKind::Reference => "References are not supported!"@,
        TypeKind::Slice => "Slices are not supported!"@,
        TypeKind::TraitObject => "Trait objects are not supported!"@,
        TypeKind::Tuple(_) => "Tuples are not supported!"@,
        TypeKind::Verbatim => "Verbatim is not supported!"@,
        _ => "Unsupported type!"@,
    }
}

/// The name of the script that an `impl` block targets: the last segment
/// of a path type; any other type is rejected.
pub fn extract_ident_from_type(impl_target: &RustType) -> (r: Result<String, &'static str>)
    ensures
        match impl_target.kind {
            TypeKind::Path(last) => (r matches Ok(name) && name@ == last@),
            _ => (r matches Err(msg) && msg@ == impl_target_error(impl_target.kind)),
        },
{
    match &impl_target.kind {
        TypeKind::Array => Err("Arrays are not supported!"),
        TypeKind::BareFn => Err("Bare functions are not supported!"),
        TypeKind::Group => Err("Groups are not supported!"),
        TypeKind::ImplTrait => Err("Impl traits are not suppored!"),
        TypeKind::Infer => Err("Infer is not supported!"),
        TypeKind::Macro => Err("Macro types are not supported!"),
        TypeKind::Never => Err("Never type is not supported!"),
        TypeKind::Paren => Err("Unsupported type!"),
        TypeKind::Path(last) => Ok(last.clone()),
        TypeKind::Ptr => Err("Pointer types are not supported!"),
        TypeKind::Reference => Err("References are not supported!"),
        TypeKind::Slice => Err("Slices are not supported!"),
        TypeKind::TraitObject => Err("Trait objects are not supported!"),
        TypeKind::Tuple(_) => Err("Tuples are not supported!"),
        TypeKind::Verbatim => Err("Verbatim is not supported!"),
        TypeKind::Other => Err("Unsupported type!"),
    }
}

/// Whether a value of this type can cross into the engine as a property,
/// argument or return value: paths and the unit tuple can; anything else
/// is rejected with a message.
pub open spec fn variant_type_check(ty: RustType) -> Result<(), Seq<char>> {
    match ty.kind {
        TypeKind::Path(_) => Ok(()),
        TypeKind::Verbatim => Err("not sure how to handle verbatim types yet!"@),
        TypeKind::Tuple(n) => if n == 0 {
            Ok(())
        } else {
            Err("\""@ + ty.text@ + "\" is not a supported type"@)
        },
        _ => Err("\""@ + ty.text@ + "\" is not a supported type"@),
    }
}

pub fn rust_to_variant_type(ty: &RustType) -> (r: Result<(), String>)
    ensures
        match (r, variant_type_check(*ty)) {
            (Ok(()), Ok(())) => true,
            (Err(e), Err(spec)) => e@ == spec,
            _ => false,
        },
{
    match &ty.kind {
        TypeKind::Path(_) => Ok(()),
        TypeKind::Verbatim => Err("not sure how to handle verbatim types yet!".to_owned()),
        TypeKind::Tuple(n) => {
            if *n == 0 {
                Ok(())
            } else {
                let a = concat_str("\"", ty.text.as_str());
                Err(concat_str(a.as_str(), "\" is not a supported type"))
            }
        },
        _ => {
            let a = concat_str("\"", ty.text.as_str());
            Err(concat_str(a.as_str(), "\" is not a supported type"))
        },
    }
}

/// What the attribute reads of a method: its name, whether it is public,
/// whether it takes `self`, and the types of its other parameters.
pub struct ScriptMethodSig {
    pub name: String,
    pub is_public: bool,
    pub has_receiver: bool,
    pub params: Vec<RustType>,
}

/// The number of arguments that a call must supply so that every parameter
/// that is not the call context finds its argument: each is read at its
/// position among all the parameters, the call context's included, so this
/// is the position after the last such parameter.
pub open spec fn args_needed(params: Seq<RustType>) -> nat
    decreases params.len(),
{
    if params.len() == 0 {
        0
    } else if context_type(params.last()) {
        args_needed(params.drop_last())
    } else {
        params.len()
    }
}

/// The number of arguments that a call of a method with these parameters
/// must at least supply.
pub fn required_args(params: &Vec<RustType>) -> (r: usize)
    ensures
        r == args_needed(params@),
{
    let mut i: usize = params.len();
    assert(params@.take(i as int) == params@);
    while i > 0 && is_context_type(&params[i - 1])
        invariant
            i <= params.len(),
            args_needed(params@.take(i as int)) == args_needed(params@),
        decreases i,
    {
        assert(params@.take(i as int).drop_last() == params@.take(i - 1));
        i = i - 1;
    }
    assert(params@.take(params@.len() as int) == params@);
    i
}

/// The flags of a script method: `STATIC` for a method without `self`,
/// `NORMAL` otherwise.
pub fn method_flags(has_receiver: bool) -> (r: MethodFlags)
    ensures
        r.bits == if has_receiver { method_normal() } else { method_static() },
{
    if has_receiver {
        MethodFlags::normal()
    } else {
        MethodFlags::static_()
    }
}

/// Why the engine's call of a script method failed.
#[derive(Clone, Copy, PartialEq, Eq, Structural)]
pub enum CallError {
    InvalidMethod,
    TooManyArguments,
    TooFewArguments,
}

/// How a call that supplies `given` arguments fares with a method that
/// takes `taken` parameters (the call context's included) and needs
/// `needed` arguments: more arguments than parameters are refused, fewer
/// than needed too.
pub open spec fn call_check(given: int, taken: int, needed: int) -> Result<(), CallError> {
    if given > taken {
        Err(CallError::TooManyArguments)
    } else if given < needed {
        Err(CallError::TooFewArguments)
    } else {
        Ok(())
    }
}

/// How a call that supplies `given` arguments fares with a method that has
/// these parameters.
pub open spec fn check_call_args_spec(given: int, params: Seq<RustType>) -> Result<(), CallError> {
    call_check(given, params.len() as int, args_needed(params) as int)
}

/// Checks a call that supplies `given` arguments to a method that takes
/// `taken` parameters and needs `needed` arguments.
pub fn check_call_args(given: usize, taken: usize, needed: usize) -> (r: Result<(), CallError>)
    ensures
        r == call_check(given as int, taken as int, needed as int),
{
    if given > taken {
        Err(CallError::TooManyArguments)
    } else if given < needed {
        Err(CallError::TooFewArguments)
    } else {
        Ok(())
    }
}

/// Whether the method at position `i` is the one that a call of `name`
/// reaches: the first public method with that name.
pub open spec fn dispatch_target(methods: Seq<ScriptMethodSig>, name: Seq<char>, i: int) -> bool {
    &&& 0 <= i < methods.len()
    &&& methods[i].is_public
    &&& methods[i].name@ == name
    &&& forall|j: int| 0 <= j < i ==> !(#[trigger] methods[j].is_public && methods[j].name@ == name)
}

/// The method that the engine's call of `name` with `given` arguments
/// reaches, or why the call fails: no public method has that name, the
/// call supplies more arguments than the method has parameters, or fewer
/// than it reads. (Whether each argument converts to its parameter's type
/// is decided when the call runs.)
pub fn dispatch_call(methods: &Vec<ScriptMethodSig>, name: &str, given: usize) -> (r: Result<usize, CallError>)
    ensures
        match r {
            Ok(i) => dispatch_target(methods@, name@, i as int)
                && args_needed(methods@[i as int].params@) <= given <= methods@[i as int].params@.len(),
            Err(CallError::InvalidMethod) => forall|j: int| 0 <= j < methods@.len() ==> !(#[trigger] methods@[j].is_public && methods@[j].name@ == name@),
            Err(e) => exists|i: int| dispatch_target(methods@, name@, i) && #[trigger] check_call_args_spec(given as int, methods@[i].params@) == Err::<(), CallError>(e),
        },
{
    let mut i: usize = 0;
    while i < methods.len()
        invariant
            i <= methods.len(),
            forall|j: int| 0 <= j < i ==> !(#[trigger] methods@[j].is_public && methods@[j].name@ == name@),
        decreases methods.len() - i,
    {
        if methods[i].is_public && str_eq(methods[i].name.as_str(), name) {
            let needed = required_args(&methods[i].params);
            let checked = check_call_args(given, methods[i].params.len(), needed);
            assert(dispatch_target(methods@, name@, i as int));
            return match checked {
                Ok(()) => Ok(i),
                Err(e) => {
                    assert(check_call_args_spec(given as int, methods@[i as int].params@) == Err::<(), CallError>(e));
                    Err(e)
                },
            };
        }
        i = i + 1;
    }
    Err(CallError::InvalidMethod)
}

/// A call of a name reaches one method at most, and the call succeeds
/// exactly when it supplies at least the arguments that the method reads
/// and no more than its parameters.
pub proof fn law_one_method_per_call(methods: Seq<ScriptMethodSig>, name: Seq<char>, i: int, k: int, given: int)
    requires
        dispatch_target(methods, name, i),
        dispatch_target(methods, name, k),
    ensures
        i == k,
        check_call_args_spec(given, methods[i].params@) is Ok
            <==> args_needed(methods[i].params@) <= given <= methods[i].params@.len(),
{
    if i < k {
        assert(!(methods[i].is_public && methods[i].name@ == name));
    } else if k < i {
        assert(!(methods[k].is_public && methods[k].name@ == name));
    }
}

/// The parameters that are not the call context, in order.
pub open spec fn without_context(params: Seq<RustType>) -> Seq<RustType>
    decreases params.len(),
{
    if params.len() == 0 {
        Seq::empty()
    } else {
        let rest = without_context(params.drop_last());
        if context_type(params.last()) {
            rest
        } else {
            rest.push(params.last())
        }
    }
}

/// The public methods, in order.
pub open spec fn public_methods(methods: Seq<ScriptMethodSig>) -> Seq<ScriptMethodSig>
    decreases methods.len(),
{
    if methods.len() == 0 {
        Seq::empty()
    } else {
        let rest = public_methods(methods.drop_last());
        if methods.last().is_public {
            rest.push(methods.last())
        } else {
            rest
        }
    }
}

/// A method of a script's interface trait: its name, whether it takes
/// `&mut self`, and the parameters that callers supply.
pub struct InterfaceFn {
    pub name: String,
    pub has_receiver: bool,
    pub params: Vec<RustType>,
}

/// `f` is the interface method that the script method `m` yields: the
/// same name and receiver, without the call-context parameters.
pub open spec fn interface_fn_of(f: InterfaceFn, m: ScriptMethodSig) -> bool {
    &&& f.name == m.name
    &&& f.has_receiver == m.has_receiver
    &&& f.params@ == without_context(m.params@)
}

fn params_without_context(params: Vec<RustType>) -> (r: Vec<RustType>)
    ensures
        r@ == without_context(params@),
{
    let ghost all = params@;
    let mut out: Vec<RustType> = Vec::new();
    for p in it: params
        invariant
            it.seq() == all,
            out@ == without_context(all.take(it.index() as int)),
    {
        let ghost k = it.index() as int;
        assert(all.take(k + 1).drop_last() == all.take(k));
        assert(all.take(k + 1).last() == p);
        if !is_context_type(&p) {
            out.push(p);
        }
    }
    assert(all.take(all.len() as int) == all);
    out
}

/// The methods of the interface trait through which other scripts call a
/// script: one for each public method, in order, taking `&mut self` where
/// the method takes `self`, and the arguments that callers supply.
pub fn public_interface(methods: Vec<ScriptMethodSig>) -> (r: Vec<InterfaceFn>)
    ensures
        r@.len() == public_methods(methods@).len(),
        forall|i: int| 0 <= i < r@.len() ==> interface_fn_of(#[trigger] r@[i], public_methods(methods@)[i]),
{
    let ghost all = methods@;
    let mut out: Vec<InterfaceFn> = Vec::new();
    for m in it: methods
        invariant
            it.seq() == all,
            out@.len() == public_methods(all.take(it.index() as int)).len(),
            forall|i: int| 0 <= i < out@.len() ==> interface_fn_of(#[trigger] out@[i], public_methods(all.take(it.index() as int))[i]),
    {
        let ghost k = it.index() as int;
        let ghost before = public_methods(all.take(k));
        assert(all.take(k + 1).drop_last() == all.take(k));
        assert(all.take(k + 1).last() == m);
        if m.is_public {
            let ghost mm = m;
            let ghost prev = out@;
            let f = InterfaceFn { name: m.name, has_receiver: m.has_receiver, params: params_without_context(m.params) };
            out.push(f);
            assert(public_methods(all.take(k + 1)) == before.push(mm));
            assert forall|i: int| 0 <= i < out@.len() implies interface_fn_of(#[trigger] out@[i], public_methods(all.take(k + 1))[i]) by {
                if i < prev.len() {
                    assert(out@[i] == prev[i]);
                    assert(interface_fn_of(prev[i], before[i]));
                }
            }
        }
    }
    assert(all.take(all.len() as int) == all);
    out
}

/// No call-context parameter comes before a parameter that callers supply.
pub open spec fn context_params_last(params: Seq<RustType>) -> bool {
    forall|i: int, j: int| 0 <= i < j < params.len() && #[trigger] context_type(params[i]) ==> #[trigger] context_type(params[j])
}

/// A call through the interface trait passes one argument per interface
/// parameter. Where the call-context parameters come last, that is exactly
/// the number of arguments that the script method reads, so the engine's
/// argument check accepts the call.
pub proof fn law_interface_calls_pass_the_argument_check(params: Seq<RustType>)
    requires
        context_params_last(params),
    ensures
        without_context(params).len() == args_needed(params),
        check_call_args_spec(without_context(params).len() as int, params) is Ok,
    decreases params.len(),
{
    if params.len() > 0 {
        let rest = params.drop_last();
        assert(context_params_last(rest)) by {
            assert forall|i: int, j: int| 0 <= i < j < rest.len() && #[trigger] context_type(rest[i]) implies #[trigger] context_type(rest[j]) by {
                assert(rest[i] == params[i] && rest[j] == params[j]);
            }
        }
        law_interface_calls_pass_the_argument_check(rest);
        if !context_type(params.last()) {
            assert forall|i: int| 0 <= i < params.len() implies !context_type(#[trigger] params[i]) by {
                if i < params.len() - 1 && context_type(params[i]) {
                    assert(context_type(params[params.len() - 1]));
                }
            }
            lemma_without_context_keeps_all(params);
        }
    }
}

proof fn lemma_without_context_keeps_all(params: Seq<RustType>)
    requires
        forall|i: int| 0 <= i < params.len() ==> !context_type(#[trigger] params[i]),
    ensures
        without_context(params).len() == params.len(),
    decreases params.len(),
{
    if params.len() > 0 {
        let rest = params.drop_last();
        assert forall|i: int| 0 <= i < rest.len() implies !context_type(#[trigger] rest[i]) by {
            assert(rest[i] == params[i]);
        }
        lemma_without_context_keeps_all(rest);
    }
}

/// A method of a script's `impl` block: its signature, its return type and
/// the lines of its doc comment.
pub struct ImplMethod {
    pub sig: ScriptMethodSig,
    pub return_type: RustType,
    pub doc_lines: Vec<String>,
}

/// How a public method is registered with the engine: its name, the types
/// of the arguments that callers supply, its flags and its description.
pub struct MethodRegistration {
    pub name: String,
    pub arguments: Vec<RustType>,
    pub flags: MethodFlags,
    pub description: String,
}

/// `r` registers the method `m`: the same name, the parameters that are
/// not the call context, `STATIC` without `self` and `NORMAL` with it, and
/// the doc comment's lines joined by line breaks.
pub open spec fn registration_of(r: MethodRegistration, m: ImplMethod) -> bool {
    &&& r.name == m.sig.name
    &&& r.arguments@ == without_context(m.sig.params@)
    &&& r.flags.bits == (if m.sig.has_receiver { method_normal() } else { method_static() })
    &&& r.description@ == join_with(strings_view(m.doc_lines@), "\n"@)
}

/// The public methods of an `impl` block, in order.
pub open spec fn public_impl_methods(methods: Seq<ImplMethod>) -> Seq<ImplMethod>
    decreases methods.len(),
{
    if methods.len() == 0 {
        Seq::empty()
    } else {
        let rest = public_impl_methods(methods.drop_last());
        if methods.last().sig.is_public {
            rest.push(methods.last())
        } else {
            rest
        }
    }
}

/// The error of the first public method whose return type cannot cross
/// into the engine, if there is one.
pub open spec fn first_return_error(methods: Seq<ImplMethod>) -> Option<Seq<char>>
    decreases methods.len(),
{
    if methods.len() == 0 {
        None
    } else {
        match first_return_error(methods.drop_last()) {
            Some(e) => Some(e),
            None => if methods.last().sig.is_public {
                match variant_type_check(methods.last().return_type) {
                    Err(e) => Some(e),
                    Ok(_) => None,
                }
            } else {
                None
            },
        }
    }
}

/// The argument types of every public method up to the first return-type
/// error can cross into the engine (a method whose argument cannot stops
/// the macro).
pub open spec fn argument_types_supported(methods: Seq<ImplMethod>) -> bool {
    forall|i: int, j: int|
        0 <= i < methods.len() && methods[i].sig.is_public && first_return_error(methods.take(i + 1)) is None
            && 0 <= j < methods[i].sig.params@.len()
            ==> #[trigger] variant_type_check(methods[i].sig.params@[j]) is Ok
}

proof fn lemma_first_error_stays(methods: Seq<ImplMethod>, k: int)
    requires
        0 <= k <= methods.len(),
        first_return_error(methods.take(k)) is Some,
    ensures
        first_return_error(methods) == first_return_error(methods.take(k)),
    decreases methods.len() - k,
{
    if k < methods.len() {
        assert(methods.take(k + 1).drop_last() == methods.take(k));
        lemma_first_error_stays(methods, k + 1);
    } else {
        assert(methods.take(k) == methods);
    }
}

/// The registrations of the public methods of an `impl` block, in order,
/// or the error of the first public method whose return type cannot cross
/// into the engine.
pub fn method_registrations(methods: Vec<ImplMethod>) -> (r: Result<Vec<MethodRegistration>, String>)
    requires
        argument_types_supported(methods@),
    ensures
        match r {
            Err(e) => first_return_error(methods@) == Some(e@),
            Ok(regs) => first_return_error(methods@) is None
                && regs@.len() == public_impl_methods(methods@).len()
                && forall|i: int| 0 <= i < regs@.len() ==> registration_of(#[trigger] regs@[i], public_impl_methods(methods@)[i]),
        },
{
    let ghost all = methods@;
    let mut out: Vec<MethodRegistration> = Vec::new();
    for m in it: methods
        invariant
            it.seq() == all,
            first_return_error(all.take(it.index() as int)) is None,
            out@.len() == public_impl_methods(all.take(it.index() as int)).len(),
            forall|i: int| 0 <= i < out@.len() ==> registration_of(#[trigger] out@[i], public_impl_methods(all.take(it.index() as int))[i]),
    {
        let ghost k = it.index() as int;
        let ghost mm = m;
        assert(all.take(k + 1).drop_last() == all.take(k));
        assert(all.take(k + 1).last() == m);
        if m.sig.is_public {
            match rust_to_variant_type(&m.return_type) {
                Err(e) => {
                    proof {
                        lemma_first_error_stays(all, k + 1);
                    }
                    return Err(e);
                },
                Ok(()) => {},
            }
            let description = match field_description(&m.doc_lines) {
                Some(d) => d,
                None => String::new(),
            };
            let ghost prev = out@;
            let ghost before = public_impl_methods(all.take(k));
            let reg = MethodRegistration {
                name: m.sig.name,
                arguments: params_without_context(m.sig.params),
                flags: method_flags(m.sig.has_receiver),
                description,
            };
            out.push(reg);
            assert(public_impl_methods(all.take(k + 1)) == before.push(mm));
            assert forall|i: int| 0 <= i < out@.len() implies registration_of(#[trigger] out@[i], public_impl_methods(all.take(k + 1))[i]) by {
                if i < prev.len() {
                    assert(out@[i] == prev[i]);
                    assert(registration_of(prev[i], before[i]));
                }
            }
        }
    }
    assert(all.take(all.len() as int) == all);
    Ok(out)
}

/// The name of the interface trait through which other scripts call the
/// public methods of the script `script_name`: `"I<script_name>"`.
pub fn interface_trait_name(script_name: &str) -> (r: String)
    ensures
        r@ == "I"@ + script_name@,
{
    concat_str("I", script_name)
}

} // verus!
