//! The rewrite of one declaration.
//!
//! An unsafe function keeps its signature and hands its body to an inner
//! function that is not unsafe: whatever the body does that needs `unsafe` has
//! to say so in a block of its own. The outer function only forwards its
//! parameters. A function that is not unsafe is left as it is.

use vstd::prelude::*;
use crate::context::{generic_names, names_of, optional_context, MethodContext, MethodContextView};
use crate::declaration::{
    Body, BodyView, Declaration, DeclarationView, ForwardCall, ForwardCallView, Forwarding,
    ForwardingView, Helper, HelperImpl, HelperImplView, HelperTrait, HelperTraitView, HelperView,
};
use crate::error::TransformError;
use crate::names::{
    arg_name, enclosing_type_name, helper_name, helper_trait_name, inner_function_name,
    inner_name, receiver_name, self_name, self_type_name, synthesized_name, text_is,
};
use crate::receiver::{is_method, is_receiver, method_marker};
use crate::syntax::{
    duplicate_optional_trait_info, views, Attribute, AttributeView, GenericKind, GenericParam,
    GenericParamView, Parameter, ParameterView, Pattern, PatternView, Signature, SignatureView,
    Span, TraitRef, TraitRefView,
};

verus! {

/// How many parameters before `position` are not the receiver.
pub open spec fn rank(inputs: Seq<ParameterView>, position: int) -> nat
    decreases position,
{
    if position <= 0 {
        0
    } else {
        let before = rank(inputs, position - 1);
        if is_receiver(inputs[position - 1]) {
            before
        } else {
            (before + 1) as nat
        }
    }
}

/// A parameter under its forwarded name: the pattern gives way to the name of
/// the given number, the type stays.
pub open spec fn renamed(parameter: ParameterView, number: nat) -> ParameterView {
    match parameter {
        ParameterView::Receiver { .. } => parameter,
        ParameterView::Typed { pattern, ty, ty_span } => ParameterView::Typed {
            pattern: PatternView::Binding {
                qualifiers: Seq::empty(),
                name: synthesized_name(number),
                span: pattern.span(),
            },
            ty,
            ty_span,
        },
    }
}

/// The parameter that the outer function has at `position`: the receiver as
/// it was, any other under the name of its rank.
pub open spec fn outer_parameter(inputs: Seq<ParameterView>, position: int) -> ParameterView {
    if is_receiver(inputs[position]) {
        inputs[position]
    } else {
        renamed(inputs[position], rank(inputs, position))
    }
}

/// The parameters of the outer function.
pub open spec fn outer_inputs(inputs: Seq<ParameterView>) -> Seq<ParameterView> {
    Seq::new(inputs.len(), |position: int| outer_parameter(inputs, position))
}

/// What the forwarding call passes for the parameter at `position`.
pub open spec fn forwarded_argument(inputs: Seq<ParameterView>, position: int) -> Seq<char> {
    if is_receiver(inputs[position]) {
        self_name()
    } else {
        synthesized_name(rank(inputs, position))
    }
}

/// The arguments of the forwarding call, in the order of the parameters.
pub open spec fn forwarded_args(inputs: Seq<ParameterView>) -> Seq<Seq<char>> {
    Seq::new(inputs.len(), |position: int| forwarded_argument(inputs, position))
}

/// The generic parameters that a call can name: all but the lifetimes.
pub open spec fn is_forwarded_generic() -> spec_fn(GenericParamView) -> bool {
    |param: GenericParamView| param.kind != GenericKind::Lifetime
}

/// The generic arguments of the forwarding call: the names of the
/// declaration's own type and constant parameters, in declared order.
pub open spec fn forwarded_generics(params: Seq<GenericParamView>) -> Seq<Seq<char>> {
    generic_names(params.filter(is_forwarded_generic()))
}

/// Whether an attribute of this path tells the compiler how to lay out or
/// name the function: such an attribute stays on the outer function alone.
pub open spec fn is_codegen_hint(path: Seq<char>) -> bool {
    path == "inline"@ || path == "cold"@ || path == "no_mangle"@ || path == "export_name"@
}

/// The attributes that the inner function takes over.
pub open spec fn is_kept_attribute() -> spec_fn(AttributeView) -> bool {
    |attribute: AttributeView| !is_codegen_hint(attribute.path)
}

/// The attribute that makes the compiler inline the inner function.
pub open spec fn always_inline() -> AttributeView {
    AttributeView { path: "inline"@, arguments: "(always)"@ }
}

/// The attributes of the inner function.
pub open spec fn inner_attrs(attrs: Seq<AttributeView>) -> Seq<AttributeView> {
    attrs.filter(is_kept_attribute()).push(always_inline())
}

/// The signature of the outer function: that of the declaration, with the
/// parameters under their forwarded names.
pub open spec fn outer_signature(sig: SignatureView) -> SignatureView {
    SignatureView { inputs: outer_inputs(sig.inputs), ..sig }
}

/// A signature as the inner function has it: under the inner name, neither
/// unsafe nor of a foreign calling convention.
pub open spec fn inner_signature(sig: SignatureView) -> SignatureView {
    SignatureView { name: inner_name(), unsafety: false, abi: None, ..sig }
}

/// The inner function: the declaration's body under the inner signature,
/// with the patterns that the parameters were written with.
pub open spec fn inner_declaration(declaration: DeclarationView) -> DeclarationView {
    DeclarationView {
        attrs: inner_attrs(declaration.attrs),
        visibility: Seq::empty(),
        sig: inner_signature(declaration.sig),
        body: declaration.body,
    }
}

/// The generic arguments of the helper trait. Its parameters are those of the
/// context; where the context has a placeholder for the implementing type,
/// `self_argument` is passed for it.
pub open spec fn helper_args(context: MethodContextView, self_argument: Seq<char>) -> Seq<
    Seq<char>,
> {
    let names = generic_names(context.generics.params);
    match context.trait_info {
        Some(info) => match info.self_param {
            Some(_) => names.push(self_argument),
            None => names,
        },
        None => names,
    }
}

/// The helper trait as its implementation names it.
pub open spec fn helper_in_impl(context: MethodContextView) -> TraitRefView {
    TraitRefView {
        path: helper_trait_name(),
        args: helper_args(context, context.self_type),
    }
}

/// The helper trait as the forwarding call names it.
pub open spec fn helper_in_call(context: MethodContextView) -> TraitRefView {
    TraitRefView { path: helper_trait_name(), args: helper_args(context, self_type_name()) }
}

/// Where the body goes. A free function gets a nested function. A method
/// gets a helper trait that declares the inner method, under the forwarded
/// names, and an implementation of that trait that holds it.
pub open spec fn helper(declaration: DeclarationView, context: Option<MethodContextView>)
    -> HelperView {
    match context {
        None => HelperView::Function(inner_declaration(declaration)),
        Some(c) => HelperView::Trait(
            HelperTraitView {
                name: helper_trait_name(),
                generics: c.generics,
                trait_info: c.trait_info,
                method: inner_signature(outer_signature(declaration.sig)),
            },
            HelperImplView {
                helper: helper_in_impl(c),
                generics: c.generics,
                trait_info: c.trait_info,
                self_type: c.self_type,
                method: inner_declaration(declaration),
            },
        ),
    }
}

/// The call that the outer function makes.
pub open spec fn forward_call(sig: SignatureView, context: Option<MethodContextView>)
    -> ForwardCallView {
    ForwardCallView {
        qualifier: match context {
            Some(c) => Some(helper_in_call(c)),
            None => None,
        },
        function: inner_name(),
        generic_args: forwarded_generics(sig.generics.params),
        args: forwarded_args(sig.inputs),
        awaited: sig.asyncness,
    }
}

/// An unsafe declaration after the split.
pub open spec fn rewritten(declaration: DeclarationView, context: Option<MethodContextView>)
    -> DeclarationView {
    DeclarationView {
        attrs: declaration.attrs,
        visibility: declaration.visibility,
        sig: outer_signature(declaration.sig),
        body: BodyView::Forwarding(
            Box::new(
                ForwardingView {
                    helper: helper(declaration, context),
                    call: forward_call(declaration.sig, context),
                },
            ),
        ),
    }
}

/// Why the rewrite refuses a declaration, if it does. A method cannot be
/// split without the block around it, whose type and generic parameters the
/// forwarding needs: without a context it is refused, and the place of what
/// shows it to be a method is reported.
pub open spec fn refusal(declaration: DeclarationView, context: Option<MethodContextView>)
    -> Option<Span> {
    match context {
        None => method_marker(declaration.sig),
        Some(_) => None,
    }
}

/// What the rewrite makes of a declaration that it does not refuse: an
/// unsafe one is split, any other is left as it is.
pub open spec fn transformed(declaration: DeclarationView, context: Option<MethodContextView>)
    -> DeclarationView {
    if declaration.sig.unsafety {
        rewritten(declaration, context)
    } else {
        declaration
    }
}

proof fn lemma_filter_none<A>(items: Seq<A>, keep: spec_fn(A) -> bool)
    ensures
        items.take(0).filter(keep) == Seq::<A>::empty(),
{
    reveal(Seq::filter);
}

proof fn lemma_filter_step<A>(items: Seq<A>, keep: spec_fn(A) -> bool, i: int)
    requires
        0 <= i < items.len(),
    ensures
        items.take(i + 1).filter(keep) == if keep(items[i]) {
            items.take(i).filter(keep).push(items[i])
        } else {
            items.take(i).filter(keep)
        },
{
    reveal(Seq::filter);
    let longer = items.take(i + 1);
    assert(longer.drop_last() =~= items.take(i));
}

fn is_codegen_attribute(attribute: &Attribute) -> (hint: bool)
    ensures
        hint == is_codegen_hint(attribute@.path),
{
    text_is(&attribute.path, "inline") || text_is(&attribute.path, "cold") || text_is(
        &attribute.path,
        "no_mangle",
    ) || text_is(&attribute.path, "export_name")
}

/// The attributes of the inner function: those of `attrs` that are no hints
/// for the code generator, in their order, and the hint to inline always.
pub fn inner_attributes(attrs: &Vec<Attribute>) -> (inner: Vec<Attribute>)
    ensures
        views(inner@) == inner_attrs(views(attrs@)),
{
    let ghost all = views(attrs@);
    let mut inner: Vec<Attribute> = Vec::new();
    let mut i: usize = 0;
    proof {
        lemma_filter_none(all, is_kept_attribute());
    }
    while i < attrs.len()
        invariant
            i <= attrs.len(),
            all == views(attrs@),
            views(inner@) == all.take(i as int).filter(is_kept_attribute()),
        decreases attrs.len() - i,
    {
        proof {
            lemma_filter_step(all, is_kept_attribute(), i as int);
        }
        if !is_codegen_attribute(&attrs[i]) {
            inner.push(attrs[i].duplicate());
        }
        i += 1;
    }
    assert(all.take(attrs.len() as int) =~= all);
    inner.push(Attribute { path: "inline".to_owned(), arguments: "(always)".to_owned() });
    inner
}

/// The generic arguments of the forwarding call: the names of those of
/// `params` that are no lifetimes, in their order.
pub fn forwarded_generic_names(params: &Vec<GenericParam>) -> (names: Vec<String>)
    ensures
        views(names@) == forwarded_generics(views(params@)),
{
    let ghost all = views(params@);
    let mut names: Vec<String> = Vec::new();
    let mut i: usize = 0;
    proof {
        lemma_filter_none(all, is_forwarded_generic());
    }
    while i < params.len()
        invariant
            i <= params.len(),
            all == views(params@),
            views(names@) == generic_names(all.take(i as int).filter(is_forwarded_generic())),
        decreases params.len() - i,
    {
        proof {
            lemma_filter_step(all, is_forwarded_generic(), i as int);
        }
        let ghost chosen = all.take(i as int).filter(is_forwarded_generic());
        let forwarded = match params[i].kind {
            GenericKind::Lifetime => false,
            _ => true,
        };
        if forwarded {
            names.push(params[i].name.clone());
            assert(generic_names(chosen.push(all[i as int])) =~= generic_names(chosen).push(
                all[i as int].name,
            ));
        }
        i += 1;
    }
    assert(all.take(params.len() as int) =~= all);
    names
}

fn rename(parameter: &Parameter, number: usize) -> (outer: Parameter)
    requires
        !is_receiver(parameter@),
    ensures
        outer@ == renamed(parameter@, number as nat),
{
    match parameter {
        Parameter::Receiver { .. } => parameter.duplicate(),
        Parameter::Typed { pattern, ty, ty_span } => Parameter::Typed {
            pattern: Pattern::Binding {
                qualifiers: String::new(),
                name: arg_name(number),
                span: pattern.span(),
            },
            ty: ty.clone(),
            ty_span: *ty_span,
        },
    }
}

/// Gives the parameters their forwarded names. Returns the parameters of the
/// outer function and, in the same order, the arguments of the call: the
/// receiver stays and is passed as `self`, every other parameter is bound to
/// `arg_` and its rank, and passed under that name.
pub fn forward_parameters(inputs: &Vec<Parameter>) -> (forwarded: (Vec<Parameter>, Vec<String>))
    ensures
        views(forwarded.0@) == outer_inputs(views(inputs@)),
        views(forwarded.1@) == forwarded_args(views(inputs@)),
{
    let ghost all = views(inputs@);
    let mut outer: Vec<Parameter> = Vec::new();
    let mut args: Vec<String> = Vec::new();
    let mut number: usize = 0;
    let mut i: usize = 0;
    while i < inputs.len()
        invariant
            i <= inputs.len(),
            all == views(inputs@),
            number == rank(all, i as int),
            number <= i,
            outer.len() == i,
            args.len() == i,
            forall|j: int| 0 <= j < i ==> outer[j]@ == outer_parameter(all, j),
            forall|j: int| 0 <= j < i ==> args[j]@ == forwarded_argument(all, j),
        decreases inputs.len() - i,
    {
        let parameter = &inputs[i];
        if parameter.is_receiver() {
            outer.push(parameter.duplicate());
            args.push(receiver_name());
        } else {
            outer.push(rename(parameter, number));
            args.push(arg_name(number));
            number += 1;
        }
        i += 1;
    }
    (outer, args)
}

fn inner_signature_of(sig: &Signature) -> (inner: Signature)
    ensures
        inner@ == inner_signature(sig@),
{
    let mut inner = sig.duplicate();
    inner.name = inner_function_name();
    inner.unsafety = false;
    inner.abi = None;
    inner
}

fn helper_reference(context: &MethodContext, self_argument: String) -> (reference: TraitRef)
    ensures
        reference@ == (TraitRefView {
            path: helper_trait_name(),
            args: helper_args(context@, self_argument@),
        }),
{
    let mut args = names_of(&context.generics.params);
    let ghost names = args@;
    let with_placeholder = match &context.trait_info {
        Some(info) => info.self_param.is_some(),
        None => false,
    };
    if with_placeholder {
        args.push(self_argument);
        assert(views(args@) =~= views(names).push(self_argument@));
    }
    TraitRef { path: helper_name(), args }
}

fn helper_for(inner: Declaration, declared: Signature, context: Option<&MethodContext>) -> (made:
    Helper)
    ensures
        made@ == match optional_context(context) {
            None => HelperView::Function(inner@),
            Some(c) => HelperView::Trait(
                HelperTraitView {
                    name: helper_trait_name(),
                    generics: c.generics,
                    trait_info: c.trait_info,
                    method: declared@,
                },
                HelperImplView {
                    helper: helper_in_impl(c),
                    generics: c.generics,
                    trait_info: c.trait_info,
                    self_type: c.self_type,
                    method: inner@,
                },
            ),
        },
{
    match context {
        None => Helper::Function(inner),
        Some(c) => {
            let declaration = HelperTrait {
                name: helper_name(),
                generics: c.generics.duplicate(),
                trait_info: duplicate_optional_trait_info(&c.trait_info),
                method: declared,
            };
            let implementation = HelperImpl {
                helper: helper_reference(c, c.self_type.clone()),
                generics: c.generics.duplicate(),
                trait_info: duplicate_optional_trait_info(&c.trait_info),
                self_type: c.self_type.clone(),
                method: inner,
            };
            Helper::Trait(declaration, implementation)
        },
    }
}

/// Splits `func` where it is unsafe, and leaves it as it is where it is not.
///
/// The outer function keeps its attributes, its visibility and its
/// signature, but for the names of its parameters: each parameter that is
/// not the receiver is called `arg_` and its rank among them. Its body
/// becomes a forwarding: a helper that holds the former body as an inner
/// function, and one call of that function. The inner function is not unsafe,
/// has no calling convention of its own, is always inlined, and keeps the
/// patterns that the parameters were written with.
///
/// Without a `context` the helper is a nested function. With one it is a
/// trait and its implementation for the context's type, and the call goes
/// through that trait. A method without a context is refused, and `func`
/// stays as it was.
pub fn edit_function_in_place(func: &mut Declaration, context: Option<&MethodContext>) -> (result:
    Result<(), TransformError>)
    ensures
        match result {
            Ok(_) => {
                &&& refusal(old(func)@, optional_context(context)) is None
                &&& final(func)@ == transformed(old(func)@, optional_context(context))
            },
            Err(error) => {
                &&& refusal(old(func)@, optional_context(context)) == Some(error.span_of())
                &&& error == (TransformError::MethodRequiresScope { span: error.span_of() })
                &&& final(func)@ == old(func)@
            },
        },
{
    if context.is_none() {
        match is_method(func) {
            Some(span) => {
                return Err(TransformError::MethodRequiresScope { span });
            },
            None => {},
        }
    }
    if !func.sig.unsafety {
        return Ok(());
    }
    let attrs = inner_attributes(&func.attrs);
    let generic_args = forwarded_generic_names(&func.sig.generics.params);
    let (inputs, args) = forward_parameters(&func.sig.inputs);
    let inner_sig = inner_signature_of(&func.sig);
    let awaited = func.sig.asyncness;
    func.sig.inputs = inputs;
    let declared = inner_signature_of(&func.sig);
    let mut body = Body::Source(Vec::new());
    core::mem::swap(&mut func.body, &mut body);
    let inner = Declaration { attrs, visibility: String::new(), sig: inner_sig, body };
    let qualifier = match context {
        Some(c) => Some(helper_reference(c, enclosing_type_name())),
        None => None,
    };
    let call = ForwardCall {
        qualifier,
        function: inner_function_name(),
        generic_args,
        args,
        awaited,
    };
    let made = helper_for(inner, declared, context);
    func.body = Body::Forwarding(Box::new(Forwarding { helper: made, call }));
    Ok(())
}

} // verus!
