//! What holds of every rewrite, proved from the definitions that the
//! contracts of the transformations are stated with.

use vstd::prelude::*;
use crate::context::{generic_names, impl_context, trait_context, MethodContextView};
use crate::declaration::{BodyView, DeclarationView, HelperView};
use crate::error::{ParseError, TransformError};
use crate::item::{ImplBlockView, ImplItemView, Item, ItemView, TraitDefinitionView, TraitItemView};
use crate::names::{
    inner_name, lemma_synthesized_name_injective, lemma_synthesized_name_is_not_self, self_name,
    synthesized_name,
};
use crate::receiver::is_receiver;
use crate::rewrite::{
    forwarded_args, forwarded_generics, is_forwarded_generic, rank, refusal, transformed,
};
use crate::scope::{transformed_impl, transformed_trait};
use crate::syntax::{GenericKind, GenericParamView, ParameterView, PatternView, Token};
use crate::{scope_outcome, single_outcome};

verus! {

/// The type that a parameter is declared with, where it has one.
pub open spec fn declared_type(parameter: ParameterView) -> Option<Seq<char>> {
    match parameter {
        ParameterView::Receiver { .. } => None,
        ParameterView::Typed { ty, .. } => Some(ty),
    }
}

/// The inner function of a declaration that was split.
pub open spec fn inner_of(declaration: DeclarationView) -> DeclarationView
    recommends
        declaration.body is Forwarding,
{
    match declaration.body->Forwarding_0.helper {
        HelperView::Function(inner) => inner,
        HelperView::Trait(_, implemented) => implemented.method,
    }
}

/// The arguments that a call passes under a synthesized name: all but the
/// receiver.
pub open spec fn is_synthesized() -> spec_fn(Seq<char>) -> bool {
    |argument: Seq<char>| argument != self_name()
}

/// The rewrite leaves a declaration that is not unsafe as it is, whatever the
/// context. With a context it refuses none.
pub proof fn lemma_not_unsafe_is_unchanged(
    declaration: DeclarationView,
    context: Option<MethodContextView>,
)
    requires
        !declaration.sig.unsafety,
    ensures
        transformed(declaration, context) == declaration,
        context is Some ==> refusal(declaration, context) is None,
{
}

/// The transformation of one function hands a function that is not unsafe
/// back as it is.
pub proof fn lemma_function_not_unsafe_is_unchanged(
    attrs: Seq<Token>,
    input: Result<Item, ParseError>,
)
    requires
        attrs.len() == 0,
        input matches Ok(Item::Function(function)) && !function@.sig.unsafety,
    ensures
        single_outcome(attrs, input) == Ok::<ItemView, TransformError>(input->Ok_0@),
{
}

/// The transformation of a block hands an implementation block without an
/// unsafe method back as it is.
pub proof fn lemma_block_without_unsafe_is_unchanged(
    attrs: Seq<Token>,
    input: Result<Item, ParseError>,
)
    requires
        attrs.len() == 0,
        input matches Ok(Item::Impl(block)) && forall|i: int|
            0 <= i < block@.items.len() ==> (#[trigger] block@.items[i] matches ImplItemView::Method(
                method,
            ) ==> !method.sig.unsafety),
    ensures
        scope_outcome(attrs, input) == Ok::<ItemView, TransformError>(input->Ok_0@),
{
    lemma_impl_without_unsafe_is_unchanged(input->Ok_0->Impl_0@);
}

/// The transformation of a block hands a trait definition without an unsafe
/// default method back as it is.
pub proof fn lemma_definition_without_unsafe_is_unchanged(
    attrs: Seq<Token>,
    input: Result<Item, ParseError>,
)
    requires
        attrs.len() == 0,
        input matches Ok(Item::Trait(definition)) && forall|i: int|
            0 <= i < definition@.items.len() ==> (
            #[trigger] definition@.items[i] matches TraitItemView::Provided(method)
                ==> !method.sig.unsafety),
    ensures
        scope_outcome(attrs, input) == Ok::<ItemView, TransformError>(input->Ok_0@),
{
    lemma_trait_without_unsafe_is_unchanged(input->Ok_0->Trait_0@);
}

/// An implementation block without an unsafe method is left as it is.
pub proof fn lemma_impl_without_unsafe_is_unchanged(block: ImplBlockView)
    requires
        forall|i: int|
            0 <= i < block.items.len() ==> (#[trigger] block.items[i] matches ImplItemView::Method(
                method,
            ) ==> !method.sig.unsafety),
    ensures
        transformed_impl(block) == block,
{
    assert(transformed_impl(block).items =~= block.items);
}

/// A trait definition without an unsafe default method is left as it is.
pub proof fn lemma_trait_without_unsafe_is_unchanged(definition: TraitDefinitionView)
    requires
        forall|i: int|
            0 <= i < definition.items.len() ==> (
            #[trigger] definition.items[i] matches TraitItemView::Provided(method)
                ==> !method.sig.unsafety),
    ensures
        transformed_trait(definition) == definition,
{
    assert(transformed_trait(definition).items =~= definition.items);
}

/// An implementation block keeps all but the bodies of its unsafe methods:
/// what stands before its members, and as many members as before, each in its
/// place, a method where a method was.
pub proof fn lemma_impl_members_keep_their_places(block: ImplBlockView)
    ensures
        transformed_impl(block) == (ImplBlockView {
            items: transformed_impl(block).items,
            ..block
        }),
        transformed_impl(block).items.len() == block.items.len(),
        forall|i: int|
            0 <= i < block.items.len() ==> match block.items[i] {
                ImplItemView::Method(method) => #[trigger] transformed_impl(block).items[i]
                    == ImplItemView::Method(transformed(method, Some(impl_context(block)))),
                ImplItemView::Other(_) => transformed_impl(block).items[i] == block.items[i],
            },
{
}

/// A trait definition keeps all but the bodies of its unsafe default
/// methods: what stands before its members, and as many members as before,
/// each in its place; a method without a body stays as it is.
pub proof fn lemma_trait_members_keep_their_places(definition: TraitDefinitionView)
    ensures
        transformed_trait(definition) == (TraitDefinitionView {
            items: transformed_trait(definition).items,
            ..definition
        }),
        transformed_trait(definition).items.len() == definition.items.len(),
        forall|i: int|
            0 <= i < definition.items.len() ==> match definition.items[i] {
                TraitItemView::Provided(method) => #[trigger] transformed_trait(
                    definition,
                ).items[i] == TraitItemView::Provided(
                    transformed(method, Some(trait_context(definition))),
                ),
                _ => transformed_trait(definition).items[i] == definition.items[i],
            },
{
}

/// The outer function keeps what its callers see: whether it is unsafe, its
/// calling convention, its other markers, its name, its generic parameters
/// and its return type; and as many parameters as before, each in its place
/// with its type, the receiver where the receiver was.
pub proof fn lemma_outer_signature_is_preserved(
    declaration: DeclarationView,
    context: Option<MethodContextView>,
)
    ensures
        transformed(declaration, context).sig.unsafety == declaration.sig.unsafety,
        transformed(declaration, context).sig.abi == declaration.sig.abi,
        transformed(declaration, context).sig.asyncness == declaration.sig.asyncness,
        transformed(declaration, context).sig.constness == declaration.sig.constness,
        transformed(declaration, context).sig.name == declaration.sig.name,
        transformed(declaration, context).sig.generics == declaration.sig.generics,
        transformed(declaration, context).sig.output == declaration.sig.output,
        transformed(declaration, context).attrs == declaration.attrs,
        transformed(declaration, context).visibility == declaration.visibility,
        transformed(declaration, context).sig.inputs.len() == declaration.sig.inputs.len(),
        forall|i: int|
            0 <= i < declaration.sig.inputs.len() ==> {
                let after = #[trigger] transformed(declaration, context).sig.inputs[i];
                let before = declaration.sig.inputs[i];
                &&& is_receiver(after) == is_receiver(before)
                &&& is_receiver(before) ==> after == before
                &&& declared_type(after) == declared_type(before)
            },
{
    assert forall|i: int| 0 <= i < declaration.sig.inputs.len() implies {
        let after = #[trigger] transformed(declaration, context).sig.inputs[i];
        let before = declaration.sig.inputs[i];
        &&& is_receiver(after) == is_receiver(before)
        &&& is_receiver(before) ==> after == before
        &&& declared_type(after) == declared_type(before)
    } by {
        lemma_synthesized_name_is_not_self(rank(declaration.sig.inputs, i));
    }
}

/// The inner function holds what the declaration was: its body and its
/// parameters with the patterns they were written with, under the inner name.
/// It is neither unsafe nor of a calling convention of its own.
pub proof fn lemma_inner_keeps_what_was_written(
    declaration: DeclarationView,
    context: Option<MethodContextView>,
)
    requires
        declaration.sig.unsafety,
    ensures
        ({
            let inner = inner_of(transformed(declaration, context));
            &&& inner.body == declaration.body
            &&& inner.sig.inputs == declaration.sig.inputs
            &&& inner.sig.generics == declaration.sig.generics
            &&& inner.sig.output == declaration.sig.output
            &&& inner.sig.asyncness == declaration.sig.asyncness
            &&& inner.sig.name == inner_name()
            &&& !inner.sig.unsafety
            &&& inner.sig.abi is None
        }),
{
}

/// The parameters that are forwarded under a number: all but the receiver.
pub open spec fn is_numbered() -> spec_fn(ParameterView) -> bool {
    |parameter: ParameterView| !is_receiver(parameter)
}

/// The rank of a position is the number of parameters before it that are not
/// the receiver; the rank of the end is the number of all such parameters.
pub proof fn lemma_rank_counts(inputs: Seq<ParameterView>, position: int)
    requires
        0 <= position <= inputs.len(),
    ensures
        rank(inputs, position) == inputs.take(position).filter(is_numbered()).len(),
        rank(inputs, inputs.len() as int) == inputs.filter(is_numbered()).len(),
{
    lemma_rank_counts_before(inputs, position);
    lemma_rank_counts_before(inputs, inputs.len() as int);
    assert(inputs.take(inputs.len() as int) =~= inputs);
}

proof fn lemma_rank_counts_before(inputs: Seq<ParameterView>, position: int)
    requires
        0 <= position <= inputs.len(),
    ensures
        rank(inputs, position) == inputs.take(position).filter(is_numbered()).len(),
    decreases position,
{
    reveal(Seq::filter);
    if position > 0 {
        lemma_rank_counts_before(inputs, position - 1);
        assert(inputs.take(position).drop_last() =~= inputs.take(position - 1));
    }
}

/// The rank of a position depends on the parameters before it alone.
pub proof fn lemma_rank_of_prefix(
    inputs: Seq<ParameterView>,
    others: Seq<ParameterView>,
    position: int,
)
    requires
        0 <= position <= inputs.len(),
        position <= others.len(),
        forall|i: int| 0 <= i < position ==> inputs[i] == others[i],
    ensures
        rank(inputs, position) == rank(others, position),
    decreases position,
{
    if position > 0 {
        lemma_rank_of_prefix(inputs, others, position - 1);
    }
}

/// Ranks grow along the parameters, by one over each parameter that is not
/// the receiver, and never beyond the number of positions passed.
pub proof fn lemma_rank_grows(inputs: Seq<ParameterView>, earlier: int, later: int)
    requires
        0 <= earlier <= later <= inputs.len(),
    ensures
        rank(inputs, earlier) <= rank(inputs, later),
        rank(inputs, later) <= later,
        earlier < later && !is_receiver(inputs[earlier]) ==> rank(inputs, earlier) < rank(
            inputs,
            later,
        ),
    decreases later - earlier,
{
    if later > 0 {
        lemma_rank_bound(inputs, later);
    }
    if earlier < later {
        lemma_rank_grows(inputs, earlier, later - 1);
    }
}

proof fn lemma_rank_bound(inputs: Seq<ParameterView>, position: int)
    requires
        0 <= position,
    ensures
        rank(inputs, position) <= position,
    decreases position,
{
    if position > 0 {
        lemma_rank_bound(inputs, position - 1);
    }
}

/// The names under which parameters are forwarded are `arg_0`, `arg_1` and so
/// on, without a gap, in the order of the parameters: one for each parameter
/// that is not the receiver. The receiver is forwarded as `self` and takes no
/// number.
pub proof fn lemma_forwarded_names_are_numbered(inputs: Seq<ParameterView>)
    ensures
        forwarded_args(inputs).filter(is_synthesized()) == Seq::new(
            rank(inputs, inputs.len() as int),
            |number: int| synthesized_name(number as nat),
        ),
        forall|i: int|
            0 <= i < inputs.len() && is_receiver(inputs[i]) ==> #[trigger] forwarded_args(
                inputs,
            )[i] == self_name(),
    decreases inputs.len(),
{
    reveal(Seq::filter);
    let args = forwarded_args(inputs);
    if inputs.len() > 0 {
        let last = inputs.len() - 1;
        let front = inputs.drop_last();
        lemma_forwarded_names_are_numbered(front);
        assert forall|i: int| 0 <= i < last implies args.drop_last()[i] == forwarded_args(
            front,
        )[i] by {
            lemma_rank_of_prefix(inputs, front, i);
        }
        assert(args.drop_last() =~= forwarded_args(front));
        lemma_rank_of_prefix(inputs, front, last);
        lemma_synthesized_name_is_not_self(rank(inputs, last));
    }
}

/// The call of a declaration that was split passes the names `arg_0`, `arg_1`
/// and so on, one for each parameter that is not the receiver, in their
/// order and without a gap; the receiver is passed as `self`.
pub proof fn lemma_call_names_are_numbered(
    declaration: DeclarationView,
    context: Option<MethodContextView>,
)
    requires
        declaration.sig.unsafety,
    ensures
        transformed(declaration, context).body matches BodyView::Forwarding(forwarding) && {
            &&& forwarding.call.args.filter(is_synthesized()) == Seq::new(
                rank(declaration.sig.inputs, declaration.sig.inputs.len() as int),
                |number: int| synthesized_name(number as nat),
            )
            &&& forall|i: int|
                0 <= i < declaration.sig.inputs.len() && is_receiver(declaration.sig.inputs[i])
                    ==> #[trigger] forwarding.call.args[i] == self_name()
        },
{
    lemma_forwarded_names_are_numbered(declaration.sig.inputs);
}

/// Two parameters that are not the receiver are forwarded under different
/// names, the earlier one under the smaller number.
pub proof fn lemma_forwarded_names_are_distinct(
    inputs: Seq<ParameterView>,
    earlier: int,
    later: int,
)
    requires
        0 <= earlier < later < inputs.len(),
        !is_receiver(inputs[earlier]),
        !is_receiver(inputs[later]),
    ensures
        forwarded_args(inputs)[earlier] == synthesized_name(rank(inputs, earlier)),
        forwarded_args(inputs)[later] == synthesized_name(rank(inputs, later)),
        rank(inputs, earlier) < rank(inputs, later),
        forwarded_args(inputs)[earlier] != forwarded_args(inputs)[later],
{
    lemma_rank_grows(inputs, earlier, later);
    if forwarded_args(inputs)[earlier] == forwarded_args(inputs)[later] {
        lemma_synthesized_name_injective(rank(inputs, earlier), rank(inputs, later));
    }
}

/// The name that a parameter binds: `self` for the receiver, the name of a
/// plain binding, and the pattern as written for any other.
pub open spec fn bound_name(parameter: ParameterView) -> Seq<char> {
    match parameter {
        ParameterView::Receiver { .. } => self_name(),
        ParameterView::Typed { pattern, .. } => match pattern {
            PatternView::Binding { name, .. } => name,
            PatternView::Other { tokens, .. } => tokens,
        },
    }
}

/// The call passes what the outer function binds: as many arguments as there
/// are parameters, and in each place the name that the parameter in that
/// place binds.
pub proof fn lemma_call_passes_the_parameters(
    declaration: DeclarationView,
    context: Option<MethodContextView>,
)
    requires
        declaration.sig.unsafety,
    ensures
        transformed(declaration, context).body matches BodyView::Forwarding(forwarding) && {
            let outer = transformed(declaration, context).sig.inputs;
            &&& forwarding.call.args.len() == outer.len()
            &&& forwarding.call.args.len() == inner_of(
                transformed(declaration, context),
            ).sig.inputs.len()
            &&& forall|i: int|
                0 <= i < outer.len() ==> #[trigger] forwarding.call.args[i] == bound_name(outer[i])
        },
{
}

/// The call names the declaration's own generic parameters that are no
/// lifetimes, in the order of their declaration, and no others.
pub proof fn lemma_generic_forwarding(
    declaration: DeclarationView,
    context: Option<MethodContextView>,
)
    requires
        declaration.sig.unsafety,
    ensures
        transformed(declaration, context).body matches BodyView::Forwarding(forwarding)
            && forwarding.call.generic_args == generic_names(
            declaration.sig.generics.params.filter(is_forwarded_generic()),
        ),
        forall|i: int|
            0 <= i < declaration.sig.generics.params.filter(is_forwarded_generic()).len()
                ==> (#[trigger] declaration.sig.generics.params.filter(
                is_forwarded_generic(),
            )[i]).kind != GenericKind::Lifetime,
        forall|i: int|
            0 <= i < declaration.sig.generics.params.len()
                && declaration.sig.generics.params[i].kind != GenericKind::Lifetime
                ==> declaration.sig.generics.params.filter(is_forwarded_generic()).contains(
                #[trigger] declaration.sig.generics.params[i],
            ),
{
    let params = declaration.sig.generics.params;
    let keep = is_forwarded_generic();
    assert forall|i: int| 0 <= i < params.filter(keep).len() implies (#[trigger] params.filter(
        keep,
    )[i]).kind != GenericKind::Lifetime by {
        params.lemma_filter_pred(keep, i);
    }
    assert forall|i: int|
        0 <= i < params.len() && params[i].kind != GenericKind::Lifetime implies params.filter(
        keep,
    ).contains(#[trigger] params[i]) by {
        params.lemma_filter_contains(keep, i);
    }
}

proof fn lemma_filter_keeps_all<A>(items: Seq<A>, keep: spec_fn(A) -> bool)
    requires
        forall|i: int| 0 <= i < items.len() ==> keep(#[trigger] items[i]),
    ensures
        items.filter(keep) == items,
    decreases items.len(),
{
    reveal(Seq::filter);
    if items.len() > 0 {
        lemma_filter_keeps_all(items.drop_last(), keep);
    }
}

/// Where a declaration has no lifetime among its generic parameters, the
/// call names them all.
pub proof fn lemma_generic_forwarding_without_lifetimes(params: Seq<GenericParamView>)
    requires
        forall|i: int|
            0 <= i < params.len() ==> (#[trigger] params[i]).kind != GenericKind::Lifetime,
    ensures
        forwarded_generics(params) == generic_names(params),
{
    lemma_filter_keeps_all(params, is_forwarded_generic());
}

/// The forwarding call suspends exactly where the declaration is
/// asynchronous.
pub proof fn lemma_suspend_preservation(
    declaration: DeclarationView,
    context: Option<MethodContextView>,
)
    requires
        declaration.sig.unsafety,
    ensures
        transformed(declaration, context).body matches BodyView::Forwarding(forwarding)
            && forwarding.call.awaited == declaration.sig.asyncness,
{
}

} // verus!
