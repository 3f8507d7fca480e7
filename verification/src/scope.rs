//! The rewrite of every method of a trait definition or an implementation
//! block. The context is made once for the block and serves all its members.

use vstd::prelude::*;
use crate::context::{impl_context, trait_context, MethodContext, MethodContextView};
use crate::item::{
    ImplBlock, ImplBlockView, ImplItem, ImplItemView, TraitDefinition, TraitDefinitionView,
    TraitItem, TraitItemView,
};
use crate::rewrite::{edit_function_in_place, transformed};
use crate::syntax::views;

verus! {

/// A member of an implementation block after the rewrite: a method is
/// rewritten in the block's context, any other member stays.
pub open spec fn transformed_impl_item(item: ImplItemView, context: MethodContextView)
    -> ImplItemView {
    match item {
        ImplItemView::Method(method) => ImplItemView::Method(transformed(method, Some(context))),
        ImplItemView::Other(_) => item,
    }
}

/// An implementation block after the rewrite: its members, in their order,
/// each rewritten in the context of the block as it was.
pub open spec fn transformed_impl(block: ImplBlockView) -> ImplBlockView {
    ImplBlockView {
        items: Seq::new(
            block.items.len(),
            |i: int| transformed_impl_item(block.items[i], impl_context(block)),
        ),
        ..block
    }
}

/// A member of a trait definition after the rewrite: a method with a default
/// body is rewritten in the definition's context; a method without a body has
/// nothing to rewrite and stays, as any other member does.
pub open spec fn transformed_trait_item(item: TraitItemView, context: MethodContextView)
    -> TraitItemView {
    match item {
        TraitItemView::Provided(method) => TraitItemView::Provided(
            transformed(method, Some(context)),
        ),
        _ => item,
    }
}

/// A trait definition after the rewrite: its members, in their order, each
/// rewritten in the context of the definition as it was.
pub open spec fn transformed_trait(definition: TraitDefinitionView) -> TraitDefinitionView {
    TraitDefinitionView {
        items: Seq::new(
            definition.items.len(),
            |i: int| transformed_trait_item(definition.items[i], trait_context(definition)),
        ),
        ..definition
    }
}

fn rewrite_impl_item(item: &mut ImplItem, context: &MethodContext)
    ensures
        final(item)@ == transformed_impl_item(old(item)@, context@),
{
    match item {
        ImplItem::Method(method) => {
            let _ = edit_function_in_place(method, Some(context));
        },
        ImplItem::Other(_) => {},
    }
}

fn rewrite_trait_item(item: &mut TraitItem, context: &MethodContext)
    ensures
        final(item)@ == transformed_trait_item(old(item)@, context@),
{
    match item {
        TraitItem::Provided(method) => {
            let _ = edit_function_in_place(method, Some(context));
        },
        _ => {},
    }
}

/// Rewrites the methods of an implementation block, in their order. With the
/// block for context no method is refused.
pub fn rewrite_impl(block: &mut ImplBlock)
    ensures
        final(block)@ == transformed_impl(old(block)@),
{
    let context = MethodContext::for_impl(block);
    let ghost before = block@;
    let mut i: usize = 0;
    while i < block.items.len()
        invariant
            i <= block.items.len(),
            context@ == impl_context(before),
            block@.items.len() == before.items.len(),
            block@ == (ImplBlockView { items: block@.items, ..before }),
            forall|j: int|
                0 <= j < i ==> (#[trigger] block.items@[j])@ == transformed_impl_item(
                    before.items[j],
                    context@,
                ),
            forall|j: int|
                i <= j < block.items.len() ==> (#[trigger] block.items@[j])@ == before.items[j],
        decreases block.items.len() - i,
    {
        rewrite_impl_item(&mut block.items[i], &context);
        i += 1;
    }
    assert(block@.items =~= transformed_impl(before).items);
}

/// Rewrites the default methods of a trait definition, in their order. With
/// the definition for context no method is refused.
pub fn rewrite_trait(definition: &mut TraitDefinition)
    ensures
        final(definition)@ == transformed_trait(old(definition)@),
{
    let context = MethodContext::for_trait(definition);
    let ghost before = definition@;
    let mut i: usize = 0;
    while i < definition.items.len()
        invariant
            i <= definition.items.len(),
            context@ == trait_context(before),
            definition@.items.len() == before.items.len(),
            definition@ == (TraitDefinitionView { items: definition@.items, ..before }),
            forall|j: int|
                0 <= j < i ==> (#[trigger] definition.items@[j])@ == transformed_trait_item(
                    before.items[j],
                    context@,
                ),
            forall|j: int|
                i <= j < definition.items.len() ==> (#[trigger] definition.items@[j])@
                    == before.items[j],
        decreases definition.items.len() - i,
    {
        rewrite_trait_item(&mut definition.items[i], &context);
        i += 1;
    }
    assert(definition@.items =~= transformed_trait(before).items);
}

} // verus!
