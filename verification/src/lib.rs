//! Makes the body of an `unsafe fn` spell out what it does that is unsafe.
//!
//! In Rust the body of an `unsafe fn` is one large `unsafe` block: nothing in
//! it shows which operations are the dangerous ones. The transformations of
//! this crate keep the function unsafe to call, and move its body into an
//! inner function that is not unsafe. Inside, every unsafe operation then
//! needs an `unsafe` block of its own.
//!
//! The crate works on declarations as values, not on text: a front end parses
//! the annotated item, hands it to [`require_unsafe_in_body`] or
//! [`require_unsafe_in_bodies`], and renders what comes back.

use vstd::prelude::*;

pub mod context;
pub mod declaration;
pub mod either;
pub mod error;
pub mod item;
pub mod laws;
pub mod names;
pub mod receiver;
pub mod rewrite;
pub mod scope;
pub mod syntax;

use crate::error::{ParseError, Shape, TransformError};
use crate::item::{Item, ItemView};
use crate::rewrite::{edit_function_in_place, refusal, transformed};
use crate::scope::{rewrite_impl, rewrite_trait, transformed_impl, transformed_trait};
use crate::syntax::{call_site, Span, Token};

verus! {

/// What a transformation returns, with the item seen through its view.
pub open spec fn outcome_view(result: Result<Item, TransformError>) -> Result<
    ItemView,
    TransformError,
> {
    match result {
        Ok(item) => Ok(item@),
        Err(error) => Err(error),
    }
}

/// What the transformation of one function returns.
///
/// It takes no arguments: where there are any, the first one is reported.
/// Input that is no item is refused with the parser's failure. A function
/// that is not unsafe comes back as it is: the rewrite is for unsafe
/// functions only. An unsafe function is split; an unsafe method, which
/// cannot be split without its block, is refused. A trait definition or an
/// implementation block is referred to the other transformation, and any
/// other item is refused.
pub open spec fn single_outcome(attrs: Seq<Token>, input: Result<Item, ParseError>) -> Result<
    ItemView,
    TransformError,
> {
    if attrs.len() > 0 {
        Err(TransformError::UnexpectedArguments { span: attrs[0].span })
    } else {
        match input {
            Err(error) => Err(TransformError::Syntax(error)),
            Ok(Item::Function(function)) => if !function@.sig.unsafety {
                Ok(ItemView::Function(function@))
            } else {
                match refusal(function@, None) {
                    Some(span) => Err(TransformError::MethodRequiresScope { span }),
                    None => Ok(ItemView::Function(transformed(function@, None))),
                }
            },
            Ok(Item::Trait(_)) => Err(
                TransformError::WrongShape {
                    span: call_site(),
                    expected: Shape::Function,
                    found: Shape::Scope,
                },
            ),
            Ok(Item::Impl(_)) => Err(
                TransformError::WrongShape {
                    span: call_site(),
                    expected: Shape::Function,
                    found: Shape::Scope,
                },
            ),
            Ok(Item::Other(span)) => Err(
                TransformError::WrongShape {
                    span,
                    expected: Shape::Function,
                    found: Shape::Other,
                },
            ),
        }
    }
}

/// What the transformation of a block returns.
///
/// It takes no arguments: where there are any, the first one is reported.
/// Input that is no item is refused with the parser's failure. In an
/// implementation block every method is rewritten, in a trait definition
/// every method with a default body, each in the context of the block as it
/// was and in the order in which they stand. Anything else is refused.
pub open spec fn scope_outcome(attrs: Seq<Token>, input: Result<Item, ParseError>) -> Result<
    ItemView,
    TransformError,
> {
    if attrs.len() > 0 {
        Err(TransformError::UnexpectedArguments { span: attrs[0].span })
    } else {
        match input {
            Err(error) => Err(TransformError::Syntax(error)),
            Ok(Item::Impl(block)) => Ok(ItemView::Impl(transformed_impl(block@))),
            Ok(Item::Trait(definition)) => Ok(ItemView::Trait(transformed_trait(definition@))),
            Ok(Item::Function(_)) => Err(
                TransformError::WrongShape {
                    span: call_site(),
                    expected: Shape::Scope,
                    found: Shape::Function,
                },
            ),
            Ok(Item::Other(span)) => Err(
                TransformError::WrongShape { span, expected: Shape::Scope, found: Shape::Other },
            ),
        }
    }
}

/// Transforms one free function: `attrs` is what was written as arguments of
/// the transformation, `input` what the parser made of the annotated item.
pub fn require_unsafe_in_body(attrs: &Vec<Token>, input: Result<Item, ParseError>) -> (output:
    Result<Item, TransformError>)
    ensures
        outcome_view(output) == single_outcome(attrs@, input),
{
    if attrs.len() > 0 {
        return Err(TransformError::UnexpectedArguments { span: attrs[0].span });
    }
    match input {
        Err(error) => Err(TransformError::Syntax(error)),
        Ok(Item::Function(function)) => {
            if !function.sig.unsafety {
                return Ok(Item::Function(function));
            }
            let mut function = function;
            match edit_function_in_place(&mut function, None) {
                Ok(_) => Ok(Item::Function(function)),
                Err(error) => Err(error),
            }
        },
        Ok(Item::Trait(_)) => Err(
            TransformError::WrongShape {
                span: Span::call_site(),
                expected: Shape::Function,
                found: Shape::Scope,
            },
        ),
        Ok(Item::Impl(_)) => Err(
            TransformError::WrongShape {
                span: Span::call_site(),
                expected: Shape::Function,
                found: Shape::Scope,
            },
        ),
        Ok(Item::Other(span)) => Err(
            TransformError::WrongShape { span, expected: Shape::Function, found: Shape::Other },
        ),
    }
}

/// Transforms a trait definition or an implementation block: `attrs` is what
/// was written as arguments of the transformation, `input` what the parser
/// made of the annotated item.
pub fn require_unsafe_in_bodies(attrs: &Vec<Token>, input: Result<Item, ParseError>) -> (output:
    Result<Item, TransformError>)
    ensures
        outcome_view(output) == scope_outcome(attrs@, input),
{
    if attrs.len() > 0 {
        return Err(TransformError::UnexpectedArguments { span: attrs[0].span });
    }
    match input {
        Err(error) => Err(TransformError::Syntax(error)),
        Ok(Item::Impl(block)) => {
            let mut block = block;
            rewrite_impl(&mut block);
            Ok(Item::Impl(block))
        },
        Ok(Item::Trait(definition)) => {
            let mut definition = definition;
            rewrite_trait(&mut definition);
            Ok(Item::Trait(definition))
        },
        Ok(Item::Function(_)) => Err(
            TransformError::WrongShape {
                span: Span::call_site(),
                expected: Shape::Scope,
                found: Shape::Function,
            },
        ),
        Ok(Item::Other(span)) => Err(
            TransformError::WrongShape { span, expected: Shape::Scope, found: Shape::Other },
        ),
    }
}

} // verus!
