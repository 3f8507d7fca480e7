//! Telling a method from a free function by its parameters.

use vstd::prelude::*;
use crate::declaration::Declaration;
use crate::names::{self_name, self_type_name, text_is};
use crate::syntax::{Parameter, ParameterView, Pattern, PatternView, SignatureView, Span};

verus! {

/// Whether a parameter is the receiver: written in the short form, or as a
/// pattern that is the name `self` with a type. The two mean the same.
pub open spec fn is_receiver(parameter: ParameterView) -> bool {
    match parameter {
        ParameterView::Receiver { .. } => true,
        ParameterView::Typed { pattern, .. } => match pattern {
            PatternView::Binding { name, .. } => name == self_name(),
            PatternView::Other { .. } => false,
        },
    }
}

/// What shows a signature to be that of a method, if anything does: the
/// receiver in first place, a first parameter whose type is literally `Self`,
/// or a first parameter bound to the name `self`.
pub open spec fn method_marker(sig: SignatureView) -> Option<Span> {
    if sig.inputs.len() == 0 {
        None
    } else {
        match sig.inputs[0] {
            ParameterView::Receiver { span, .. } => Some(span),
            ParameterView::Typed { pattern, ty, ty_span } => {
                if ty == self_type_name() {
                    Some(ty_span)
                } else {
                    match pattern {
                        PatternView::Binding { name, span, .. } => if name == self_name() {
                            Some(span)
                        } else {
                            None
                        },
                        PatternView::Other { .. } => None,
                    }
                }
            },
        }
    }
}

impl Parameter {
    /// Whether this parameter is the receiver.
    pub fn is_receiver(&self) -> (receiver: bool)
        ensures
            receiver == is_receiver(self@),
    {
        match self {
            Parameter::Receiver { .. } => true,
            Parameter::Typed { pattern, .. } => match pattern {
                Pattern::Binding { name, .. } => text_is(name, "self"),
                Pattern::Other { .. } => false,
            },
        }
    }
}

/// Tells whether `fn_item` is a method, and if so returns the place of what
/// shows it: the receiver, the type `Self`, or the name `self`, each looked
/// for in the first parameter only.
pub fn is_method(fn_item: &Declaration) -> (marker: Option<Span>)
    ensures
        marker == method_marker(fn_item@.sig),
{
    if fn_item.sig.inputs.len() == 0 {
        return None;
    }
    match &fn_item.sig.inputs[0] {
        Parameter::Receiver { span, .. } => Some(*span),
        Parameter::Typed { pattern, ty, ty_span } => {
            if text_is(ty, "Self") {
                return Some(*ty_span);
            }
            match pattern {
                Pattern::Binding { name, span, .. } => {
                    if text_is(name, "self") {
                        Some(*span)
                    } else {
                        None
                    }
                },
                Pattern::Other { .. } => None,
            }
        },
    }
}

} // verus!
