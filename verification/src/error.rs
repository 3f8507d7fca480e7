//! The failures that a transformation reports. Each one names the place in the
//! source that it is about, and has a message for the user.

use vstd::prelude::*;
use vstd::string::*;
use crate::syntax::Span;

verus! {

/// What the parser reports when the input is no item at all.
#[derive(Clone, Debug, PartialEq, Eq)]
pub struct ParseError {
    pub span: Span,
    pub message: String,
}

/// The shapes of input that the transformations tell apart.
#[derive(Clone, Copy, Debug, PartialEq, Eq, Structural)]
pub enum Shape {
    /// A free function.
    Function,
    /// A trait definition or an implementation block.
    Scope,
    /// Any other item.
    Other,
}

/// The families of failure.
#[derive(Clone, Copy, Debug, PartialEq, Eq, Structural)]
pub enum ErrorKind {
    /// The transformation was given arguments, and takes none.
    Usage,
    /// A method was annotated by itself, outside its block.
    Context,
    /// The annotated item has a shape that the transformation does not handle.
    Shape,
    /// The input is no item.
    Syntax,
}

/// Why a transformation refused its input.
#[derive(Clone, Debug, PartialEq, Eq)]
pub enum TransformError {
    /// The transformation was given arguments; `span` is where they start.
    UnexpectedArguments { span: Span },
    /// An unsafe method was annotated without its enclosing block; `span` is
    /// what shows it to be a method.
    MethodRequiresScope { span: Span },
    /// The item is of shape `found`, and the transformation is for `expected`.
    WrongShape { span: Span, expected: Shape, found: Shape },
    /// The parser's own failure.
    Syntax(ParseError),
}

impl TransformError {
    /// The family of this failure.
    pub open spec fn kind_of(self) -> ErrorKind {
        match self {
            TransformError::UnexpectedArguments { .. } => ErrorKind::Usage,
            TransformError::MethodRequiresScope { .. } => ErrorKind::Context,
            TransformError::WrongShape { .. } => ErrorKind::Shape,
            TransformError::Syntax(_) => ErrorKind::Syntax,
        }
    }

    /// The place in the source that this failure is about.
    pub open spec fn span_of(self) -> Span {
        match self {
            TransformError::UnexpectedArguments { span } => span,
            TransformError::MethodRequiresScope { span } => span,
            TransformError::WrongShape { span, .. } => span,
            TransformError::Syntax(e) => e.span,
        }
    }

    /// The text shown to the user.
    pub open spec fn message_of(self) -> Seq<char> {
        match self {
            TransformError::UnexpectedArguments { .. } => "unexpected parameters"@,
            TransformError::MethodRequiresScope { .. } => "missing `#[require_unsafe_in_bodies]` on the enclosing `trait` or `impl` block"@,
            TransformError::WrongShape { expected, found, .. } => match expected {
                Shape::Function => match found {
                    Shape::Scope => "`#[require_unsafe_in_body]` must be applied to a function; use `#[require_unsafe_in_bodies]` on a `trait` definition or an `impl` block instead"@,
                    _ => "`#[require_unsafe_in_body]` must be applied to a function"@,
                },
                _ => "`#[require_unsafe_in_bodies]` must be applied to an `impl` block or a `trait` definition"@,
            },
            TransformError::Syntax(e) => e.message@,
        }
    }

    /// The family of this failure.
    pub fn kind(&self) -> (kind: ErrorKind)
        ensures
            kind == self.kind_of(),
    {
        match self {
            TransformError::UnexpectedArguments { .. } => ErrorKind::Usage,
            TransformError::MethodRequiresScope { .. } => ErrorKind::Context,
            TransformError::WrongShape { .. } => ErrorKind::Shape,
            TransformError::Syntax(_) => ErrorKind::Syntax,
        }
    }

    /// The place in the source that this failure is about.
    pub fn span(&self) -> (span: Span)
        ensures
            span == self.span_of(),
    {
        match self {
            TransformError::UnexpectedArguments { span } => *span,
            TransformError::MethodRequiresScope { span } => *span,
            TransformError::WrongShape { span, .. } => *span,
            TransformError::Syntax(e) => e.span,
        }
    }

    /// The text shown to the user.
    pub fn message(&self) -> (message: String)
        ensures
            message@ == self.message_of(),
    {
        match self {
            TransformError::UnexpectedArguments { .. } => "unexpected parameters".to_owned(),
            TransformError::MethodRequiresScope { .. } => "missing `#[require_unsafe_in_bodies]` on the enclosing `trait` or `impl` block".to_owned(),
            TransformError::WrongShape { expected, found, .. } => match expected {
                Shape::Function => match found {
                    Shape::Scope => "`#[require_unsafe_in_body]` must be applied to a function; use `#[require_unsafe_in_bodies]` on a `trait` definition or an `impl` block instead".to_owned(),
                    _ => "`#[require_unsafe_in_body]` must be applied to a function".to_owned(),
                },
                _ => "`#[require_unsafe_in_bodies]` must be applied to an `impl` block or a `trait` definition".to_owned(),
            },
            TransformError::Syntax(e) => e.message.clone(),
        }
    }
}

} // verus!
