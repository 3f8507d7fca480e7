//! The choice between two readings of the same input.
//!
//! A transformation that accepts two kinds of item cannot tell from the
//! first token which one it was given. It tries the first reading from where
//! the input stands; if that fails it goes back to the same place and tries
//! the second. Only the reading that is taken moves the input on.

use vstd::prelude::*;
use vstd::string::*;
use crate::error::ParseError;

verus! {

/// One of two things.
#[derive(Clone, Debug, PartialEq, Eq)]
pub enum Either<Left, Right> {
    Left(Left),
    Right(Right),
}

/// What a reading that succeeded has read, and where the input stands after it.
#[derive(Clone, Debug, PartialEq, Eq)]
pub struct Parsed<T> {
    pub value: T,
    pub end: usize,
}

/// The message for input that neither reading accepts: both messages, the
/// left one first.
pub open spec fn neither_message(left: Seq<char>, right: Seq<char>) -> Seq<char> {
    left + "; "@ + right
}

impl<Left, Right> Either<Left, Right> {
    /// Where the input stands after the choice: behind the reading that was
    /// taken, or where it stood if both failed.
    pub open spec fn position_after(
        position: usize,
        left: Result<Parsed<Left>, ParseError>,
        right: Result<Parsed<Right>, ParseError>,
    ) -> usize {
        match left {
            Ok(parsed) => parsed.end,
            Err(_) => match right {
                Ok(parsed) => parsed.end,
                Err(_) => position,
            },
        }
    }

    /// Commits to one of two readings of the input at `position`, both made
    /// from that same place: `left` is preferred, `right` is taken only where
    /// `left` failed. The input moves behind the reading that is taken. Where
    /// both failed the input stays; the failure that is returned is at the
    /// place of the right one and names both.
    pub fn parse(
        position: &mut usize,
        left: Result<Parsed<Left>, ParseError>,
        right: Result<Parsed<Right>, ParseError>,
    ) -> (result: Result<Either<Left, Right>, ParseError>)
        ensures
            *final(position) == Self::position_after(*old(position), left, right),
            match left {
                Ok(taken) => result == Ok::<Either<Left, Right>, ParseError>(
                    Either::Left(taken.value),
                ),
                Err(first) => match right {
                    Ok(taken) => result == Ok::<Either<Left, Right>, ParseError>(
                        Either::Right(taken.value),
                    ),
                    Err(second) => {
                        &&& result matches Err(both)
                        &&& both.span == second.span
                        &&& both.message@ == neither_message(first.message@, second.message@)
                    },
                },
            },
    {
        match left {
            Ok(taken) => {
                *position = taken.end;
                Ok(Either::Left(taken.value))
            },
            Err(first) => match right {
                Ok(taken) => {
                    *position = taken.end;
                    Ok(Either::Right(taken.value))
                },
                Err(second) => {
                    let mut message = first.message;
                    message.append("; ");
                    message.append(second.message.as_str());
                    Err(ParseError { span: second.span, message })
                },
            },
        }
    }
}

} // verus!
