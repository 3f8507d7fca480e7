//! The names that the rewrite introduces.
//!
//! Every parameter that is forwarded gets a numbered name, `arg_0`, `arg_1`,
//! and so on. The inner function, the helper trait and the placeholder for the
//! implementing type have fixed names that start with two underscores, so that
//! they stay clear of the names a user writes.

use vstd::prelude::*;
use vstd::string::*;

verus! {

/// The identifier of the receiver, `self`.
pub open spec fn self_name() -> Seq<char> {
    "self"@
}

/// The name of the enclosing type, `Self`.
pub open spec fn self_type_name() -> Seq<char> {
    "Self"@
}

/// The name of the inner function that receives the body as it was written.
pub open spec fn inner_name() -> Seq<char> {
    "__require_unsafe_inner"@
}

/// The name of the helper trait through which a method reaches its inner function.
pub open spec fn helper_trait_name() -> Seq<char> {
    "__RequireUnsafeHelper"@
}

/// The name of the type parameter that stands for the implementing type of a trait.
pub open spec fn placeholder_name() -> Seq<char> {
    "__Self"@
}

/// What stands in front of the number in a forwarded parameter's name.
pub open spec fn arg_prefix() -> Seq<char> {
    "arg_"@
}

/// The character of one decimal digit.
pub open spec fn digit(d: nat) -> char {
    if d == 0 {
        '0'
    } else if d == 1 {
        '1'
    } else if d == 2 {
        '2'
    } else if d == 3 {
        '3'
    } else if d == 4 {
        '4'
    } else if d == 5 {
        '5'
    } else if d == 6 {
        '6'
    } else if d == 7 {
        '7'
    } else if d == 8 {
        '8'
    } else {
        '9'
    }
}

/// The decimal numeral of `n`, without leading zeros.
pub open spec fn decimal(n: nat) -> Seq<char>
    decreases n,
{
    if n < 10 {
        seq![digit(n)]
    } else {
        decimal(n / 10).push(digit(n % 10))
    }
}

/// The name of the forwarded parameter of the given number: `arg_` and the number.
pub open spec fn synthesized_name(index: nat) -> Seq<char> {
    arg_prefix() + decimal(index)
}

/// A numeral has at least one digit, and at least two from ten on.
pub proof fn lemma_decimal_len(n: nat)
    ensures
        decimal(n).len() >= 1,
        n >= 10 ==> decimal(n).len() >= 2,
    decreases n,
{
    if n >= 10 {
        lemma_decimal_len(n / 10);
    }
}

/// Different numbers have different numerals.
pub proof fn lemma_decimal_injective(a: nat, b: nat)
    requires
        decimal(a) == decimal(b),
    ensures
        a == b,
    decreases a,
{
    lemma_decimal_len(a);
    lemma_decimal_len(b);
    if a < 10 || b < 10 {
        assert(decimal(a)[0] == digit(a));
        assert(decimal(b)[0] == digit(b));
    } else {
        assert(decimal(a).last() == digit(a % 10));
        assert(decimal(b).last() == digit(b % 10));
        assert(decimal(a).drop_last() =~= decimal(a / 10));
        assert(decimal(b).drop_last() =~= decimal(b / 10));
        lemma_decimal_injective(a / 10, b / 10);
    }
}

/// Different numbers give different forwarded names.
pub proof fn lemma_synthesized_name_injective(a: nat, b: nat)
    requires
        synthesized_name(a) == synthesized_name(b),
    ensures
        a == b,
{
    let prefix = arg_prefix().len() as int;
    let first = synthesized_name(a);
    let second = synthesized_name(b);
    assert(first.subrange(prefix, first.len() as int) =~= decimal(a));
    assert(second.subrange(prefix, second.len() as int) =~= decimal(b));
    lemma_decimal_injective(a, b);
}

/// No forwarded name is the receiver's identifier.
pub proof fn lemma_synthesized_name_is_not_self(index: nat)
    ensures
        synthesized_name(index) != self_name(),
{
    reveal_strlit("arg_");
    reveal_strlit("self");
    assert(synthesized_name(index)[0] == 'a');
    assert(self_name()[0] == 's');
}

/// Tells whether `text` reads exactly as `literal`.
pub fn text_is(text: &String, literal: &str) -> (same: bool)
    ensures
        same == (text@ == literal@),
{
    let other = literal.to_owned();
    *text == other
}

fn digit_text(d: usize) -> (text: &'static str)
    requires
        d < 10,
    ensures
        text@ == seq![digit(d as nat)],
{
    proof {
        reveal_strlit("0");
        reveal_strlit("1");
        reveal_strlit("2");
        reveal_strlit("3");
        reveal_strlit("4");
        reveal_strlit("5");
        reveal_strlit("6");
        reveal_strlit("7");
        reveal_strlit("8");
        reveal_strlit("9");
    }
    if d == 0 {
        "0"
    } else if d == 1 {
        "1"
    } else if d == 2 {
        "2"
    } else if d == 3 {
        "3"
    } else if d == 4 {
        "4"
    } else if d == 5 {
        "5"
    } else if d == 6 {
        "6"
    } else if d == 7 {
        "7"
    } else if d == 8 {
        "8"
    } else {
        "9"
    }
}

fn append_decimal(text: &mut String, n: usize)
    ensures
        final(text)@ == old(text)@ + decimal(n as nat),
    decreases n,
{
    if n >= 10 {
        append_decimal(text, n / 10);
    }
    text.append(digit_text(n % 10));
}

/// The name under which the parameter of the given number is forwarded.
pub fn arg_name(index: usize) -> (name: String)
    ensures
        name@ == synthesized_name(index as nat),
{
    let mut name = "arg_".to_owned();
    append_decimal(&mut name, index);
    name
}

/// The receiver's identifier, as a forwarded argument.
pub fn receiver_name() -> (name: String)
    ensures
        name@ == self_name(),
{
    "self".to_owned()
}

/// The enclosing type's name, as it is written where a method is called.
pub fn enclosing_type_name() -> (name: String)
    ensures
        name@ == self_type_name(),
{
    "Self".to_owned()
}

/// The name given to the inner function.
pub fn inner_function_name() -> (name: String)
    ensures
        name@ == inner_name(),
{
    "__require_unsafe_inner".to_owned()
}

/// The name given to the helper trait.
pub fn helper_name() -> (name: String)
    ensures
        name@ == helper_trait_name(),
{
    "__RequireUnsafeHelper".to_owned()
}

/// The name given to the placeholder for a trait's implementing type.
pub fn placeholder() -> (name: String)
    ensures
        name@ == placeholder_name(),
{
    "__Self".to_owned()
}

} // verus!
