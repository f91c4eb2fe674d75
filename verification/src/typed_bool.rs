//! Booleans that can only hold one value: [`True`] and [`False`].
//!
//! Reading such a value from a boolean succeeds only for the one value it holds; otherwise the
//! reader is told which value was expected.
use vstd::prelude::*;

verus! {

/// A boolean that is always `true`.
#[derive(Clone, Copy, Debug, Eq, PartialEq, Structural)]
pub struct True;

/// A boolean that is always `false`.
#[derive(Clone, Copy, Debug, Eq, PartialEq, Structural)]
pub struct False;

/// How a boolean is written.
pub open spec fn bool_text(b: bool) -> Seq<char> {
    if b {
        "true"@
    } else {
        "false"@
    }
}

/// The message for a boolean that does not hold the expected value.
pub open spec fn must_be_message(value: bool, expected: bool) -> Seq<char> {
    "Value '"@ + bool_text(value) + "' must be '"@ + bool_text(expected) + "'"@
}

fn bool_str(b: bool) -> (s: &'static str)
    ensures
        s@ == bool_text(b),
{
    if b {
        "true"
    } else {
        "false"
    }
}

fn must_be(value: bool, expected: bool) -> (s: String)
    ensures
        s@ == must_be_message(value, expected),
{
    let mut s = String::from_str("Value '");
    s.append(bool_str(value));
    s.append("' must be '");
    s.append(bool_str(expected));
    s.append("'");
    s
}

impl True {
    /// The value it always holds.
    pub fn value(&self) -> (b: bool)
        ensures
            b,
    {
        true
    }

    /// What a reader of a `True` expects to find.
    pub fn expecting() -> (s: &'static str)
        ensures
            s@ == "true"@,
    {
        "true"
    }

    /// Reads a `True` from a boolean: only `true` is accepted.
    pub fn from_bool(value: bool) -> (r: Result<True, String>)
        ensures
            value ==> r == Ok::<True, String>(True),
            !value ==> (r matches Err(msg) && msg@ == must_be_message(false, true)),
    {
        if value {
            Ok(True)
        } else {
            Err(must_be(value, true))
        }
    }
}

impl False {
    /// The value it always holds.
    pub fn value(&self) -> (b: bool)
        ensures
            !b,
    {
        false
    }

    /// What a reader of a `False` expects to find.
    pub fn expecting() -> (s: &'static str)
        ensures
            s@ == "false"@,
    {
        "false"
    }

    /// Reads a `False` from a boolean: only `false` is accepted.
    pub fn from_bool(value: bool) -> (r: Result<False, String>)
        ensures
            !value ==> r == Ok::<False, String>(False),
            value ==> (r matches Err(msg) && msg@ == must_be_message(true, false)),
    {
        if !value {
            Ok(False)
        } else {
            Err(must_be(value, false))
        }
    }
}

} // verus!
