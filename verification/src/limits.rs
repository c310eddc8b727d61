//! Length limits on manifest fields and the check that enforces them.
//!
//! Lengths are counted in characters, not bytes.

use crate::text::{decimal, render_decimal};
use vstd::prelude::*;
use vstd::string::*;

verus! {

/// Most characters allowed in `name_for_human`.
pub const MAX_NAME_FOR_HUMAN: usize = 20;

/// Most characters allowed in `name_for_model`.
pub const MAX_NAME_FOR_MODEL: usize = 50;

/// Most characters allowed in `description_for_human`.
pub const MAX_DESCRIPTION_FOR_HUMAN: usize = 100;

/// Most characters allowed in `description_for_model`.
pub const MAX_DESCRIPTION_FOR_MODEL: usize = 8000;

/// A field value that is longer than its limit.
#[derive(Debug, PartialEq, Eq)]
pub struct LengthError {
    /// Name of the offending field.
    pub field: String,
    /// Most characters the field may hold.
    pub limit: usize,
    /// Characters the rejected value held.
    pub actual: usize,
}

/// Mathematical content of a [`LengthError`].
pub struct LengthErrorView {
    pub field: Seq<char>,
    pub limit: nat,
    pub actual: nat,
}

impl View for LengthError {
    type V = LengthErrorView;

    open spec fn view(&self) -> LengthErrorView {
        LengthErrorView { field: self.field@, limit: self.limit as nat, actual: self.actual as nat }
    }
}

impl Clone for LengthError {
    fn clone(&self) -> (r: Self)
        ensures
            r@ == self@,
    {
        LengthError { field: self.field.clone(), limit: self.limit, actual: self.actual }
    }
}

/// Outcome of checking a value of a named field against a limit: the value
/// itself when it fits, otherwise the failure naming the field, the limit
/// and the length found.
pub open spec fn length_verdict(value: Seq<char>, field: Seq<char>, limit: nat) -> Result<
    Seq<char>,
    LengthErrorView,
> {
    if value.len() <= limit {
        Ok(value)
    } else {
        Err(LengthErrorView { field, limit, actual: value.len() })
    }
}

/// Text of the failure message for a value that is too long.
pub open spec fn length_message(e: LengthErrorView) -> Seq<char> {
    e.field + " too long (expected <= "@ + decimal(e.limit) + ", got "@ + decimal(e.actual) + ")"@
}

/// Accepts `string` if it holds at most `len` characters and hands it back
/// unchanged; otherwise reports which field was too long, and by how much.
pub fn test_len(string: String, iden: &str, len: usize) -> (r: Result<String, LengthError>)
    ensures
        match r {
            Ok(s) => length_verdict(string@, iden@, len as nat) == Ok::<Seq<char>, LengthErrorView>(
                s@,
            ),
            Err(e) => length_verdict(string@, iden@, len as nat) == Err::<
                Seq<char>,
                LengthErrorView,
            >(e@),
        },
{
    let actual: usize = string.as_str().unicode_len();
    if actual > len {
        Err(LengthError { field: String::from_str(iden), limit: len, actual })
    } else {
        Ok(string)
    }
}

impl LengthError {
    /// The failure as a sentence: the field, its limit and the length found.
    pub fn describe(&self) -> (r: String)
        ensures
            r@ == length_message(self@),
    {
        let mut s = self.field.clone();
        s.append(" too long (expected <= ");
        s.append(render_decimal(self.limit).as_str());
        s.append(", got ");
        s.append(render_decimal(self.actual).as_str());
        s.append(")");
        s
    }
}

} // verus!
