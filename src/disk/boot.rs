//! What every header record offers: a listing for humans and a signature check.

use vstd::prelude::*;

verus! {

/// The value shown for one field of a listing.
#[derive(Debug, Clone, Copy, PartialEq, Eq)]
pub enum FieldValue {
    /// Shown as `true` or `false`.
    Flag(bool),
    /// Shown in decimal.
    Decimal(u64),
    /// Shown in upper-case hexadecimal.
    Hex(u8),
}

/// One line of a listing.
#[derive(Debug, Clone, Copy, PartialEq, Eq)]
pub enum Line {
    /// A line of text on its own: the name of a format, or of a part of it.
    Heading(&'static str),
    /// A line `name: value`.
    Field(&'static str, FieldValue),
}

/// A decoded header record.
pub trait Boot {
    /// The listing of the record's fields, in order.
    spec fn spec_lines(&self) -> Seq<Line>;

    /// Whether the record's signature condition holds.
    spec fn spec_verify(&self) -> bool;

    /// Lists the record's fields for a human reader.
    fn render(&self) -> (r: Vec<Line>)
        ensures
            r@ == self.spec_lines(),
    ;

    /// Checks the record's signature condition.
    fn verify(&self) -> (r: bool)
        ensures
            r == self.spec_verify(),
    ;
}

} // verus!
