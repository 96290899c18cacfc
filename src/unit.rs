use vstd::prelude::*;

verus! {

/// The granularity at which throughput is measured and limited.
#[derive(Debug, Clone, Copy, PartialEq, Eq, Structural, PartialOrd, Ord)]
pub enum Unit {
    /// Every byte is one unit.
    Byte,
    /// Every line feed (`0x0A`) closes one unit.
    Line,
    /// Every NUL byte (`0x00`) closes one unit.
    Null,
}

/// The unit that follows `u` in the cycle byte, line, null, byte.
pub open spec fn next_unit(u: Unit) -> Unit {
    match u {
        Unit::Byte => Unit::Line,
        Unit::Line => Unit::Null,
        Unit::Null => Unit::Byte,
    }
}

impl Default for Unit {
    fn default() -> (r: Self)
        ensures
            r == Unit::Byte,
    {
        Unit::Byte
    }
}

impl Unit {
    /// Moves to the next unit of the cycle byte, line, null.
    pub fn cycle(&mut self)
        ensures
            *final(self) == next_unit(*old(self)),
    {
        *self = match *self {
            Unit::Byte => Unit::Line,
            Unit::Line => Unit::Null,
            Unit::Null => Unit::Byte,
        };
    }
}

} // verus!
