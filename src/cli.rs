use vstd::prelude::*;

use crate::text::{parse_u32, parse_usize, parsed_u32, parsed_usize};
use crate::unit::Unit;

verus! {

/// A throughput limit given on the command line, in units per second.
#[derive(Debug, Clone, Copy, PartialEq, Eq, Structural, PartialOrd, Ord)]
pub struct Speed(pub u32);

/// The error of a speed that is not a positive `u32` in base ten.
#[derive(Debug, Clone, Copy, PartialEq, Eq, Structural)]
pub struct InvalidSpeed;

impl Speed {
    /// Reads a speed: a positive `u32` in base ten.
    pub fn parse(s: &str) -> (r: Result<Speed, InvalidSpeed>)
        ensures
            r == (match parsed_u32(s@) {
                Some(v) => if v >= 1 {
                    Ok::<Speed, InvalidSpeed>(Speed(v))
                } else {
                    Err(InvalidSpeed)
                },
                None => Err(InvalidSpeed),
            }),
    {
        match parse_u32(s) {
            Some(v) => if v >= 1 {
                Ok(Speed(v))
            } else {
                Err(InvalidSpeed)
            },
            None => Err(InvalidSpeed),
        }
    }

    /// The limit in units per second.
    pub fn get(&self) -> (r: u32)
        ensures
            r == self.0,
    {
        self.0
    }
}

impl std::str::FromStr for Speed {
    type Err = InvalidSpeed;

    fn from_str(s: &str) -> Result<Self, Self::Err> {
        Speed::parse(s)
    }
}

/// The error of an expected size that is not a positive `usize` in base ten.
#[derive(Debug, Clone, Copy, PartialEq, Eq, Structural)]
pub struct InvalidSize;

/// Reads an expected size in bytes: a positive `usize` in base ten.
pub fn parse_expected_size(s: &str) -> (r: Result<usize, InvalidSize>)
    ensures
        r == (match parsed_usize(s@) {
            Some(v) => if v >= 1 {
                Ok::<usize, InvalidSize>(v)
            } else {
                Err(InvalidSize)
            },
            None => Err(InvalidSize),
        }),
{
    match parse_usize(s) {
        Some(v) => if v >= 1 {
            Ok(v)
        } else {
            Err(InvalidSize)
        },
        None => Err(InvalidSize),
    }
}

/// What the command line asks of a transfer.
#[derive(Debug, Clone, Copy, PartialEq, Eq, Structural)]
pub struct Invocation {
    /// The throughput limit, if any.
    pub speed: Option<Speed>,
    /// The unit of measure.
    pub unit: Unit,
    /// The expected size of the input in bytes, positive when present.
    pub expected_size: Option<usize>,
}

impl Default for Invocation {
    fn default() -> (r: Self)
        ensures
            r == (Invocation { speed: None, unit: Unit::Byte, expected_size: None }),
    {
        Invocation { speed: None, unit: Unit::Byte, expected_size: None }
    }
}

/// The options of the command line, as read.
#[derive(Debug, Clone, Copy, PartialEq, Eq, Structural)]
pub struct Opts {
    speed_limit: Option<Speed>,
    line_mode: bool,
    null_mode: bool,
    expected_size: Option<usize>,
}

/// The unit that the options select: null-separated records win over lines,
/// and bytes are the default.
pub open spec fn unit_of(line_mode: bool, null_mode: bool) -> Unit {
    if null_mode {
        Unit::Null
    } else if line_mode {
        Unit::Line
    } else {
        Unit::Byte
    }
}

impl Opts {
    /// The options read from a command line.
    pub fn new(
        speed_limit: Option<Speed>,
        line_mode: bool,
        null_mode: bool,
        expected_size: Option<usize>,
    ) -> (r: Self)
        ensures
            r.spec_speed_limit() == speed_limit,
            r.spec_line_mode() == line_mode,
            r.spec_null_mode() == null_mode,
            r.spec_expected_size() == expected_size,
    {
        Opts { speed_limit, line_mode, null_mode, expected_size }
    }

    /// The limit asked for.
    pub closed spec fn spec_speed_limit(&self) -> Option<Speed> {
        self.speed_limit
    }

    /// Whether line-separated records were asked for.
    pub closed spec fn spec_line_mode(&self) -> bool {
        self.line_mode
    }

    /// Whether null-separated records were asked for.
    pub closed spec fn spec_null_mode(&self) -> bool {
        self.null_mode
    }

    /// The unit selected.
    pub open spec fn spec_unit(&self) -> Unit {
        unit_of(self.spec_line_mode(), self.spec_null_mode())
    }

    /// The expected size given.
    pub closed spec fn spec_expected_size(&self) -> Option<usize> {
        self.expected_size
    }

    /// The unit selected: null-separated records win over lines, and bytes
    /// are the default.
    pub fn unit(&self) -> (r: Unit)
        ensures
            r == self.spec_unit(),
    {
        if self.null_mode {
            Unit::Null
        } else if self.line_mode {
            Unit::Line
        } else {
            Unit::Byte
        }
    }

    /// The limit asked for.
    pub fn speed_limit(&self) -> (r: Option<Speed>)
        ensures
            r == self.spec_speed_limit(),
    {
        self.speed_limit
    }

    /// Whether line-separated records were asked for.
    pub fn line_mode(&self) -> (r: bool)
        ensures
            r == self.spec_line_mode(),
    {
        self.line_mode
    }

    /// Whether null-separated records were asked for.
    pub fn null_mode(&self) -> (r: bool)
        ensures
            r == self.spec_null_mode(),
    {
        self.null_mode
    }

    /// The expected size given.
    pub fn expected_size(&self) -> (r: Option<usize>)
        ensures
            r == self.spec_expected_size(),
    {
        self.expected_size
    }

    /// What these options ask of a transfer.
    pub fn invocation(&self) -> (r: Invocation)
        ensures
            r == (Invocation {
                speed: self.spec_speed_limit(),
                unit: self.spec_unit(),
                expected_size: self.spec_expected_size(),
            }),
    {
        Invocation { unit: self.unit(), speed: self.speed_limit, expected_size: self.expected_size }
    }
}

impl From<Opts> for Invocation {
    fn from(opts: Opts) -> (r: Self) {
        opts.invocation()
    }
}

impl vstd::std_specs::convert::FromSpecImpl<Opts> for Invocation {
    open spec fn obeys_from_spec() -> bool {
        true
    }

    open spec fn from_spec(opts: Opts) -> Self {
        Invocation {
            speed: opts.spec_speed_limit(),
            unit: opts.spec_unit(),
            expected_size: opts.spec_expected_size(),
        }
    }
}

} // verus!
