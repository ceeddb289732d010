//! Errors arising from the simulation engine.

use vstd::prelude::*;
use vstd::string::*;

verus! {

/// The kind of entity whose index was out of range.
#[derive(Clone, Copy, PartialEq, Eq, Structural, Debug)]
pub enum WhatBound {
    ExecutionEnvironment,
    ShardBlock(u32),
}

/// Errors arising from the simulation.
#[derive(Debug)]
pub enum Error {
    /// The requested index does not exist for the named kind of entity.
    OutOfBounds { what: WhatBound, index: usize },
    /// An unexpected internal condition, with a free-text message and a
    /// capture of the call stack at the point of failure.
    Uncategorized { message: String, backtrace: String },
}

/// The decimal digit character for `d`.
pub open spec fn digit_char(d: nat) -> char {
    if d == 0 {
        '0'
    } else if d == 1 {
        '1'
    } else if d == 2 {
        '2'
    } else if d == 3 {
        '3'
    } else if d == 4 {
        '4'
    } else if d == 5 {
        '5'
    } else if d == 6 {
        '6'
    } else if d == 7 {
        '7'
    } else if d == 8 {
        '8'
    } else {
        '9'
    }
}

/// The decimal rendering of `n`, most significant digit first.
pub open spec fn decimal(n: nat) -> Seq<char>
    decreases n,
{
    if n < 10 {
        seq![digit_char(n)]
    } else {
        decimal(n / 10) + seq![digit_char(n % 10)]
    }
}

fn digit_str(d: u64) -> (r: &'static str)
    requires
        d < 10,
    ensures
        r@ == seq![digit_char(d as nat)],
{
    if d == 0 {
        proof {
            reveal_strlit("0");
            assert("0"@ =~= seq![digit_char(0)]);
        }
        "0"
    } else if d == 1 {
        proof {
            reveal_strlit("1");
            assert("1"@ =~= seq![digit_char(1)]);
        }
        "1"
    } else if d == 2 {
        proof {
            reveal_strlit("2");
            assert("2"@ =~= seq![digit_char(2)]);
        }
        "2"
    } else if d == 3 {
        proof {
            reveal_strlit("3");
            assert("3"@ =~= seq![digit_char(3)]);
        }
        "3"
    } else if d == 4 {
        proof {
            reveal_strlit("4");
            assert("4"@ =~= seq![digit_char(4)]);
        }
        "4"
    } else if d == 5 {
        proof {
            reveal_strlit("5");
            assert("5"@ =~= seq![digit_char(5)]);
        }
        "5"
    } else if d == 6 {
        proof {
            reveal_strlit("6");
            assert("6"@ =~= seq![digit_char(6)]);
        }
        "6"
    } else if d == 7 {
        proof {
            reveal_strlit("7");
            assert("7"@ =~= seq![digit_char(7)]);
        }
        "7"
    } else if d == 8 {
        proof {
            reveal_strlit("8");
            assert("8"@ =~= seq![digit_char(8)]);
        }
        "8"
    } else {
        proof {
            reveal_strlit("9");
            assert("9"@ =~= seq![digit_char(9)]);
        }
        "9"
    }
}

/// Renders `n` in decimal.
pub fn u64_decimal(n: u64) -> (r: String)
    ensures
        r@ == decimal(n as nat),
    decreases n,
{
    if n < 10 {
        String::from_str(digit_str(n))
    } else {
        let mut s = u64_decimal(n / 10);
        s.append(digit_str(n % 10));
        s
    }
}

impl WhatBound {
    /// The entity kind, described in words.
    pub open spec fn spec_description(self) -> Seq<char> {
        match self {
            WhatBound::ExecutionEnvironment => "execution environment"@,
            WhatBound::ShardBlock(shard) => "block on shard "@ + decimal(shard as nat),
        }
    }

    /// Describes the entity kind in words, e.g. `block on shard 3`.
    pub fn description(&self) -> (r: String)
        ensures
            r@ == self.spec_description(),
    {
        match self {
            WhatBound::ExecutionEnvironment => String::from_str("execution environment"),
            WhatBound::ShardBlock(shard) => {
                let mut s = String::from_str("block on shard ");
                let digits = u64_decimal(*shard as u64);
                s.append(digits.as_str());
                s
            },
        }
    }
}

impl Error {
    /// The error, described in words.
    pub open spec fn spec_description(self) -> Seq<char> {
        match self {
            Error::OutOfBounds { what, index } => "no "@ + what.spec_description()
                + " exists at index: "@ + decimal(index as nat),
            Error::Uncategorized { message, backtrace } => "uncategorized error: "@ + message@,
        }
    }

    /// Describes the error in words, e.g. `no execution environment exists at
    /// index: 4`.
    pub fn description(&self) -> (r: String)
        ensures
            r@ == self.spec_description(),
    {
        match self {
            Error::OutOfBounds { what, index } => {
                let mut s = String::from_str("no ");
                let what_text = what.description();
                s.append(what_text.as_str());
                s.append(" exists at index: ");
                let digits = u64_decimal(*index as u64);
                s.append(digits.as_str());
                s
            },
            Error::Uncategorized { message, backtrace } => {
                let mut s = String::from_str("uncategorized error: ");
                s.append(message.as_str());
                s
            },
        }
    }
}

/// Relies on `std::backtrace::Backtrace::capture`, rendered through its
/// `Display` impl, to describe the call stack; the text depends on the
/// environment, so nothing is stated of it.
#[verifier::external_body]
pub(crate) fn capture_backtrace() -> String {
    std::backtrace::Backtrace::capture().to_string()
}

} // verus!
