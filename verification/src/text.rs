//! The display text of a symbol.
//!
//! An imported or exported symbol displays as its name. A private
//! symbol displays as its resolved name when the name section yields
//! one, and otherwise as `function[` followed by its decimal
//! defined-function index and `]`.

use vstd::prelude::*;
use vstd::string::StringExecFns;

use crate::classify::Symbol;
use crate::classify::SymbolV;

verus! {

/// The character for decimal digit `d`.
pub open spec fn spec_digit(d: int) -> char {
    if d == 0 {
        '0'
    } else if d == 1 {
        '1'
    } else if d == 2 {
        '2'
    } else if d == 3 {
        '3'
    } else if d == 4 {
        '4'
    } else if d == 5 {
        '5'
    } else if d == 6 {
        '6'
    } else if d == 7 {
        '7'
    } else if d == 8 {
        '8'
    } else {
        '9'
    }
}

/// The usual decimal rendering of `n`: no sign, no leading zero
/// except for zero itself.
pub open spec fn spec_decimal(n: int) -> Seq<char>
    decreases n,
{
    if n < 10 {
        seq![spec_digit(n)]
    } else {
        spec_decimal(n / 10) + seq![spec_digit(n % 10)]
    }
}

/// One decimal digit as text.
fn digit_str(d: usize) -> (r: &'static str)
    requires
        d < 10,
    ensures
        r@ == seq![spec_digit(d as int)],
{
    let s: &'static str = match d {
        0 => "0",
        1 => "1",
        2 => "2",
        3 => "3",
        4 => "4",
        5 => "5",
        6 => "6",
        7 => "7",
        8 => "8",
        _ => "9",
    };
    proof {
        reveal_strlit("0");
        reveal_strlit("1");
        reveal_strlit("2");
        reveal_strlit("3");
        reveal_strlit("4");
        reveal_strlit("5");
        reveal_strlit("6");
        reveal_strlit("7");
        reveal_strlit("8");
        reveal_strlit("9");
        assert(s@ =~= seq![spec_digit(d as int)]);
    }
    s
}

/// Render `n` in decimal.
pub fn decimal_string(n: usize) -> (r: String)
    ensures
        r@ == spec_decimal(n as int),
    decreases n,
{
    if n < 10 {
        String::from_str(digit_str(n))
    } else {
        let mut s = decimal_string(n / 10);
        s.append(digit_str(n % 10));
        s
    }
}

/// The display text of a symbol value.
pub open spec fn spec_display_text(s: SymbolV) -> Seq<char> {
    match s {
        SymbolV::Import { name } => name,
        SymbolV::Export { name, size: _ } => name,
        SymbolV::Private { index, name, size: _ } => match name {
            Some(n) => n,
            None => "function["@ + spec_decimal(index as int) + "]"@,
        },
    }
}

impl Symbol {
    /// The symbol's display text: its name, or
    /// `function[<index>]` for a private function with no recorded
    /// name.
    pub fn display_text(&self) -> (r: String)
        ensures
            r@ == spec_display_text(self@),
    {
        match self {
            Symbol::Import { name } => name.clone(),
            Symbol::Export { name, size: _ } => name.clone(),
            Symbol::Private { index, name, size: _ } => match name {
                Some(n) => n.clone(),
                None => {
                    let mut s = String::from_str("function[");
                    s.append(decimal_string(*index).as_str());
                    s.append("]");
                    s
                },
            },
        }
    }
}

} // verus!
