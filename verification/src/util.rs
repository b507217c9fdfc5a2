//! Identifier utilities: best-effort English pluralization and the
//! synthesized placeholder names for positional fields.

use vstd::prelude::*;
use vstd::string::*;

verus! {

/// The pluralized form of an identifier: a final `s` gets `es` appended,
/// anything else gets `s` appended.
pub open spec fn spec_pluralized(s: Seq<char>) -> Seq<char> {
    if s.len() > 0 && s.last() == 's' {
        s.push('e').push('s')
    } else {
        s.push('s')
    }
}

/// Best-effort attempt to pluralize an English identifier.
pub fn pluralize(ident: &str) -> (r: String)
    requires
        ident@.len() > 0,
    ensures
        r@ == spec_pluralized(ident@),
{
    let n = ident.unicode_len();
    let last = ident.get_char(n - 1);
    let r = if last == 's' {
        String::from_str(ident).concat("es")
    } else {
        String::from_str(ident).concat("s")
    };
    proof {
        reveal_strlit("es");
        reveal_strlit("s");
        assert(r@ =~= spec_pluralized(ident@));
    }
    r
}

/// The decimal digit character for a value below ten.
pub open spec fn spec_digit(d: nat) -> char {
    if d == 0 {
        '0'
    } else if d == 1 {
        '1'
    } else if d == 2 {
        '2'
    } else if d == 3 {
        '3'
    } else if d == 4 {
        '4'
    } else if d == 5 {
        '5'
    } else if d == 6 {
        '6'
    } else if d == 7 {
        '7'
    } else if d == 8 {
        '8'
    } else {
        '9'
    }
}

/// The decimal digit sequence of a number, most significant digit first.
pub open spec fn spec_decimal(n: nat) -> Seq<char>
    decreases n,
{
    if n < 10 {
        seq![spec_digit(n)]
    } else {
        spec_decimal(n / 10).push(spec_digit(n % 10))
    }
}

fn digit_str(d: usize) -> (r: &'static str)
    requires
        d < 10,
    ensures
        r@ == seq![spec_digit(d as nat)],
{
    let r: &'static str = match d {
        0 => "0",
        1 => "1",
        2 => "2",
        3 => "3",
        4 => "4",
        5 => "5",
        6 => "6",
        7 => "7",
        8 => "8",
        _ => "9",
    };
    proof {
        reveal_strlit("0");
        reveal_strlit("1");
        reveal_strlit("2");
        reveal_strlit("3");
        reveal_strlit("4");
        reveal_strlit("5");
        reveal_strlit("6");
        reveal_strlit("7");
        reveal_strlit("8");
        reveal_strlit("9");
        assert(r@ =~= seq![spec_digit(d as nat)]);
    }
    r
}

/// The decimal rendering of a number.
pub fn decimal(n: usize) -> (r: String)
    ensures
        r@ == spec_decimal(n as nat),
    decreases n,
{
    if n < 10 {
        String::from_str(digit_str(n))
    } else {
        proof {
            assert(n / 10 < n) by (nonlinear_arith)
                requires
                    n >= 10,
            ;
        }
        let prefix = decimal(n / 10);
        let r = prefix.concat(digit_str(n % 10));
        proof {
            assert(r@ =~= spec_decimal(n as nat));
        }
        r
    }
}

/// The placeholder identifier used where a positional field needs a name:
/// `field` followed by the field's index.
pub open spec fn spec_nth_field(n: nat) -> Seq<char> {
    "field"@ + spec_decimal(n)
}

/// Synthesize the placeholder identifier for the positional field at `n`.
pub fn nth_field(n: usize) -> (r: String)
    ensures
        r@ == spec_nth_field(n as nat),
{
    let r = String::from_str("field").concat(decimal(n).as_str());
    proof {
        assert(r@ =~= spec_nth_field(n as nat));
    }
    r
}

} // verus!
