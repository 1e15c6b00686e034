//! Synthetic binding names.
//!
//! Fresh identifiers are generated per rewritten import
//! (`__oxjest_import_<n>__`), per hoisted "require actual" call
//! (`__oxjest_actual_<n>__`), and one fixed runtime-namespace name
//! (`__oxjest__`). Uniqueness rests on the per-invocation counter alone;
//! existing bindings in scope are not consulted.

use vstd::prelude::*;
use vstd::string::StringExecFns;

verus! {

/// The character that writes the decimal digit `d`.
pub open spec fn digit_char(d: nat) -> char {
    if d == 0 {
        '0'
    } else if d == 1 {
        '1'
    } else if d == 2 {
        '2'
    } else if d == 3 {
        '3'
    } else if d == 4 {
        '4'
    } else if d == 5 {
        '5'
    } else if d == 6 {
        '6'
    } else if d == 7 {
        '7'
    } else if d == 8 {
        '8'
    } else {
        '9'
    }
}

/// The decimal digits of `n`, most significant first, no leading zeros.
pub open spec fn dec_digits(n: nat) -> Seq<char>
    decreases n,
{
    if n < 10 {
        seq![digit_char(n)]
    } else {
        dec_digits(n / 10).push(digit_char(n % 10))
    }
}

/// The name of the fresh namespace binding of the `n`-th converted import.
pub open spec fn import_name(n: nat) -> Seq<char> {
    "__oxjest_import_"@ + dec_digits(n) + "__"@
}

/// The name of the binding that replaces the `n`-th "require actual" call.
pub open spec fn actual_name(n: nat) -> Seq<char> {
    "__oxjest_actual_"@ + dec_digits(n) + "__"@
}

/// Appends the decimal digits of `n` to `out`.
pub fn push_decimal(n: usize, out: &mut String)
    ensures
        final(out)@ == old(out)@ + dec_digits(n as nat),
    decreases n,
{
    if n >= 10 {
        push_decimal(n / 10, out);
    }
    let d: usize = n % 10;
    let ds: &str = if d == 0 {
        "0"
    } else if d == 1 {
        "1"
    } else if d == 2 {
        "2"
    } else if d == 3 {
        "3"
    } else if d == 4 {
        "4"
    } else if d == 5 {
        "5"
    } else if d == 6 {
        "6"
    } else if d == 7 {
        "7"
    } else if d == 8 {
        "8"
    } else {
        "9"
    };
    proof {
        reveal_strlit("0");
        reveal_strlit("1");
        reveal_strlit("2");
        reveal_strlit("3");
        reveal_strlit("4");
        reveal_strlit("5");
        reveal_strlit("6");
        reveal_strlit("7");
        reveal_strlit("8");
        reveal_strlit("9");
        assert(ds@ =~= seq![digit_char((d as nat))]);
        if n < 10 {
            assert(dec_digits(n as nat) == seq![digit_char((n % 10) as nat)]);
        }
    }
    out.append(ds);
    proof {
        assert(final(out)@ =~= old(out)@ + dec_digits(n as nat));
    }
}

/// Builds the fresh namespace-binding name of the `n`-th converted import.
pub fn make_import_name(n: usize) -> (r: String)
    ensures
        r@ == import_name(n as nat),
{
    let mut out = "__oxjest_import_".to_owned();
    push_decimal(n, &mut out);
    out.append("__");
    proof {
        assert(out@ =~= import_name(n as nat));
    }
    out
}

/// Builds the binding name that replaces the `n`-th "require actual" call.
pub fn make_actual_name(n: usize) -> (r: String)
    ensures
        r@ == actual_name(n as nat),
{
    let mut out = "__oxjest_actual_".to_owned();
    push_decimal(n, &mut out);
    out.append("__");
    proof {
        assert(out@ =~= actual_name(n as nat));
    }
    out
}

} // verus!
