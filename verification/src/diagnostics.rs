//! Diagnostics for the two fatal paths.
//!
//! Both violations — a duplicate store and a retrieve of an absent key — are
//! pipeline-ordering bugs (or, for an absent key, expected absence of an
//! artifact), never recoverable conditions. The slot map's preconditions rule
//! them out of verified callers; an unverified driver tests for them before
//! calling and aborts with the diagnostics built here, which name the
//! offending key so operators can correlate the failure with the definition
//! being analyzed.

use vstd::prelude::*;
use vstd::string::StringExecFns;
use crate::definition_id::DefinitionId;

verus! {

/// The character for the decimal digit `d`.
pub open spec fn digit_char(d: nat) -> char {
    if d == 0 {
        '0'
    } else if d == 1 {
        '1'
    } else if d == 2 {
        '2'
    } else if d == 3 {
        '3'
    } else if d == 4 {
        '4'
    } else if d == 5 {
        '5'
    } else if d == 6 {
        '6'
    } else if d == 7 {
        '7'
    } else if d == 8 {
        '8'
    } else {
        '9'
    }
}

/// The decimal numeral of `n`, most significant digit first, without leading
/// zeros (the numeral of zero is the single digit zero).
pub open spec fn decimal_of(n: nat) -> Seq<char>
    decreases n,
{
    if n < 10 {
        seq![digit_char(n)]
    } else {
        decimal_of(n / 10).push(digit_char(n % 10))
    }
}

/// The diagnostic for a duplicate store of the key numbered `id`.
pub open spec fn duplicate_diag(id: u64) -> Seq<char> {
    "duplicate artifact stored for definition "@ + decimal_of(id as nat)
}

/// The diagnostic for a retrieve of the absent key numbered `id`. It names
/// the key and reminds the reader of the expected case of absence, so a
/// pipeline bug can be told from a definition that simply has no analyzable
/// body.
pub open spec fn missing_diag(id: u64) -> Seq<char> {
    "no artifact stored for definition "@ + decimal_of(id as nat)
        + "; a definition without an analyzable body produces none"@
}

/// Appends the digit `d` to `s`.
fn push_digit(s: &mut String, d: u64)
    requires
        d < 10,
    ensures
        final(s)@ == old(s)@ + seq![digit_char(d as nat)],
{
    let t: &str = if d == 0 {
        "0"
    } else if d == 1 {
        "1"
    } else if d == 2 {
        "2"
    } else if d == 3 {
        "3"
    } else if d == 4 {
        "4"
    } else if d == 5 {
        "5"
    } else if d == 6 {
        "6"
    } else if d == 7 {
        "7"
    } else if d == 8 {
        "8"
    } else {
        "9"
    };
    proof {
        reveal_strlit("0");
        reveal_strlit("1");
        reveal_strlit("2");
        reveal_strlit("3");
        reveal_strlit("4");
        reveal_strlit("5");
        reveal_strlit("6");
        reveal_strlit("7");
        reveal_strlit("8");
        reveal_strlit("9");
        assert(t@ =~= seq![digit_char(d as nat)]);
    }
    s.append(t);
}

/// Appends the decimal numeral of `n` to `s`.
fn push_decimal(s: &mut String, n: u64)
    ensures
        final(s)@ == old(s)@ + decimal_of(n as nat),
    decreases n,
{
    if n >= 10 {
        push_decimal(s, n / 10);
        push_digit(s, n % 10);
        proof {
            assert(s@ =~= old(s)@ + decimal_of(n as nat));
        }
    } else {
        push_digit(s, n);
    }
}

/// The decimal numeral of `n`.
pub fn decimal_string(n: u64) -> (r: String)
    ensures
        r@ == decimal_of(n as nat),
{
    let mut s = String::new();
    push_decimal(&mut s, n);
    proof {
        assert(s@ =~= decimal_of(n as nat));
    }
    s
}

/// Builds the diagnostic for the fatal duplicate-store path, naming `key`.
pub fn duplicate_key_diagnostic(key: &DefinitionId) -> (r: String)
    ensures
        r@ == duplicate_diag(key.id()),
{
    let mut s = String::from_str("duplicate artifact stored for definition ");
    push_decimal(&mut s, key.raw());
    s
}

/// Builds the diagnostic for the fatal missing-key path, naming `key`.
pub fn missing_key_diagnostic(key: &DefinitionId) -> (r: String)
    ensures
        r@ == missing_diag(key.id()),
{
    let mut s = String::from_str("no artifact stored for definition ");
    push_decimal(&mut s, key.raw());
    s.append("; a definition without an analyzable body produces none");
    proof {
        assert(s@ =~= missing_diag(key.id()));
    }
    s
}

} // verus!
