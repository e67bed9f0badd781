//! Display labels for the scene tree. An entity that carries a debug
//! name is listed under that name; one that does not is listed under a
//! fallback built from its identifier, `Entity <{index}v{generation}>`,
//! matching how the host engine prints an entity identifier.

use vstd::prelude::*;
use vstd::string::StringExecFns;

use crate::entity_id::EntityId;

verus! {

/// The character for a single decimal digit.
pub open spec fn digit_char(d: nat) -> char {
    if d == 0 {
        '0'
    } else if d == 1 {
        '1'
    } else if d == 2 {
        '2'
    } else if d == 3 {
        '3'
    } else if d == 4 {
        '4'
    } else if d == 5 {
        '5'
    } else if d == 6 {
        '6'
    } else if d == 7 {
        '7'
    } else if d == 8 {
        '8'
    } else {
        '9'
    }
}

/// The decimal rendering of a number: most significant digit first,
/// no leading zeros (a lone zero for zero itself).
pub open spec fn dec_str(n: nat) -> Seq<char>
    decreases n,
{
    if n < 10 {
        seq![digit_char(n)]
    } else {
        dec_str(n / 10).push(digit_char(n % 10))
    }
}

/// The fallback label of an entity without a debug name.
pub open spec fn fallback_label(id: EntityId) -> Seq<char> {
    "Entity <"@ + dec_str(id.index as nat) + "v"@ + dec_str(id.generation as nat) + ">"@
}

/// One-character string for a single decimal digit.
fn digit_str(d: u32) -> (r: &'static str)
    requires
        d < 10,
    ensures
        r@ =~= seq![digit_char(d as nat)],
{
    proof {
        reveal_strlit("0");
        reveal_strlit("1");
        reveal_strlit("2");
        reveal_strlit("3");
        reveal_strlit("4");
        reveal_strlit("5");
        reveal_strlit("6");
        reveal_strlit("7");
        reveal_strlit("8");
        reveal_strlit("9");
    }
    match d {
        0 => "0",
        1 => "1",
        2 => "2",
        3 => "3",
        4 => "4",
        5 => "5",
        6 => "6",
        7 => "7",
        8 => "8",
        _ => "9",
    }
}

/// Renders a number in decimal, most significant digit first.
pub fn u32_to_decimal(n: u32) -> (s: String)
    ensures
        s@ == dec_str(n as nat),
    decreases n,
{
    if n < 10 {
        let s = digit_str(n).to_owned();
        proof {
            assert(s@ =~= dec_str(n as nat));
        }
        s
    } else {
        let mut s = u32_to_decimal(n / 10);
        s.append(digit_str(n % 10));
        proof {
            assert(s@ =~= dec_str(n as nat));
        }
        s
    }
}

/// The display label of an entity: its debug name where it has one,
/// the identifier-based fallback where it has none.
pub fn entity_label(name: Option<&str>, id: EntityId) -> (r: String)
    ensures
        r@ == (match name {
            Some(n) => n@,
            None => fallback_label(id),
        }),
{
    match name {
        Some(n) => n.to_owned(),
        None => {
            let mut s = "Entity <".to_owned();
            let index_digits = u32_to_decimal(id.index);
            s.append(index_digits.as_str());
            s.append("v");
            let generation_digits = u32_to_decimal(id.generation);
            s.append(generation_digits.as_str());
            s.append(">");
            proof {
                assert(s@ =~= fallback_label(id));
            }
            s
        },
    }
}

} // verus!
