//! Verified construction of the narration strings that the message log
//! carries: decimal rendering of numbers and the fixed combat and death
//! sentences.

use vstd::prelude::*;
use vstd::string::StringExecFns;

verus! {

/// The decimal digit character for `d` (`0 <= d <= 9`).
pub open spec fn digit_char(d: int) -> char {
    if d == 0 {
        '0'
    } else if d == 1 {
        '1'
    } else if d == 2 {
        '2'
    } else if d == 3 {
        '3'
    } else if d == 4 {
        '4'
    } else if d == 5 {
        '5'
    } else if d == 6 {
        '6'
    } else if d == 7 {
        '7'
    } else if d == 8 {
        '8'
    } else {
        '9'
    }
}

/// The decimal digits of a non-negative number, most significant first.
pub open spec fn dec_digits(n: nat) -> Seq<char>
    decreases n,
{
    if n < 10 {
        seq![digit_char(n as int)]
    } else {
        dec_digits(n / 10) + seq![digit_char((n % 10) as int)]
    }
}

/// The decimal rendering of an integer, with a leading `-` when it is
/// negative.
pub open spec fn int_text(n: int) -> Seq<char> {
    if n < 0 {
        seq!['-'] + dec_digits((-n) as nat)
    } else {
        dec_digits(n as nat)
    }
}

/// Append the single digit `d` to `s`.
fn append_digit(s: &mut String, d: u32)
    requires
        d < 10,
    ensures
        final(s)@ == old(s)@ + seq![digit_char(d as int)],
{
    proof {
        reveal_strlit("0");
        reveal_strlit("1");
        reveal_strlit("2");
        reveal_strlit("3");
        reveal_strlit("4");
        reveal_strlit("5");
        reveal_strlit("6");
        reveal_strlit("7");
        reveal_strlit("8");
        reveal_strlit("9");
    }
    match d {
        0 => s.append("0"),
        1 => s.append("1"),
        2 => s.append("2"),
        3 => s.append("3"),
        4 => s.append("4"),
        5 => s.append("5"),
        6 => s.append("6"),
        7 => s.append("7"),
        8 => s.append("8"),
        _ => s.append("9"),
    }
    assert(final(s)@ =~= old(s)@ + seq![digit_char(d as int)]);
}

/// Append the decimal digits of `n` to `s`, most significant first.
fn append_u32_decimal(s: &mut String, n: u32)
    ensures
        final(s)@ == old(s)@ + dec_digits(n as nat),
    decreases n,
{
    if n >= 10 {
        append_u32_decimal(s, n / 10);
    }
    append_digit(s, n % 10);
    proof {
        if n >= 10 {
            assert(final(s)@ =~= old(s)@ + (dec_digits((n / 10) as nat) + seq![digit_char(
                (n % 10) as int,
            )]));
        } else {
            assert(final(s)@ =~= old(s)@ + seq![digit_char(n as int)]);
        }
    }
}

/// The decimal rendering of `n` as a fresh string.
pub fn i32_text(n: i32) -> (r: String)
    ensures
        r@ == int_text(n as int),
{
    proof {
        reveal_strlit("-");
        reveal_strlit("");
    }
    let mut s = String::new();
    let magnitude: u32 = if n < 0 {
        s.append("-");
        let wide: i64 = -(n as i64);
        wide as u32
    } else {
        n as u32
    };
    append_u32_decimal(&mut s, magnitude);
    proof {
        if n < 0 {
            assert(s@ =~= int_text(n as int));
        } else {
            assert(s@ =~= int_text(n as int));
        }
    }
    s
}

/// The combat narration: names the attacker, the defender and the
/// damage dealt.
pub open spec fn attack_text(
    att_name: Seq<char>,
    verb: Seq<char>,
    def_name: Seq<char>,
    damage: int,
) -> Seq<char> {
    att_name + " "@ + verb + "s "@ + def_name + " for "@ + int_text(damage) + " hit points."@
}

/// Build the combat narration for one attack.
pub fn attack_message_text(att_name: &str, verb: &str, def_name: &str, damage: i32) -> (r: String)
    ensures
        r@ == attack_text(att_name@, verb@, def_name@, damage as int),
{
    proof {
        reveal_strlit(" ");
        reveal_strlit("s ");
        reveal_strlit(" for ");
        reveal_strlit(" hit points.");
    }
    let mut s = att_name.to_owned();
    s.append(" ");
    s.append(verb);
    s.append("s ");
    s.append(def_name);
    s.append(" for ");
    let num = i32_text(damage);
    s.append(num.as_str());
    s.append(" hit points.");
    proof {
        assert(s@ =~= attack_text(att_name@, verb@, def_name@, damage as int));
    }
    s
}

/// The death announcement for a fallen monster.
pub open spec fn monster_death_text(name: Seq<char>) -> Seq<char> {
    name + " is dead!"@
}

/// Build the death announcement for a fallen monster.
pub fn monster_death_message_text(name: &str) -> (r: String)
    ensures
        r@ == monster_death_text(name@),
{
    proof {
        reveal_strlit(" is dead!");
    }
    let mut s = name.to_owned();
    s.append(" is dead!");
    s
}

/// The name of a monster's remains.
pub open spec fn remains_name(name: Seq<char>) -> Seq<char> {
    "remains of "@ + name
}

/// Build the name of a monster's remains.
pub fn remains_name_text(name: &str) -> (r: String)
    ensures
        r@ == remains_name(name@),
{
    proof {
        reveal_strlit("remains of ");
    }
    let mut s = "remains of ".to_owned();
    s.append(name);
    s
}

} // verus!
