//! Owner keys: the stable name that ties a chat to its playlist.
//!
//! A chat with numeric id `c` owns exactly one playlist, named
//! `"telegram-" + c` (decimal). The derivation is deterministic and
//! injective: distinct chat ids always get distinct owner keys.

use vstd::prelude::*;
use vstd::string::StringExecFns;

verus! {

/// The fixed prefix every owner key starts with.
pub open spec fn owner_prefix() -> Seq<char> {
    seq!['t', 'e', 'l', 'e', 'g', 'r', 'a', 'm', '-']
}

/// The decimal digit character for `d` (meaningful for `d < 10`).
pub open spec fn digit_char(d: nat) -> char {
    if d == 0 {
        '0'
    } else if d == 1 {
        '1'
    } else if d == 2 {
        '2'
    } else if d == 3 {
        '3'
    } else if d == 4 {
        '4'
    } else if d == 5 {
        '5'
    } else if d == 6 {
        '6'
    } else if d == 7 {
        '7'
    } else if d == 8 {
        '8'
    } else {
        '9'
    }
}

/// Decimal digit sequence of `n`, most significant digit first, no sign
/// and no leading zeros (except for `n == 0`, which is `"0"`).
pub open spec fn decimal_digits(n: nat) -> Seq<char>
    decreases n,
{
    if n < 10 {
        seq![digit_char(n)]
    } else {
        decimal_digits(n / 10) + seq![digit_char(n % 10)]
    }
}

/// Decimal rendering of a signed integer: a leading `'-'` for negative
/// values, then the digits of the absolute value.
pub open spec fn int_decimal(n: int) -> Seq<char> {
    if n < 0 {
        seq!['-'] + decimal_digits((-n) as nat)
    } else {
        decimal_digits(n as nat)
    }
}

/// The owner key of chat `chat_id`: `"telegram-"` followed by the
/// decimal rendering of the id.
pub open spec fn owner_key_spec(chat_id: int) -> Seq<char> {
    owner_prefix() + int_decimal(chat_id)
}

/// Returns a one-character string slice holding the decimal digit `d`.
fn digit_str(d: u64) -> (r: &'static str)
    requires
        d < 10,
    ensures
        r@ == seq![digit_char(d as nat)],
{
    let r: &'static str = if d == 0 {
        "0"
    } else if d == 1 {
        "1"
    } else if d == 2 {
        "2"
    } else if d == 3 {
        "3"
    } else if d == 4 {
        "4"
    } else if d == 5 {
        "5"
    } else if d == 6 {
        "6"
    } else if d == 7 {
        "7"
    } else if d == 8 {
        "8"
    } else {
        "9"
    };
    proof {
        reveal_strlit("0");
        reveal_strlit("1");
        reveal_strlit("2");
        reveal_strlit("3");
        reveal_strlit("4");
        reveal_strlit("5");
        reveal_strlit("6");
        reveal_strlit("7");
        reveal_strlit("8");
        reveal_strlit("9");
        assert(r@ =~= seq![digit_char(d as nat)]);
    }
    r
}

/// Appends the decimal digits of `n` to `s`, most significant first.
fn push_decimal(s: &mut String, n: u64)
    ensures
        final(s)@ == old(s)@ + decimal_digits(n as nat),
    decreases n,
{
    if n >= 10 {
        push_decimal(s, n / 10);
    }
    s.append(digit_str(n % 10));
    proof {
        assert(s@ =~= old(s)@ + decimal_digits(n as nat));
    }
}

/// Every decimal rendering is non-empty and starts with a digit.
proof fn lemma_decimal_digits_shape(n: nat)
    ensures
        decimal_digits(n).len() >= 1,
        exists|d: nat| d < 10 && decimal_digits(n)[0] == digit_char(d),
    decreases n,
{
    if n < 10 {
        assert(decimal_digits(n)[0] == digit_char(n));
    } else {
        lemma_decimal_digits_shape(n / 10);
        assert(decimal_digits(n)[0] == decimal_digits(n / 10)[0]);
    }
}

/// No decimal rendering starts with the minus sign.
proof fn lemma_decimal_digits_no_sign(n: nat)
    ensures
        decimal_digits(n).len() >= 1,
        decimal_digits(n)[0] != '-',
{
    lemma_decimal_digits_shape(n);
    let d: nat = choose|d: nat| d < 10 && decimal_digits(n)[0] == digit_char(d);
    assert(digit_char(d) != '-');
}

/// Equal digit sequences come from equal numbers.
proof fn lemma_decimal_digits_injective(a: nat, b: nat)
    requires
        decimal_digits(a) == decimal_digits(b),
    ensures
        a == b,
    decreases a,
{
    let sa = decimal_digits(a);
    let sb = decimal_digits(b);
    lemma_decimal_digits_shape(a);
    lemma_decimal_digits_shape(b);
    if a < 10 && b < 10 {
        assert(sa[0] == digit_char(a) && sb[0] == digit_char(b));
        assert(digit_char(a) == digit_char(b) ==> a == b);
    } else if a < 10 {
        lemma_decimal_digits_shape(b / 10);
        assert(sb.len() >= 2);
        assert(false);
    } else if b < 10 {
        lemma_decimal_digits_shape(a / 10);
        assert(sa.len() >= 2);
        assert(false);
    } else {
        assert(sa.last() == digit_char(a % 10) && sb.last() == digit_char(b % 10));
        assert(digit_char(a % 10) == digit_char(b % 10) ==> a % 10 == b % 10);
        assert(sa.drop_last() =~= decimal_digits(a / 10));
        assert(sb.drop_last() =~= decimal_digits(b / 10));
        lemma_decimal_digits_injective(a / 10, b / 10);
        assert(a == 10 * (a / 10) + a % 10);
        assert(b == 10 * (b / 10) + b % 10);
    }
}

/// The law of owner determinism: owner keys are injective, so two
/// distinct chat ids can never share a playlist name. (The converse
/// direction, that one chat id always gets the same key, is immediate
/// because [`owner_key`] returns exactly `owner_key_spec(chat_id)`.)
pub proof fn lemma_owner_key_injective(a: int, b: int)
    requires
        owner_key_spec(a) == owner_key_spec(b),
    ensures
        a == b,
{
    let ka = owner_key_spec(a);
    let kb = owner_key_spec(b);
    let pl: int = owner_prefix().len() as int;
    assert(int_decimal(a) =~= ka.subrange(pl, ka.len() as int));
    assert(int_decimal(b) =~= kb.subrange(pl, kb.len() as int));
    assert(int_decimal(a) == int_decimal(b));
    if a < 0 && b < 0 {
        lemma_decimal_digits_no_sign((-a) as nat);
        lemma_decimal_digits_no_sign((-b) as nat);
        let da = int_decimal(a);
        assert(decimal_digits((-a) as nat) =~= da.subrange(1, da.len() as int));
        assert(decimal_digits((-b) as nat) =~= da.subrange(1, da.len() as int));
        lemma_decimal_digits_injective((-a) as nat, (-b) as nat);
    } else if a >= 0 && b >= 0 {
        lemma_decimal_digits_injective(a as nat, b as nat);
    } else if a < 0 {
        lemma_decimal_digits_no_sign(b as nat);
        assert(int_decimal(a)[0] == '-');
        assert(false);
    } else {
        lemma_decimal_digits_no_sign(a as nat);
        assert(int_decimal(b)[0] == '-');
        assert(false);
    }
}

/// Derives the owner key for a chat id: `"telegram-"` plus the decimal
/// chat id. Deterministic by construction, and injective
/// (see [`lemma_owner_key_injective`]).
pub fn owner_key(chat_id: i64) -> (r: String)
    ensures
        r@ == owner_key_spec(chat_id as int),
{
    let mut s = String::from_str("telegram-");
    proof {
        reveal_strlit("telegram-");
        assert(s@ =~= owner_prefix());
    }
    if chat_id < 0 {
        s.append("-");
        proof {
            reveal_strlit("-");
        }
        let magnitude: u64 = ((-(chat_id as i128)) as u64);
        push_decimal(&mut s, magnitude);
        proof {
            assert(s@ =~= owner_key_spec(chat_id as int));
        }
    } else {
        push_decimal(&mut s, chat_id as u64);
        proof {
            assert(s@ =~= owner_key_spec(chat_id as int));
        }
    }
    s
}

} // verus!
