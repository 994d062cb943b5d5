//! The two settings the service takes from its environment.

use vstd::prelude::*;
use vstd::string::StrSliceExecFns;

use crate::auth::{admits, bearer_of};
use crate::text::{decimal, is_digit, lemma_trim_empty, trim, trimmed, white_space};

verus! {

/// The port to listen on when none is configured.
pub const DEFAULT_PORT: u16 = 7995;

/// The digits of a number that may carry a leading plus sign.
pub open spec fn unsigned_digits(s: Seq<char>) -> Seq<char> {
    if s.len() > 0 && s.first() == '+' {
        s.drop_first()
    } else {
        s
    }
}

/// A port number in decimal: an optional plus sign, then one or more digits whose
/// value is a port.
pub open spec fn port_number(s: Seq<char>) -> Option<u16> {
    let digits = unsigned_digits(s);
    if digits.len() > 0 && (forall|i: int| 0 <= i < digits.len() ==> is_digit(#[trigger] digits[i]))
        && decimal(digits) <= u16::MAX {
        Some(decimal(digits) as u16)
    } else {
        None
    }
}

proof fn lemma_decimal_grows(s: Seq<char>, n: int)
    requires
        0 <= n <= s.len(),
    ensures
        decimal(s.take(n)) <= decimal(s),
    decreases s.len() - n,
{
    if n < s.len() {
        lemma_decimal_grows(s, n + 1);
        assert(s.take(n + 1).drop_last() == s.take(n));
    } else {
        assert(s.take(n) == s);
    }
}

/// Read a port number.
pub fn parse_port(s: &str) -> (port: Option<u16>)
    ensures
        port == port_number(s@),
{
    let len = s.unicode_len();
    let mut i: usize = 0;
    if len > 0 && s.get_char(0) == '+' {
        i = 1;
    }
    let ghost start = i as int;
    let ghost digits = unsigned_digits(s@);
    if i == len {
        return None;
    }
    let mut value: u32 = 0;
    assert(digits.take(0) == Seq::<char>::empty());
    while i < len
        invariant
            start <= i <= len == s@.len(),
            digits == unsigned_digits(s@),
            digits == s@.skip(start),
            0 <= start <= 1,
            start < len,
            forall|j: int| 0 <= j < i - start ==> is_digit(#[trigger] digits[j]),
            value == decimal(digits.take(i - start)),
            value <= u16::MAX,
        decreases len - i,
    {
        let c = s.get_char(i);
        assert(c == digits[i - start]);
        if c < '0' || '9' < c {
            return None;
        }
        proof {
            assert(digits.take(i - start + 1).drop_last() == digits.take(i - start));
            lemma_decimal_grows(digits, i - start + 1);
        }
        value = value * 10 + (c as u32 - '0' as u32);
        if value > 65535 {
            return None;
        }
        i = i + 1;
    }
    assert(digits.take(len - start) == digits);
    Some(value as u16)
}

/// The port to listen on, given what the environment says: the number it holds, white
/// space around it aside, or the default when it holds none.
pub open spec fn port_for(var: Option<Seq<char>>) -> u16 {
    match var {
        Some(v) => match port_number(trim(v)) {
            Some(port) => port,
            None => DEFAULT_PORT,
        },
        None => DEFAULT_PORT,
    }
}

/// The port to listen on.
pub fn listen_port(var: Option<&str>) -> (port: u16)
    ensures
        port == port_for(var.deep_view()),
{
    match var {
        Some(v) => match parse_port(trimmed(v)) {
            Some(port) => port,
            None => DEFAULT_PORT,
        },
        None => DEFAULT_PORT,
    }
}

/// The shared secret, given what the environment says: its text without surrounding
/// white space, unless nothing is left of it.
pub open spec fn token_for(var: Option<Seq<char>>) -> Option<Seq<char>> {
    match var {
        Some(v) => if trim(v).len() > 0 {
            Some(trim(v))
        } else {
            None
        },
        None => None,
    }
}

/// The shared secret that callers must present.
pub fn shared_token(var: Option<&str>) -> (token: Option<String>)
    ensures
        token.deep_view() == token_for(var.deep_view()),
{
    match var {
        Some(v) => {
            let t = trimmed(v);
            if t.is_empty() {
                None
            } else {
                Some(t.to_owned())
            }
        },
        None => None,
    }
}

/// Where the environment holds no secret, or a blank one, no request is let in.
pub proof fn law_blank_secret_lets_nothing_in(var: Option<Seq<char>>, header: Option<Seq<char>>)
    requires
        var is Some ==> forall|i: int| 0 <= i < var->0.len() ==> white_space(#[trigger] var->0[i]),
    ensures
        !admits(bearer_of(header), token_for(var)),
{
    if var is Some {
        lemma_trim_empty(var->0);
    }
}

/// How a port number is read: a digit is its own value, each digit more is worth ten times
/// what came before it and itself, and what is no port with so many digits is none with
/// more. A plus sign in front changes nothing; any other character, or no digit at all, is
/// no port.
pub proof fn law_port_is_read_in_decimal(s: Seq<char>, c: char)
    ensures
        port_number(Seq::empty()) is None,
        port_number(seq!['+']) is None,
        '0' <= c <= '9' ==> port_number(seq![c]) == Some((c as u16 - '0' as u16) as u16),
        port_number(s) is Some && '0' <= c <= '9' ==> {
            let value = 10 * port_number(s)->0 + (c as int - '0' as int);
            port_number(s.push(c)) == if value <= 65535 {
                Some(value as u16)
            } else {
                None
            }
        },
        port_number(s) is Some && !('0' <= c <= '9') ==> port_number(s.push(c)) is None,
        port_number(s) is None && s.len() > 0 && s != seq!['+'] ==> port_number(s.push(c)) is None,
        s.len() > 0 && s[0] != '+' ==> port_number(seq!['+'] + s) == port_number(s),
        s.len() > 0 && s[0] == '+' ==> port_number(seq!['+'] + s) is None,
        '0' <= c <= '9' ==> port_number(seq!['+', c]) == port_number(seq![c]),
        !('0' <= c <= '9') ==> port_number(seq!['+', c]) is None,
        c != '+' && !('0' <= c <= '9') ==> port_number(seq![c]) is None,
{
    let one = seq![c];
    reveal_with_fuel(decimal, 2);
    assert(one.drop_last() =~= Seq::<char>::empty());
    assert(one[0] == c);
    let plus_one = seq!['+', c];
    assert(plus_one.drop_first() =~= one);
    assert(seq!['+'].drop_first() =~= Seq::<char>::empty());
    if s.len() > 0 {
        let digits = unsigned_digits(s);
        let longer = unsigned_digits(s.push(c));
        assert(s.push(c).first() == s.first());
        assert(longer =~= digits.push(c));
        assert(longer.drop_last() =~= digits);
        assert(longer[digits.len() as int] == c);
        assert forall|i: int| 0 <= i < digits.len() implies #[trigger] longer[i] == digits[i] by {}
        if digits.len() > 0 && !(forall|i: int|
            0 <= i < digits.len() ==> is_digit(#[trigger] digits[i])) {
            let i = choose|i: int| 0 <= i < digits.len() && !is_digit(#[trigger] digits[i]);
            assert(!is_digit(longer[i]));
        }
        if s.first() == '+' && s.len() == 1 {
            assert(s =~= seq!['+']);
        }
        let signed = seq!['+'] + s;
        assert(signed.first() == '+');
        assert(signed.drop_first() =~= s);
        if s[0] == '+' {
            assert(!is_digit(s[0]));
        }
    }
}

/// The port is the number that the environment holds, white space around it aside, and the
/// default where it holds none or nothing.
pub proof fn law_port_or_default(var: Seq<char>)
    ensures
        port_for(None) == 7995,
        port_number(trim(var)) is None ==> port_for(Some(var)) == 7995,
        port_number(trim(var)) is Some ==> port_for(Some(var)) == port_number(trim(var))->0,
{
}

/// The secret is what the environment holds, white space around it aside; it is never empty.
pub proof fn law_secret(var: Seq<char>)
    ensures
        token_for(None) is None,
        token_for(Some(var)) is None <==> forall|i: int|
            0 <= i < var.len() ==> white_space(#[trigger] var[i]),
        token_for(Some(var)) is Some ==> token_for(Some(var))->0 == trim(var) && trim(var).len()
            > 0,
{
    lemma_trim_empty(var);
}

} // verus!
