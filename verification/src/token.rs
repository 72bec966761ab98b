//! Auth-token shape: `user-<id>.<signature>.<expiration>`.
//!
//! The user segment must parse as a decimal `u64`; the signature and
//! expiration segments are carried but deliberately unchecked in this
//! version. A value that fails shape validation yields an auth failure,
//! never a crash.

use vstd::prelude::*;

use crate::error::Error;

verus! {

/// Decimal digit characters.
pub open spec fn is_digit_char(c: char) -> bool {
    '0' <= c && c <= '9'
}

/// Numeric value of a digit character.
pub open spec fn digit_val(c: char) -> nat
    recommends
        is_digit_char(c),
{
    (c as int - '0' as int) as nat
}

/// Digit character of a value below ten.
pub open spec fn digit_char(d: nat) -> char
    recommends
        d < 10,
{
    if d == 0 {
        '0'
    } else if d == 1 {
        '1'
    } else if d == 2 {
        '2'
    } else if d == 3 {
        '3'
    } else if d == 4 {
        '4'
    } else if d == 5 {
        '5'
    } else if d == 6 {
        '6'
    } else if d == 7 {
        '7'
    } else if d == 8 {
        '8'
    } else {
        '9'
    }
}

/// Value of a digit sequence read as a decimal number.
pub open spec fn dec_val(s: Seq<char>) -> nat
    decreases s.len(),
{
    if s.len() == 0 {
        0
    } else {
        dec_val(s.drop_last()) * 10 + digit_val(s.last())
    }
}

/// Shortest decimal representation of a number.
pub open spec fn dec_rep(n: nat) -> Seq<char>
    decreases n,
{
    if n < 10 {
        seq![digit_char(n)]
    } else {
        dec_rep(n / 10).push(digit_char(n % 10))
    }
}

/// First position at or after `i` that is not a digit.
pub open spec fn digits_end(s: Seq<char>, i: int) -> int
    decreases s.len() - i,
    when 0 <= i <= s.len()
{
    if i >= s.len() || !is_digit_char(s[i]) {
        i
    } else {
        digits_end(s, i + 1)
    }
}

/// How often `c` occurs in `s`.
pub open spec fn count_char(s: Seq<char>, c: char) -> nat
    decreases s.len(),
{
    if s.len() == 0 {
        0
    } else {
        count_char(s.drop_last(), c) + if s.last() == c {
            1nat
        } else {
            0nat
        }
    }
}

/// Required token shape: the prefix `user-`, then at least one digit
/// whose decimal value fits a `u64`, then a dot, then exactly one more
/// dot splitting the rest into signature and expiration segments.
pub open spec fn token_wf(s: Seq<char>) -> bool {
    let e = digits_end(s, 5);
    &&& s.len() > 5
    &&& s.subrange(0, 5) == "user-"@
    &&& e > 5
    &&& e < s.len()
    &&& s[e] == '.'
    &&& dec_val(s.subrange(5, e)) <= u64::MAX
    &&& count_char(s.subrange(e + 1, s.len() as int), '.') == 1
}

/// User id carried by a well-formed token.
pub open spec fn token_user_id(s: Seq<char>) -> u64
    recommends
        token_wf(s),
{
    dec_val(s.subrange(5, digits_end(s, 5))) as u64
}

/// Token issued for a user id: demo signature and expiration segments.
pub open spec fn token_of(id: u64) -> Seq<char> {
    "user-"@ + dec_rep(id as nat) + ".exp.sign"@
}

/// `digits_end` is exactly the border between a digit range and a
/// non-digit (or the end of the sequence).
proof fn lemma_digits_end_is(s: Seq<char>, i: int, e: int)
    requires
        0 <= i <= e <= s.len(),
        forall|k: int| i <= k < e ==> is_digit_char(s[k]),
        e == s.len() || !is_digit_char(s[e]),
    ensures
        digits_end(s, i) == e,
    decreases e - i,
{
    if i < e {
        lemma_digits_end_is(s, i + 1, e);
    }
}

/// Reading more digits never shrinks the decimal value.
proof fn lemma_dec_val_prefix_le(s: Seq<char>, a: int, b: int, c: int)
    requires
        0 <= a <= b <= c <= s.len(),
    ensures
        dec_val(s.subrange(a, b)) <= dec_val(s.subrange(a, c)),
    decreases c - b,
{
    if b < c {
        lemma_dec_val_prefix_le(s, a, b, c - 1);
        assert(s.subrange(a, c).drop_last() =~= s.subrange(a, c - 1));
        assert(dec_val(s.subrange(a, c)) == dec_val(s.subrange(a, c - 1)) * 10 + digit_val(
            s.subrange(a, c).last(),
        ));
    }
}

/// Whether the character at `i` is a decimal digit.
fn is_digit_at(s: &str, i: usize) -> (r: bool)
    requires
        i < s@.len(),
    ensures
        r == is_digit_char(s@[i as int]),
{
    let c = s.get_char(i);
    '0' <= c && c <= '9'
}

/// Whether the string starts with the literal prefix `user-`.
fn has_user_prefix(token: &str) -> (r: bool)
    requires
        token@.len() >= 5,
    ensures
        r == (token@.subrange(0, 5) == "user-"@),
{
    proof {
        reveal_strlit("user-");
    }
    let r = token.get_char(0) == 'u' && token.get_char(1) == 's' && token.get_char(2) == 'e'
        && token.get_char(3) == 'r' && token.get_char(4) == '-';
    proof {
        let p = token@.subrange(0, 5);
        assert(p.len() == 5);
        assert(p[0] == token@[0] && p[1] == token@[1] && p[2] == token@[2] && p[3] == token@[3]
            && p[4] == token@[4]);
        if r {
            assert(p =~= "user-"@);
        } else {
            if p == "user-"@ {
                assert(token@[0] == 'u' && token@[1] == 's' && token@[2] == 'e' && token@[3] == 'r'
                    && token@[4] == '-');
                assert(false);
            }
        }
    }
    r
}

/// Parses an auth token of the required shape, returning the user id.
/// A malformed shape, or a user segment whose value does not fit a
/// `u64`, is an auth failure.
#[verifier::loop_isolation(false)]
pub fn parse_token(token: &str) -> (r: Result<u64, Error>)
    ensures
        token_wf(token@) ==> r == Ok::<u64, Error>(token_user_id(token@)),
        !token_wf(token@) ==> r == Err::<u64, Error>(Error::AuthFailTokenWrongFormat),
{
    let n = token.unicode_len();
    if n < 6 {
        return Err(Error::AuthFailTokenWrongFormat);
    }
    if !has_user_prefix(token) {
        return Err(Error::AuthFailTokenWrongFormat);
    }
    // Find the end of the digit run after the prefix.
    let mut e: usize = 5;
    while e < n && is_digit_at(token, e)
        invariant
            5 <= e <= n,
            n == token@.len(),
            forall|k: int| 5 <= k < e ==> is_digit_char(token@[k]),
        decreases n - e,
    {
        e = e + 1;
    }
    proof {
        lemma_digits_end_is(token@, 5, e as int);
    }
    if e == 5 || e == n {
        return Err(Error::AuthFailTokenWrongFormat);
    }
    if token.get_char(e) != '.' {
        return Err(Error::AuthFailTokenWrongFormat);
    }
    // Accumulate the decimal value of the digit run.
    let limit: u64 = u64::MAX / 10;
    let rest: u64 = u64::MAX % 10;
    let mut i: usize = 5;
    let mut val: u64 = 0;
    while i < e
        invariant
            5 <= i <= e <= n,
            n == token@.len(),
            forall|k: int| 5 <= k < e ==> is_digit_char(token@[k]),
            val == dec_val(token@.subrange(5, i as int)),
            limit == u64::MAX / 10,
            rest == u64::MAX % 10,
        decreases e - i,
    {
        let c = token.get_char(i);
        let d = (c as u32 - '0' as u32) as u64;
        proof {
            assert(is_digit_char(token@[i as int]));
            assert(d == digit_val(token@[i as int]));
            assert(token@.subrange(5, i + 1).drop_last() =~= token@.subrange(5, i as int));
            assert(token@.subrange(5, i + 1).last() == token@[i as int]);
        }
        if val > limit || (val == limit && d > rest) {
            proof {
                assert(dec_val(token@.subrange(5, i + 1)) > u64::MAX);
                lemma_dec_val_prefix_le(token@, 5, i + 1, e as int);
                assert(!token_wf(token@));
            }
            return Err(Error::AuthFailTokenWrongFormat);
        }
        val = val * 10 + d;
        i = i + 1;
    }
    // Exactly one more dot must follow the one that ends the digit run.
    let mut j: usize = e + 1;
    let mut dots: usize = 0;
    while j < n
        invariant
            e + 1 <= j <= n,
            n == token@.len(),
            dots <= j - e - 1,
            dots == count_char(token@.subrange(e + 1, j as int), '.'),
        decreases n - j,
    {
        proof {
            assert(token@.subrange(e + 1, j + 1).drop_last() =~= token@.subrange(
                e + 1,
                j as int,
            ));
            assert(token@.subrange(e + 1, j + 1).last() == token@[j as int]);
        }
        if token.get_char(j) == '.' {
            dots = dots + 1;
        }
        j = j + 1;
    }
    if dots != 1 {
        return Err(Error::AuthFailTokenWrongFormat);
    }
    proof {
        assert(token_wf(token@));
    }
    Ok(val)
}

/// Digit characters are digits and carry their value.
proof fn lemma_digit_char_val(m: nat)
    requires
        m < 10,
    ensures
        is_digit_char(digit_char(m)),
        digit_val(digit_char(m)) == m,
{
}

/// A decimal representation is a non-empty digit run.
proof fn lemma_dec_rep_digits(n: nat)
    ensures
        dec_rep(n).len() >= 1,
        forall|k: int| 0 <= k < dec_rep(n).len() ==> is_digit_char(#[trigger] dec_rep(n)[k]),
    decreases n,
{
    if n < 10 {
        lemma_digit_char_val(n);
    } else {
        lemma_dec_rep_digits(n / 10);
        lemma_digit_char_val(n % 10);
        assert(forall|k: int| 0 <= k < dec_rep(n / 10).len() ==> #[trigger] dec_rep(n)[k]
            == dec_rep(n / 10)[k]);
    }
}

/// Reading a decimal representation back gives the number it was made of.
proof fn lemma_dec_val_dec_rep(n: nat)
    ensures
        dec_val(dec_rep(n)) == n,
    decreases n,
{
    if n < 10 {
        lemma_digit_char_val(n);
        assert(dec_rep(n) == seq![digit_char(n)]);
        assert(dec_rep(n).drop_last() =~= Seq::<char>::empty());
        assert(dec_rep(n).last() == digit_char(n));
        assert(dec_val(Seq::<char>::empty()) == 0);
        assert(dec_val(dec_rep(n)) == digit_val(digit_char(n)));
    } else {
        lemma_dec_val_dec_rep(n / 10);
        lemma_digit_char_val(n % 10);
        assert(dec_rep(n) == dec_rep(n / 10).push(digit_char(n % 10)));
        assert(dec_rep(n).drop_last() =~= dec_rep(n / 10));
        assert(dec_rep(n).last() == digit_char(n % 10));
        assert(dec_val(dec_rep(n)) == dec_val(dec_rep(n / 10)) * 10 + digit_val(
            digit_char(n % 10),
        ));
        assert(dec_val(dec_rep(n)) == (n / 10) * 10 + (n % 10));
        vstd::arithmetic::div_mod::lemma_fundamental_div_mod(n as int, 10);
        assert(n == 10 * (n / 10) + (n % 10));
    }
}

/// Law: a token issued for a user id is well-formed and parses back to
/// exactly that id.
pub proof fn lemma_token_round_trip(id: u64)
    ensures
        token_wf(token_of(id)),
        token_user_id(token_of(id)) == id,
{
    reveal_strlit("user-");
    reveal_strlit(".exp.sign");
    let s = token_of(id);
    let d = dec_rep(id as nat);
    let tail = ".exp.sign"@;
    lemma_dec_rep_digits(id as nat);
    lemma_dec_val_dec_rep(id as nat);
    let l = d.len() as int;
    assert(s.len() == 5 + l + 9);
    assert(s.subrange(0, 5) =~= "user-"@);
    assert(forall|k: int| 5 <= k < 5 + l ==> #[trigger] s[k] == d[k - 5]);
    assert(s[5 + l] == tail[0]);
    assert(!is_digit_char('.'));
    lemma_digits_end_is(s, 5, 5 + l);
    assert(s.subrange(5, 5 + l) =~= d);
    assert(dec_val(s.subrange(5, 5 + l)) == id);
    assert(s.subrange(5 + l + 1, s.len() as int) =~= tail.subrange(1, 9));
    assert(count_char(tail.subrange(1, 9), '.') == 1) by {
        reveal_with_fuel(count_char, 9);
        assert(tail.subrange(1, 9).len() == 8);
    }
    assert(token_wf(s));
}

/// One-character string for a digit value.
fn digit_to_str(d: u64) -> (r: &'static str)
    requires
        d < 10,
    ensures
        r@ == seq![digit_char(d as nat)],
{
    proof {
        reveal_strlit("0");
        reveal_strlit("1");
        reveal_strlit("2");
        reveal_strlit("3");
        reveal_strlit("4");
        reveal_strlit("5");
        reveal_strlit("6");
        reveal_strlit("7");
        reveal_strlit("8");
        reveal_strlit("9");
    }
    let r = if d == 0 {
        "0"
    } else if d == 1 {
        "1"
    } else if d == 2 {
        "2"
    } else if d == 3 {
        "3"
    } else if d == 4 {
        "4"
    } else if d == 5 {
        "5"
    } else if d == 6 {
        "6"
    } else if d == 7 {
        "7"
    } else if d == 8 {
        "8"
    } else {
        "9"
    };
    proof {
        assert(r@ =~= seq![digit_char(d as nat)]);
    }
    r
}

/// Decimal rendering of a number, shortest form.
pub fn u64_to_string(n: u64) -> (r: String)
    ensures
        r@ == dec_rep(n as nat),
    decreases n,
{
    if n < 10 {
        String::from_str(digit_to_str(n))
    } else {
        let mut s = u64_to_string(n / 10);
        s.append(digit_to_str(n % 10));
        proof {
            assert(s@ =~= dec_rep((n / 10) as nat).push(digit_char((n % 10) as nat)));
        }
        s
    }
}

/// Renders the auth token issued for a user id: the required shape with
/// the demo signature and expiration segments.
pub fn format_token(user_id: u64) -> (r: String)
    ensures
        r@ == token_of(user_id),
{
    let mut s = String::from_str("user-");
    let digits = u64_to_string(user_id);
    s.append(digits.as_str());
    s.append(".exp.sign");
    proof {
        assert(s@ =~= token_of(user_id));
    }
    s
}

} // verus!
