//! Reading the `id` and `password` cookies that identify the caller.
//!
//! The `id` cookie is read the way `str::parse::<u32>` reads it: an optional
//! `+` and then one or more ASCII digits whose value fits in a `u32`. A cookie
//! that is absent or does not read as such a number counts as the id 0.
use vstd::prelude::*;

verus! {

/// An ASCII decimal digit.
pub open spec fn is_digit(c: char) -> bool {
    '0' <= c && c <= '9'
}

/// The value of an ASCII decimal digit.
pub open spec fn digit_value(c: char) -> nat {
    (c as int - '0' as int) as nat
}

/// The value of a string of decimal digits, most significant first.
pub open spec fn digits_value(s: Seq<char>) -> nat
    decreases s.len(),
{
    if s.len() == 0 {
        0
    } else {
        digits_value(s.drop_last()) * 10 + digit_value(s.last())
    }
}

/// Every character of `s` is a decimal digit.
pub open spec fn all_digits(s: Seq<char>) -> bool {
    forall|i: int| 0 <= i < s.len() ==> is_digit(#[trigger] s[i])
}

/// `s` with one leading `+` taken off, if it has one.
pub open spec fn unsigned_part(s: Seq<char>) -> Seq<char> {
    if s.len() > 0 && s[0] == '+' {
        s.drop_first()
    } else {
        s
    }
}

/// What `str::parse::<u32>` gives for `s`: `Some` of the number that the
/// digits after an optional `+` spell, where there is at least one digit,
/// nothing else, and the number fits in a `u32`; `None` otherwise.
pub open spec fn parsed_u32(s: Seq<char>) -> Option<u32> {
    let d = unsigned_part(s);
    if d.len() > 0 && all_digits(d) && digits_value(d) <= u32::MAX {
        Some(digits_value(d) as u32)
    } else {
        None
    }
}

/// The id that an `id` cookie stands for: the number it holds, or 0 where
/// there is no cookie or it does not hold a number.
pub open spec fn cookie_id_of(cookie: Option<Seq<char>>) -> u32 {
    match cookie {
        Some(s) => match parsed_u32(s) {
            Some(n) => n,
            None => 0,
        },
        None => 0,
    }
}

/// The character of a decimal digit.
pub open spec fn digit_char(d: nat) -> char {
    ((d + '0' as int) as u32) as char
}

/// The shortest decimal notation of `n`.
pub open spec fn decimal(n: nat) -> Seq<char>
    decreases n,
{
    if n < 10 {
        seq![digit_char(n)]
    } else {
        decimal(n / 10).push(digit_char(n % 10))
    }
}

proof fn lemma_digits_value_grows(s: Seq<char>, j: int, k: int)
    requires
        0 <= j <= k <= s.len(),
        all_digits(s),
    ensures
        digits_value(s.take(j)) <= digits_value(s.take(k)),
    decreases k - j,
{
    if j < k {
        lemma_digits_value_grows(s, j, k - 1);
        assert(s.take(k).drop_last() =~= s.take(k - 1));
    }
}

proof fn lemma_decimal_digits(n: nat)
    ensures
        decimal(n).len() > 0,
        all_digits(decimal(n)),
        decimal(n)[0] != '+',
        digits_value(decimal(n)) == n,
    decreases n,
{
    if n < 10 {
        assert(digit_char(n) as int == n + 48);
        assert(digit_value(digit_char(n)) == n);
        assert(seq![digit_char(n)].drop_last() =~= Seq::<char>::empty());
        assert(digits_value(Seq::<char>::empty()) == 0);
        assert(digits_value(seq![digit_char(n)]) == n);
    } else {
        lemma_decimal_digits(n / 10);
        let d = decimal(n / 10);
        assert(d.push(digit_char(n % 10)).drop_last() =~= d);
        assert(digit_char(n % 10) as int == n % 10 + 48);
        assert(digit_value(digit_char(n % 10)) == n % 10);
        assert(n == (n / 10) * 10 + n % 10);
        assert(digits_value(d.push(digit_char(n % 10))) == digits_value(d) * 10 + digit_value(
            digit_char(n % 10),
        ));
        assert(digits_value(d) == n / 10);
        assert(decimal(n) == d.push(digit_char(n % 10)));
        assert forall|i: int| 0 <= i < d.push(digit_char(n % 10)).len() implies is_digit(
            #[trigger] d.push(digit_char(n % 10))[i],
        ) by {
            if i < d.len() {
                assert(is_digit(d[i]));
            }
        }
    }
}

/// Reading the decimal notation of a number that fits in a `u32` gives that
/// number back: the `id` cookie that holds an id's decimal text names that id.
pub proof fn lemma_parse_decimal(n: u32)
    ensures
        parsed_u32(decimal(n as nat)) == Some(n),
{
    lemma_decimal_digits(n as nat);
    assert(unsigned_part(decimal(n as nat)) == decimal(n as nat));
}

/// Reads `s` as `str::parse::<u32>` does.
pub fn parse_u32(s: &str) -> (r: Option<u32>)
    ensures
        r == parsed_u32(s@),
{
    let len: usize = s.unicode_len();
    if len == 0 {
        return None;
    }
    let start: usize = if s.get_char(0) == '+' {
        1
    } else {
        0
    };
    if start == len {
        return None;
    }
    let ghost d = unsigned_part(s@);
    assert(d =~= s@.subrange(start as int, len as int));
    let mut acc: u64 = 0;
    let mut i: usize = start;
    while i < len
        invariant
            len == s@.len(),
            start <= i <= len,
            start < len,
            d == unsigned_part(s@),
            d =~= s@.subrange(start as int, len as int),
            all_digits(d.take(i - start)),
            acc == digits_value(d.take(i - start)),
            acc <= u32::MAX,
        decreases len - i,
    {
        let c = s.get_char(i);
        assert(c == d[i - start]);
        if !('0' <= c && c <= '9') {
            assert(!all_digits(d));
            return None;
        }
        let digit: u64 = (c as u64) - ('0' as u64);
        assert(d.take(i + 1 - start).drop_last() =~= d.take(i - start));
        assert(all_digits(d.take(i + 1 - start))) by {
            assert forall|k: int| 0 <= k < d.take(i + 1 - start).len() implies is_digit(
                #[trigger] d.take(i + 1 - start)[k],
            ) by {
                if k < i - start {
                    assert(d.take(i + 1 - start)[k] == d.take(i - start)[k]);
                }
            }
        }
        acc = acc * 10 + digit;
        i = i + 1;
        if acc > 0xffff_ffff {
            proof {
                if all_digits(d) {
                    lemma_digits_value_grows(d, i - start, d.len() as int);
                    assert(d.take(d.len() as int) =~= d);
                }
            }
            return None;
        }
    }
    assert(d.take(len - start) =~= d);
    Some(acc as u32)
}

/// The caller's id as the `id` cookie gives it: what the cookie holds where it
/// reads as a number, and 0 where it is absent or does not.
pub fn cookie_id(cookie: Option<&str>) -> (id: u32)
    ensures
        id == cookie_id_of(
            match cookie {
                Some(s) => Some(s@),
                None => None,
            },
        ),
{
    match cookie {
        Some(s) => match parse_u32(s) {
            Some(n) => n,
            None => 0,
        },
        None => 0,
    }
}

/// The caller's password as the `password` cookie gives it: the cookie's value,
/// or the empty string where there is none.
pub fn cookie_password(cookie: Option<String>) -> (password: String)
    ensures
        match cookie {
            Some(p) => password == p,
            None => password@ == Seq::<char>::empty(),
        },
{
    match cookie {
        Some(p) => p,
        None => String::new(),
    }
}

/// Reading digit by digit: a single digit reads as its value, and appending a
/// digit to a string that reads as `n` reads as `10 * n` plus that digit, or
/// fails where that overflows a `u32`.
pub proof fn lemma_parse_digit_by_digit(s: Seq<char>, c: char)
    requires
        is_digit(c),
    ensures
        parsed_u32(seq![c]) == Some((c as u32 - '0' as u32) as u32),
        parsed_u32(s) matches Some(n) ==> (if 10 * n + (c as int - '0' as int) <= u32::MAX {
            parsed_u32(s.push(c)) == Some((10 * n + (c as int - '0' as int)) as u32)
        } else {
            parsed_u32(s.push(c)) is None
        }),
{
    assert(seq![c].drop_last() =~= Seq::<char>::empty());
    assert(unsigned_part(seq![c]) == seq![c]);
    assert(digits_value(Seq::<char>::empty()) == 0);
    assert(seq![c].last() == c);
    assert(digits_value(seq![c]) == digit_value(c));
    if let Some(n) = parsed_u32(s) {
        let d = unsigned_part(s);
        assert(unsigned_part(s.push(c)) =~= d.push(c));
        assert(d.push(c).drop_last() =~= d);
        assert(digits_value(d.push(c)) == digits_value(d) * 10 + digit_value(c));
        assert forall|i: int| 0 <= i < d.push(c).len() implies is_digit(#[trigger] d.push(c)[i]) by {
            if i < d.len() {
                assert(d.push(c)[i] == d[i]);
            }
        }
    }
}

/// A leading `+` does not change what a number reads as.
pub proof fn lemma_parse_plus(s: Seq<char>)
    requires
        s.len() > 0,
        is_digit(s[0]),
    ensures
        parsed_u32(seq!['+'] + s) == parsed_u32(s),
{
    assert((seq!['+'] + s).drop_first() =~= s);
    assert(unsigned_part(s) == s);
}

/// What reads as a number is an optional `+` and then digits only: any other
/// character, a `-`, a second `+` or an empty digit string makes it unreadable.
pub proof fn lemma_parse_rejects(s: Seq<char>, i: int)
    requires
        0 <= i < s.len(),
        !is_digit(s[i]),
        !(i == 0 && s[i] == '+' && s.len() > 1),
    ensures
        parsed_u32(s) is None,
{
    let d = unsigned_part(s);
    if s[0] == '+' {
        if i > 0 {
            assert(d[i - 1] == s[i]);
        }
    } else {
        assert(d[i] == s[i]);
    }
}

} // verus!
