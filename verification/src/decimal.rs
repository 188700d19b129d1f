use vstd::prelude::*;

verus! {

// Decimal numerals: canonical formatting of integers and strict parsing
// back.  Token subjects carry user ids as decimal strings, and the
// configuration TTL and port arrive as decimal strings, so both
// directions are proved against one pair of spec functions.

pub open spec fn is_dec_digit(c: char) -> bool {
    48 <= c as u32 && c as u32 <= 57
}

pub open spec fn digit_val(c: char) -> int {
    c as u32 - 48
}

pub open spec fn digit_char(d: int) -> char {
    if d == 0 {
        '0'
    } else if d == 1 {
        '1'
    } else if d == 2 {
        '2'
    } else if d == 3 {
        '3'
    } else if d == 4 {
        '4'
    } else if d == 5 {
        '5'
    } else if d == 6 {
        '6'
    } else if d == 7 {
        '7'
    } else if d == 8 {
        '8'
    } else {
        '9'
    }
}

pub open spec fn all_dec_digits(s: Seq<char>) -> bool {
    forall|i: int| 0 <= i < s.len() ==> is_dec_digit(#[trigger] s[i])
}

/// The canonical decimal numeral of `n`: no sign, no leading zeros.
pub open spec fn dec_rep(n: nat) -> Seq<char>
    decreases n,
{
    if n < 10 {
        seq![digit_char(n as int)]
    } else {
        dec_rep(n / 10) + seq![digit_char((n % 10) as int)]
    }
}

/// The canonical decimal numeral of an integer, `-` for negatives.
pub open spec fn dec_rep_int(v: int) -> Seq<char> {
    if v < 0 {
        seq!['-'] + dec_rep((-v) as nat)
    } else {
        dec_rep(v as nat)
    }
}

/// The value of a digit string, most significant digit first.
pub open spec fn seq_val(s: Seq<char>) -> int
    decreases s.len(),
{
    if s.len() == 0 {
        0
    } else {
        seq_val(s.drop_last()) * 10 + digit_val(s.last())
    }
}

/// A digit string that `dec_rep` can produce: nonempty, digits only,
/// no leading zero unless it is exactly "0".
pub open spec fn is_canonical_numeral(s: Seq<char>) -> bool {
    s.len() >= 1 && all_dec_digits(s) && (s.len() > 1 ==> s[0] != '0')
}

/// A numeral with an optional leading minus; "-0" is not canonical.
pub open spec fn is_canonical_int(s: Seq<char>) -> bool {
    if s.len() >= 1 && s[0] == '-' {
        is_canonical_numeral(s.skip(1)) && seq_val(s.skip(1)) > 0
    } else {
        is_canonical_numeral(s)
    }
}

/// The signed value of a canonical integer numeral.
pub open spec fn int_val(s: Seq<char>) -> int {
    if s.len() >= 1 && s[0] == '-' {
        -seq_val(s.skip(1))
    } else {
        seq_val(s)
    }
}

proof fn lemma_digit_char_val(d: int)
    requires
        0 <= d <= 9,
    ensures
        is_dec_digit(digit_char(d)),
        digit_val(digit_char(d)) == d,
{
}

/// Every character of a canonical numeral is a decimal digit.
pub proof fn lemma_dec_rep_shape(n: nat)
    ensures
        dec_rep(n).len() >= 1,
        all_dec_digits(dec_rep(n)),
        n > 0 ==> dec_rep(n)[0] != '0',
        n == 0 ==> dec_rep(n) =~= seq!['0'],
        n > 0 && n < 10 ==> dec_rep(n).len() == 1,
    decreases n,
{
    if n < 10 {
        lemma_digit_char_val(n as int);
    } else {
        lemma_dec_rep_shape(n / 10);
        lemma_digit_char_val((n % 10) as int);
        assert forall|i: int| 0 <= i < dec_rep(n).len() implies is_dec_digit(
            #[trigger] dec_rep(n)[i],
        ) by {
            if i < dec_rep(n / 10).len() {
                assert(dec_rep(n)[i] == dec_rep(n / 10)[i]);
            }
        }
    }
}

/// Evaluating the canonical numeral of `n` gives back `n`.
pub proof fn lemma_seq_val_dec_rep(n: nat)
    ensures
        seq_val(dec_rep(n)) == n,
    decreases n,
{
    if n < 10 {
        lemma_digit_char_val(n as int);
        assert(dec_rep(n) == seq![digit_char(n as int)]);
        assert(dec_rep(n).len() == 1);
        assert(dec_rep(n).drop_last() =~= Seq::<char>::empty());
        assert(dec_rep(n).last() == digit_char(n as int));
        assert(seq_val(dec_rep(n)) == seq_val(Seq::<char>::empty()) * 10 + digit_val(
            digit_char(n as int),
        ));
        assert(seq_val(Seq::<char>::empty()) == 0);
    } else {
        lemma_seq_val_dec_rep(n / 10);
        lemma_digit_char_val((n % 10) as int);
        assert(dec_rep(n).drop_last() =~= dec_rep(n / 10));
        assert(dec_rep(n).last() == digit_char((n % 10) as int));
        vstd::arithmetic::div_mod::lemma_fundamental_div_mod(n as int, 10);
        assert(seq_val(dec_rep(n)) == seq_val(dec_rep(n / 10)) * 10 + digit_val(
            digit_char((n % 10) as int),
        ));
    }
}

proof fn lemma_seq_val_nonneg(s: Seq<char>)
    requires
        all_dec_digits(s),
    ensures
        seq_val(s) >= 0,
    decreases s.len(),
{
    if s.len() > 0 {
        assert(all_dec_digits(s.drop_last()));
        lemma_seq_val_nonneg(s.drop_last());
        assert(seq_val(s.drop_last()) * 10 >= 0) by (nonlinear_arith)
            requires
                seq_val(s.drop_last()) >= 0,
        ;
    }
}

/// The value of a digit string is at least the value of any prefix.
proof fn lemma_seq_val_prefix(s: Seq<char>, k: int)
    requires
        all_dec_digits(s),
        0 <= k <= s.len(),
    ensures
        seq_val(s.take(k)) <= seq_val(s),
    decreases s.len() - k,
{
    if k == s.len() {
        assert(s.take(k) =~= s);
    } else {
        assert(s.take(k + 1).drop_last() =~= s.take(k));
        assert(s.take(k + 1).last() == s[k]);
        assert(all_dec_digits(s.take(k)));
        lemma_seq_val_nonneg(s.take(k));
        assert(seq_val(s.take(k)) * 10 >= seq_val(s.take(k))) by (nonlinear_arith)
            requires
                seq_val(s.take(k)) >= 0,
        ;
        lemma_seq_val_prefix(s, k + 1);
    }
}

/// Canonical numerals denote their value injectively.
pub proof fn lemma_dec_rep_int_val(v: int)
    ensures
        is_canonical_int(dec_rep_int(v)),
        int_val(dec_rep_int(v)) == v,
{
    if v < 0 {
        lemma_dec_rep_shape((-v) as nat);
        lemma_seq_val_dec_rep((-v) as nat);
        assert((seq!['-'] + dec_rep((-v) as nat)).skip(1) =~= dec_rep((-v) as nat));
    } else {
        lemma_dec_rep_shape(v as nat);
        lemma_seq_val_dec_rep(v as nat);
        assert(is_dec_digit(dec_rep_int(v)[0]));
        assert(dec_rep_int(v)[0] != '-');
    }
}

/// One digit as a string slice.
fn digit_str(d: u64) -> (r: &'static str)
    requires
        d < 10,
    ensures
        r@ =~= seq![digit_char(d as int)],
{
    proof {
        reveal_strlit("0");
        reveal_strlit("1");
        reveal_strlit("2");
        reveal_strlit("3");
        reveal_strlit("4");
        reveal_strlit("5");
        reveal_strlit("6");
        reveal_strlit("7");
        reveal_strlit("8");
        reveal_strlit("9");
    }
    if d == 0 {
        "0"
    } else if d == 1 {
        "1"
    } else if d == 2 {
        "2"
    } else if d == 3 {
        "3"
    } else if d == 4 {
        "4"
    } else if d == 5 {
        "5"
    } else if d == 6 {
        "6"
    } else if d == 7 {
        "7"
    } else if d == 8 {
        "8"
    } else {
        "9"
    }
}

/// Formats `n` as its canonical decimal numeral.
pub fn u64_to_string(n: u64) -> (r: String)
    ensures
        r@ == dec_rep(n as nat),
    decreases n,
{
    let d: u64 = n % 10;
    if n < 10 {
        let mut s = String::new();
        s.append(digit_str(d));
        s
    } else {
        let mut s = u64_to_string(n / 10);
        s.append(digit_str(d));
        s
    }
}

/// Formats a signed value, `-` first when negative.
pub fn i64_to_string(v: i64) -> (r: String)
    ensures
        r@ == dec_rep_int(v as int),
{
    if v < 0 {
        let mag: u64 = ((-(v as i128)) as u64);
        let mut s = String::new();
        proof {
            reveal_strlit("-");
        }
        s.append("-");
        let tail = u64_to_string(mag);
        s.append(tail.as_str());
        proof {
            assert(s@ =~= seq!['-'] + dec_rep(mag as nat));
        }
        s
    } else {
        u64_to_string(v as u64)
    }
}

/// Formats a user id as the token subject string.
pub fn i32_to_string(v: i32) -> (r: String)
    ensures
        r@ == dec_rep_int(v as int),
{
    i64_to_string(v as i64)
}

/// A nonempty run of decimal digits; leading zeros are allowed.
pub open spec fn is_digit_run(s: Seq<char>) -> bool {
    s.len() >= 1 && all_dec_digits(s)
}

/// The integer grammar of the standard library's `str::parse`: an
/// optional `+` or `-` sign before a nonempty digit run, leading
/// zeros accepted.
pub open spec fn is_signed_digit_run(s: Seq<char>) -> bool {
    if s.len() >= 1 && (s[0] == '-' || s[0] == '+') {
        is_digit_run(s.skip(1))
    } else {
        is_digit_run(s)
    }
}

/// The value of a signed digit run.
pub open spec fn signed_digit_run_val(s: Seq<char>) -> int {
    if s.len() >= 1 && s[0] == '-' {
        -seq_val(s.skip(1))
    } else if s.len() >= 1 && s[0] == '+' {
        seq_val(s.skip(1))
    } else {
        seq_val(s)
    }
}

/// The unsigned grammar of `str::parse`: an optional `+` before a
/// nonempty digit run; a `-` is rejected even before zero.
pub open spec fn is_unsigned_digit_run(s: Seq<char>) -> bool {
    if s.len() >= 1 && s[0] == '+' {
        is_digit_run(s.skip(1))
    } else {
        is_digit_run(s)
    }
}

/// The value of an unsigned digit run.
pub open spec fn unsigned_digit_run_val(s: Seq<char>) -> int {
    if s.len() >= 1 && s[0] == '+' {
        seq_val(s.skip(1))
    } else {
        seq_val(s)
    }
}

/// Parses a digit run, leading zeros and all, when its value fits in
/// a u64.
pub fn parse_digit_run(s: &str) -> (r: Option<u64>)
    ensures
        match r {
            Some(v) => is_digit_run(s@) && v == seq_val(s@),
            None => !is_digit_run(s@) || seq_val(s@) > u64::MAX,
        },
{
    let n = s.unicode_len();
    if n == 0 {
        return None;
    }
    let mut acc: u64 = 0;
    let mut i: usize = 0;
    while i < n
        invariant
            0 <= i <= n,
            n == s@.len(),
            n >= 1,
            all_dec_digits(s@.take(i as int)),
            acc == seq_val(s@.take(i as int)),
        decreases n - i,
    {
        let c = s.get_char(i);
        let u = c as u32;
        if u < 48 || u > 57 {
            assert(!is_dec_digit(s@[i as int]));
            return None;
        }
        let d: u64 = (u - 48) as u64;
        proof {
            assert(s@.take(i + 1).drop_last() =~= s@.take(i as int));
            assert(s@.take(i + 1).last() == s@[i as int]);
        }
        let next = match acc.checked_mul(10) {
            Some(x) => x.checked_add(d),
            None => None,
        };
        match next {
            Some(x) => {
                acc = x;
            },
            None => {
                proof {
                    if all_dec_digits(s@) {
                        lemma_seq_val_prefix(s@, i + 1);
                    }
                }
                return None;
            },
        }
        i = i + 1;
    }
    proof {
        assert(s@.take(n as int) =~= s@);
    }
    Some(acc)
}

/// Strict parser for canonical unsigned numerals: accepts exactly the
/// strings `dec_rep` produces, and only when the value fits in a u64.
/// Token subjects use this grammar.
pub fn parse_u64(s: &str) -> (r: Option<u64>)
    ensures
        match r {
            Some(v) => is_canonical_numeral(s@) && v == seq_val(s@),
            None => !is_canonical_numeral(s@) || seq_val(s@) > u64::MAX,
        },
{
    let n = s.unicode_len();
    if n > 1 && s.get_char(0) == '0' {
        return None;
    }
    parse_digit_run(s)
}

/// Strict parser for canonical signed numerals within i64 range.
pub fn parse_i64(s: &str) -> (r: Option<i64>)
    ensures
        match r {
            Some(v) => is_canonical_int(s@) && v == int_val(s@),
            None => !is_canonical_int(s@) || int_val(s@) < i64::MIN || int_val(s@) > i64::MAX,
        },
{
    let n = s.unicode_len();
    if n >= 1 && s.get_char(0) == '-' {
        let tail = s.substring_char(1, n);
        proof {
            assert(tail@ =~= s@.skip(1));
        }
        match parse_u64(tail) {
            Some(v) => {
                if v == 0 {
                    None
                } else if v <= 9223372036854775808u64 {
                    proof {
                        lemma_seq_val_nonneg(s@.skip(1));
                    }
                    Some((-(v as i128)) as i64)
                } else {
                    None
                }
            },
            None => {
                proof {
                    if is_canonical_numeral(s@.skip(1)) {
                        lemma_seq_val_nonneg(s@.skip(1));
                    }
                }
                None
            },
        }
    } else {
        match parse_u64(s) {
            Some(v) => {
                if v <= i64::MAX as u64 {
                    Some(v as i64)
                } else {
                    None
                }
            },
            None => None,
        }
    }
}

/// Strict parser for user ids in token subjects.
pub fn parse_i32(s: &str) -> (r: Option<i32>)
    ensures
        match r {
            Some(v) => is_canonical_int(s@) && v == int_val(s@),
            None => !is_canonical_int(s@) || int_val(s@) < i32::MIN || int_val(s@) > i32::MAX,
        },
{
    match parse_i64(s) {
        Some(v) => {
            if i32::MIN as i64 <= v && v <= i32::MAX as i64 {
                Some(v as i32)
            } else {
                None
            }
        },
        None => None,
    }
}

/// Parser for signed configuration settings, with the grammar of the
/// standard library's `str::parse::<i64>`: optional sign, digit run,
/// leading zeros accepted.
pub fn parse_i64_lenient(s: &str) -> (r: Option<i64>)
    ensures
        match r {
            Some(v) => is_signed_digit_run(s@) && v == signed_digit_run_val(s@),
            None => !is_signed_digit_run(s@) || signed_digit_run_val(s@) < i64::MIN
                || signed_digit_run_val(s@) > i64::MAX,
        },
{
    let n = s.unicode_len();
    if n >= 1 && (s.get_char(0) == '-' || s.get_char(0) == '+') {
        let neg = s.get_char(0) == '-';
        let tail = s.substring_char(1, n);
        proof {
            assert(tail@ =~= s@.skip(1));
        }
        match parse_digit_run(tail) {
            Some(v) => {
                if neg {
                    if v <= 9223372036854775808u64 {
                        Some((-(v as i128)) as i64)
                    } else {
                        None
                    }
                } else {
                    if v <= i64::MAX as u64 {
                        Some(v as i64)
                    } else {
                        None
                    }
                }
            },
            None => {
                proof {
                    if is_digit_run(s@.skip(1)) {
                        lemma_seq_val_nonneg(s@.skip(1));
                    }
                }
                None
            },
        }
    } else {
        match parse_digit_run(s) {
            Some(v) => {
                if v <= i64::MAX as u64 {
                    Some(v as i64)
                } else {
                    None
                }
            },
            None => None,
        }
    }
}

/// Parser for ports, with the grammar of the standard library's
/// `str::parse::<u16>`: an optional `+` before a digit run.
pub fn parse_u16_lenient(s: &str) -> (r: Option<u16>)
    ensures
        match r {
            Some(v) => is_unsigned_digit_run(s@) && v == unsigned_digit_run_val(s@),
            None => !is_unsigned_digit_run(s@) || unsigned_digit_run_val(s@) > u16::MAX,
        },
{
    let n = s.unicode_len();
    if n >= 1 && s.get_char(0) == '+' {
        let tail = s.substring_char(1, n);
        proof {
            assert(tail@ =~= s@.skip(1));
        }
        match parse_digit_run(tail) {
            Some(v) => {
                if v <= u16::MAX as u64 {
                    Some(v as u16)
                } else {
                    None
                }
            },
            None => None,
        }
    } else {
        match parse_digit_run(s) {
            Some(v) => {
                if v <= u16::MAX as u64 {
                    Some(v as u16)
                } else {
                    None
                }
            },
            None => None,
        }
    }
}

} // verus!
