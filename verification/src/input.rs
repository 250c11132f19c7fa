//! Reading the play input: an exit code in decimal, or else the name of a cue.
use vstd::prelude::*;

use crate::play::{PlayArgs, PlayBehaviours, PlayInputKind};
use crate::text::{decimal, digit_char};

verus! {

/// `c` is an ASCII decimal digit.
pub open spec fn is_digit(c: char) -> bool {
    '0' as int <= c as int <= '9' as int
}

/// The value of the decimal digit `c`.
pub open spec fn digit_value(c: char) -> int {
    c as int - '0' as int
}

/// Every character of `s` is a decimal digit.
pub open spec fn all_digits(s: Seq<char>) -> bool {
    forall|i: int| 0 <= i < s.len() ==> is_digit(#[trigger] s[i])
}

/// The number the decimal digits `s` write.
pub open spec fn digits_value(s: Seq<char>) -> int
    decreases s.len(),
{
    if s.len() == 0 {
        0
    } else {
        digits_value(s.drop_last()) * 10 + digit_value(s.last())
    }
}

/// The sign of a number text and the digits that follow it.
pub open spec fn split_sign(s: Seq<char>) -> (bool, Seq<char>) {
    if s.len() > 0 && s[0] == '-' {
        (true, s.drop_first())
    } else if s.len() > 0 && s[0] == '+' {
        (false, s.drop_first())
    } else {
        (false, s)
    }
}

/// The `i32` that the text `s` writes, as `str::parse::<i32>` reads it: an optional
/// `+` or `-`, then one or more decimal digits, for a value in range.
pub open spec fn parse_i32_spec(s: Seq<char>) -> Option<i32> {
    let (negative, digits) = split_sign(s);
    if digits.len() > 0 && all_digits(digits) {
        let v = if negative {
            -digits_value(digits)
        } else {
            digits_value(digits)
        };
        if i32::MIN <= v <= i32::MAX {
            Some(v as i32)
        } else {
            None
        }
    } else {
        None
    }
}

/// How the exit code `n` is written in decimal, as a shell prints it.
pub open spec fn i32_text(n: i32) -> Seq<char> {
    if n < 0 {
        seq!['-'] + decimal((-n) as nat)
    } else {
        decimal(n as nat)
    }
}

proof fn lemma_digits_value_nonneg(s: Seq<char>)
    requires
        all_digits(s),
    ensures
        digits_value(s) >= 0,
    decreases s.len(),
{
    if s.len() > 0 {
        assert(is_digit(s[s.len() - 1]));
        lemma_digits_value_nonneg(s.drop_last());
    }
}

/// The value of `s` pushed with one more digit.
proof fn lemma_digits_value_push(s: Seq<char>, c: char)
    ensures
        digits_value(s.push(c)) == digits_value(s) * 10 + digit_value(c),
{
    assert(s.push(c).drop_last() =~= s);
}

proof fn lemma_digit_char(d: nat)
    requires
        d < 10,
    ensures
        is_digit(digit_char(d)),
        digit_value(digit_char(d)) == d,
{
}

/// The decimal notation of `n` is all digits, starts with no sign, and writes `n`.
proof fn lemma_decimal_digits(n: nat)
    ensures
        decimal(n).len() > 0,
        all_digits(decimal(n)),
        digits_value(decimal(n)) == n,
        decimal(n)[0] != '-' && decimal(n)[0] != '+',
    decreases n,
{
    if n < 10 {
        lemma_digit_char(n);
        assert(digits_value(seq![digit_char(n)]) == digits_value(seq![digit_char(n)].drop_last())
            * 10 + digit_value(digit_char(n)));
        assert(seq![digit_char(n)].drop_last() =~= Seq::<char>::empty());
    } else {
        lemma_decimal_digits(n / 10);
        lemma_digit_char(n % 10);
        lemma_digits_value_push(decimal(n / 10), digit_char(n % 10));
        let s = decimal(n);
        assert forall|i: int| 0 <= i < s.len() implies is_digit(#[trigger] s[i]) by {
            if i < s.len() - 1 {
                assert(s[i] == decimal(n / 10)[i]);
            }
        }
        assert(s[0] == decimal(n / 10)[0]);
    }
}

/// Exit codes written as a shell writes them read back as the same exit code.
pub proof fn lemma_exit_code_text_round_trip(n: i32)
    ensures
        parse_i32_spec(i32_text(n)) == Some(n),
{
    if n < 0 {
        let m = (-n) as nat;
        lemma_decimal_digits(m);
        let t = seq!['-'] + decimal(m);
        assert(t[0] == '-');
        assert(t.drop_first() =~= decimal(m));
    } else {
        lemma_decimal_digits(n as nat);
    }
}

/// Value of digits `s[from..to]`, or `None` once it passes 2147483648.
fn bounded_digits_value(s: &str, from: usize, to: usize) -> (res: Option<i64>)
    requires
        from <= to <= s@.len(),
        all_digits(s@.subrange(from as int, to as int)),
    ensures
        match res {
            Some(v) => v == digits_value(s@.subrange(from as int, to as int)) && 0 <= v <= 2147483648,
            None => digits_value(s@.subrange(from as int, to as int)) > 2147483648,
        },
{
    let mut acc: i64 = 0;
    let mut i = from;
    while i < to
        invariant
            from <= i <= to <= s@.len(),
            all_digits(s@.subrange(from as int, to as int)),
            acc == digits_value(s@.subrange(from as int, i as int)),
            0 <= acc <= 2147483648,
        decreases to - i,
    {
        let c = s.get_char(i);
        proof {
            assert(s@.subrange(from as int, (i + 1) as int) =~= s@.subrange(from as int, i as int).push(c));
            lemma_digits_value_push(s@.subrange(from as int, i as int), c);
            assert(c == s@.subrange(from as int, to as int)[i - from]);
        }
        let d = (c as u32 - '0' as u32) as i64;
        acc = acc * 10 + d;
        i = i + 1;
        if acc > 2147483648 {
            proof {
                lemma_digits_value_grows(s@.subrange(from as int, to as int), i - from);
                assert(s@.subrange(from as int, to as int).subrange(0, i - from) =~= s@.subrange(
                    from as int,
                    i as int,
                ));
                assert(s@.subrange(from as int, to as int).subrange(0, (to - from) as int)
                    =~= s@.subrange(from as int, to as int));
            }
            return None;
        }
    }
    Some(acc)
}

/// The value of a run of digits does not drop as digits are added.
proof fn lemma_digits_value_grows(s: Seq<char>, k: int)
    requires
        all_digits(s),
        0 <= k <= s.len(),
    ensures
        digits_value(s.subrange(0, k)) <= digits_value(s.subrange(0, s.len() as int)),
    decreases s.len() - k,
{
    if k < s.len() {
        lemma_digits_value_grows(s, k + 1);
        let p = s.subrange(0, k);
        assert(s.subrange(0, k + 1) =~= p.push(s[k]));
        lemma_digits_value_push(p, s[k]);
        assert(all_digits(p));
        lemma_digits_value_nonneg(p);
        assert(is_digit(s[k]));
    }
}

/// The `i32` that `s` writes, read as `str::parse::<i32>` does.
pub fn parse_i32(s: &str) -> (res: Option<i32>)
    ensures
        res == parse_i32_spec(s@),
{
    let n = s.unicode_len();
    let mut start: usize = 0;
    let mut negative = false;
    if n > 0 {
        let c = s.get_char(0);
        if c == '-' {
            negative = true;
            start = 1;
        } else if c == '+' {
            start = 1;
        }
    }
    proof {
        assert(split_sign(s@).1 =~= s@.subrange(start as int, n as int));
        assert(split_sign(s@).0 == negative);
        assert(split_sign(s@) == (negative, s@.subrange(start as int, n as int)));
    }
    if start == n {
        return None;
    }
    let mut i = start;
    while i < n
        invariant
            start <= i <= n,
            n == s@.len(),
            split_sign(s@) == (negative, s@.subrange(start as int, n as int)),
            forall|j: int| start <= j < i ==> is_digit(#[trigger] s@[j]),
        decreases n - i,
    {
        let c = s.get_char(i);
        if !('0' <= c && c <= '9') {
            proof {
                let digits = s@.subrange(start as int, n as int);
                assert(digits[i - start] == c);
                assert(!is_digit(digits[i - start]));
            }
            return None;
        }
        i = i + 1;
    }
    proof {
        let digits = s@.subrange(start as int, n as int);
        assert forall|j: int| 0 <= j < digits.len() implies is_digit(#[trigger] digits[j]) by {
            assert(digits[j] == s@[start + j]);
        }
    }
    match bounded_digits_value(s, start, n) {
        None => None,
        Some(v) => {
            if negative {
                if v <= 2147483648 {
                    Some((-v) as i32)
                } else {
                    None
                }
            } else {
                if v <= 2147483647 {
                    Some(v as i32)
                } else {
                    None
                }
            }
        },
    }
}

impl PlayInputKind {
    /// The play input: an exit code when `input` is the decimal text of an `i32`,
    /// the name of a cue otherwise.
    pub fn from_input(input: String) -> (res: Self)
        ensures
            match parse_i32_spec(input@) {
                Some(code) => res matches PlayInputKind::ExitCode(c) && c == code,
                None => res matches PlayInputKind::Cue(name) && name@ == input@,
            },
    {
        match parse_i32(input.as_str()) {
            Some(code) => PlayInputKind::ExitCode(code),
            None => PlayInputKind::Cue(input),
        }
    }
}

impl PlayArgs {
    /// The play request for `input`, following the input's exit code unless
    /// `no_match_exit_code` is set.
    pub fn from_cli(input: String, no_match_exit_code: bool) -> (res: Self)
        ensures
            res.match_exit_code == !no_match_exit_code,
            match parse_i32_spec(input@) {
                Some(code) => res.input_kind matches PlayInputKind::ExitCode(c) && c == code,
                None => res.input_kind matches PlayInputKind::Cue(name) && name@ == input@,
            },
    {
        PlayArgs {
            input_kind: PlayInputKind::from_input(input),
            match_exit_code: !no_match_exit_code,
        }
    }
}

/// The code ting exits with after playing, when it is not 0: the input's exit
/// code, if the input was a non-zero exit code and ting is to follow it.
pub fn exit_status(input: &PlayInputKind, behaviours: &PlayBehaviours) -> (res: Option<i32>)
    ensures
        match res {
            Some(code) => behaviours.match_exit_code && code != 0 && (input matches PlayInputKind::ExitCode(
                c,
            ) && c == code),
            None => !behaviours.match_exit_code || !(input matches PlayInputKind::ExitCode(c) && c
                != 0),
        },
{
    match input {
        PlayInputKind::ExitCode(code) => if behaviours.match_exit_code && *code != 0 {
            Some(*code)
        } else {
            None
        },
        PlayInputKind::Cue(_) => None,
    }
}

} // verus!
