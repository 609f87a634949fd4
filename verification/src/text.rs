use vstd::prelude::*;

use vstd::string::StringExecFns;

verus! {

/// The character of a decimal digit.
pub open spec fn spec_digit_char(d: nat) -> char {
    if d == 0 {
        '0'
    } else if d == 1 {
        '1'
    } else if d == 2 {
        '2'
    } else if d == 3 {
        '3'
    } else if d == 4 {
        '4'
    } else if d == 5 {
        '5'
    } else if d == 6 {
        '6'
    } else if d == 7 {
        '7'
    } else if d == 8 {
        '8'
    } else {
        '9'
    }
}

/// The decimal numeral of `n`, without leading zeros.
pub open spec fn spec_decimal(n: nat) -> Seq<char>
    decreases n,
{
    if n < 10 {
        seq![spec_digit_char(n)]
    } else {
        spec_decimal(n / 10).push(spec_digit_char(n % 10))
    }
}

/// The text of the remaining time: the minutes, a colon and the seconds in two digits.
pub open spec fn spec_time_text(minutes: nat, seconds: nat) -> Seq<char> {
    spec_decimal(minutes) + seq![':'] + if seconds < 10 {
        seq!['0'] + spec_decimal(seconds)
    } else {
        spec_decimal(seconds)
    }
}

/// The text of the share of the stage owned: the percentage and a percent sign.
pub open spec fn spec_percent_text(percent: nat) -> Seq<char> {
    spec_decimal(percent).push('%')
}

fn digit_str(d: u32) -> (res: &'static str)
    requires
        d < 10,
    ensures
        res@ == seq![spec_digit_char(d as nat)],
{
    proof {
        reveal_strlit("0");
        reveal_strlit("1");
        reveal_strlit("2");
        reveal_strlit("3");
        reveal_strlit("4");
        reveal_strlit("5");
        reveal_strlit("6");
        reveal_strlit("7");
        reveal_strlit("8");
        reveal_strlit("9");
    }
    let res = if d == 0 {
        "0"
    } else if d == 1 {
        "1"
    } else if d == 2 {
        "2"
    } else if d == 3 {
        "3"
    } else if d == 4 {
        "4"
    } else if d == 5 {
        "5"
    } else if d == 6 {
        "6"
    } else if d == 7 {
        "7"
    } else if d == 8 {
        "8"
    } else {
        "9"
    };
    assert(res@ =~= seq![spec_digit_char(d as nat)]);
    res
}

/// Appends the decimal numeral of `n` to `text`.
fn push_decimal(text: &mut String, n: u32)
    ensures
        final(text)@ == old(text)@ + spec_decimal(n as nat),
    decreases n,
{
    if n >= 10 {
        push_decimal(text, n / 10);
    }
    text.append(digit_str(n % 10));
    assert(text@ =~= old(text)@ + spec_decimal(n as nat));
}

/// The decimal numeral of `n`.
pub fn decimal_text(n: u32) -> (res: String)
    ensures
        res@ == spec_decimal(n as nat),
{
    let mut text = String::new();
    push_decimal(&mut text, n);
    assert(text@ =~= spec_decimal(n as nat));
    text
}

/// The text of the remaining time, as "minutes:seconds" with two-digit seconds.
pub fn remaining_time_text(minutes: u32, seconds: u32) -> (res: String)
    ensures
        res@ == spec_time_text(minutes as nat, seconds as nat),
{
    let mut text = String::new();
    push_decimal(&mut text, minutes);
    proof {
        reveal_strlit(":");
        reveal_strlit("0");
    }
    text.append(":");
    if seconds < 10 {
        text.append("0");
    }
    push_decimal(&mut text, seconds);
    assert(text@ =~= spec_time_text(minutes as nat, seconds as nat));
    text
}

/// The text of the share of the stage owned, as the percentage followed by "%".
pub fn percent_text(percent: u32) -> (res: String)
    ensures
        res@ == spec_percent_text(percent as nat),
{
    let mut text = String::new();
    push_decimal(&mut text, percent);
    proof {
        reveal_strlit("%");
    }
    text.append("%");
    assert(text@ =~= spec_percent_text(percent as nat));
    text
}

/// Whether `c` is one of the ten decimal digits.
pub open spec fn spec_is_digit(c: char) -> bool {
    '0' <= c <= '9'
}

/// The number that a string of decimal digits stands for, read from left to right.
pub open spec fn spec_numeral_value(s: Seq<char>) -> int
    decreases s.len(),
{
    if s.len() == 0 {
        0
    } else {
        spec_numeral_value(s.drop_last()) * 10 + (s.last() as int - '0' as int)
    }
}

/// The numeral of `n` is the ordinary decimal one: it is made of digits only, reads back as
/// `n`, and starts with a zero only when `n` is zero.
pub proof fn lemma_decimal_reads_back(n: nat)
    ensures
        spec_decimal(n).len() >= 1,
        forall|k: int| 0 <= k < spec_decimal(n).len() ==> spec_is_digit(#[trigger] spec_decimal(n)[k]),
        spec_numeral_value(spec_decimal(n)) == n,
        n > 0 ==> spec_decimal(n)[0] != '0',
    decreases n,
{
    if n < 10 {
        let s = spec_decimal(n);
        assert(s.drop_last() =~= Seq::<char>::empty());
        assert(spec_numeral_value(s.drop_last()) == 0);
    } else {
        lemma_decimal_reads_back(n / 10);
        let prev = spec_decimal(n / 10);
        let s = spec_decimal(n);
        assert(s == prev.push(spec_digit_char(n % 10)));
        assert(s.drop_last() =~= prev);
        assert(s[0] == prev[0]);
        assert(forall|k: int| 0 <= k < prev.len() ==> s[k] == prev[k]);
        assert((n / 10) * 10 + n % 10 == n);
    }
}

/// The remaining time reads as the minutes, a colon and the seconds: the part before the
/// colon is the numeral of the minutes, and the part after it is made of digits, reads back
/// as the seconds and has two digits whenever the seconds are below a hundred.
pub proof fn lemma_time_text_reads_back(minutes: nat, seconds: nat)
    ensures
        ({
            let t = spec_time_text(minutes, seconds);
            let m = spec_decimal(minutes);
            let rest = t.subrange(m.len() as int + 1, t.len() as int);
            &&& t.subrange(0, m.len() as int) == m
            &&& t[m.len() as int] == ':'
            &&& forall|k: int| 0 <= k < rest.len() ==> spec_is_digit(#[trigger] rest[k])
            &&& spec_numeral_value(rest) == seconds
            &&& seconds < 100 ==> rest.len() == 2
        }),
{
    lemma_decimal_reads_back(minutes);
    lemma_decimal_reads_back(seconds);
    let t = spec_time_text(minutes, seconds);
    let m = spec_decimal(minutes);
    let d = spec_decimal(seconds);
    let rest = t.subrange(m.len() as int + 1, t.len() as int);
    assert(t.subrange(0, m.len() as int) =~= m);
    if seconds < 10 {
        assert(rest =~= seq!['0'] + d);
        assert(d.len() == 1);
        assert(rest.drop_last() =~= seq!['0']);
        assert(seq!['0'].drop_last() =~= Seq::<char>::empty());
        assert(seq!['0'].last() == '0');
        assert(spec_numeral_value(Seq::<char>::empty()) == 0);
        assert(spec_numeral_value(seq!['0']) == 0);
        assert(rest.last() == d[0]);
        assert(d.drop_last() =~= Seq::<char>::empty());
    } else {
        assert(rest =~= d);
        if seconds < 100 {
            let p = spec_decimal(seconds / 10);
            assert(seconds / 10 < 10);
            assert(d.len() == p.len() + 1);
        }
    }
}

/// The percentage reads as the numeral of the percent followed by a percent sign.
pub proof fn lemma_percent_text_reads_back(percent: nat)
    ensures
        spec_percent_text(percent).last() == '%',
        spec_numeral_value(spec_percent_text(percent).drop_last()) == percent,
        forall|k: int|
            0 <= k < spec_percent_text(percent).len() - 1 ==> spec_is_digit(
                #[trigger] spec_percent_text(percent)[k],
            ),
{
    lemma_decimal_reads_back(percent);
    assert(spec_percent_text(percent).drop_last() =~= spec_decimal(percent));
}

} // verus!
