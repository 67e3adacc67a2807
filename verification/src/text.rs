//! Building and comparing text.
use vstd::prelude::*;

verus! {

/// Whether two texts are the same.
pub fn same_text(a: &str, b: &str) -> (same: bool)
    ensures
        same == (a@ == b@),
{
    a.to_owned() == b.to_owned()
}

/// The text that an optional string holds.
pub open spec fn text_of(text: Option<String>) -> Option<Seq<char>> {
    match text {
        Some(text) => Some(text@),
        None => None,
    }
}

/// A copy of an optional string.
pub fn copy_text(text: &Option<String>) -> (copy: Option<String>)
    ensures
        text_of(copy) == text_of(*text),
{
    match text {
        Some(text) => Some(text.clone()),
        None => None,
    }
}

/// One text after the other.
pub fn concat(first: &str, second: &str) -> (joined: String)
    ensures
        joined@ == first@ + second@,
{
    let mut joined = first.to_owned();
    joined.append(second);
    joined
}

/// What `str::to_lowercase` makes of a text.
pub uninterp spec fn lowercase(text: Seq<char>) -> Seq<char>;

/// `str::to_lowercase`: the lower-case form of a text by the Unicode tables,
/// named [`lowercase`] here. What that form is for a given text is left unsaid.
#[verifier::external_body]
pub(crate) fn to_lowercase(text: &str) -> (lower: String)
    ensures
        lower@ == lowercase(text@),
{
    text.to_lowercase()
}

/// The decimal digit for a number below ten.
pub open spec fn digit(n: int) -> char {
    if n == 0 {
        '0'
    } else if n == 1 {
        '1'
    } else if n == 2 {
        '2'
    } else if n == 3 {
        '3'
    } else if n == 4 {
        '4'
    } else if n == 5 {
        '5'
    } else if n == 6 {
        '6'
    } else if n == 7 {
        '7'
    } else if n == 8 {
        '8'
    } else {
        '9'
    }
}

/// A natural number in decimal.
pub open spec fn digits(n: nat) -> Seq<char>
    decreases n,
{
    if n < 10 {
        seq![digit(n as int)]
    } else {
        digits(n / 10).push(digit((n % 10) as int))
    }
}

/// An integer in decimal.
pub open spec fn decimal(n: int) -> Seq<char> {
    if n < 0 {
        seq!['-'] + digits((-n) as nat)
    } else {
        digits(n as nat)
    }
}

fn push_digit(out: &mut String, n: u64)
    requires
        n < 10,
    ensures
        final(out)@ == old(out)@.push(digit(n as int)),
{
    let text: &str = if n == 0 {
        proof {
            reveal_strlit("0");
        }
        "0"
    } else if n == 1 {
        proof {
            reveal_strlit("1");
        }
        "1"
    } else if n == 2 {
        proof {
            reveal_strlit("2");
        }
        "2"
    } else if n == 3 {
        proof {
            reveal_strlit("3");
        }
        "3"
    } else if n == 4 {
        proof {
            reveal_strlit("4");
        }
        "4"
    } else if n == 5 {
        proof {
            reveal_strlit("5");
        }
        "5"
    } else if n == 6 {
        proof {
            reveal_strlit("6");
        }
        "6"
    } else if n == 7 {
        proof {
            reveal_strlit("7");
        }
        "7"
    } else if n == 8 {
        proof {
            reveal_strlit("8");
        }
        "8"
    } else {
        proof {
            reveal_strlit("9");
        }
        "9"
    };
    assert(text@ =~= seq![digit(n as int)]);
    out.append(text);
    assert(out@ =~= old(out)@.push(digit(n as int)));
}

fn push_digits(out: &mut String, n: u64)
    ensures
        final(out)@ == old(out)@ + digits(n as nat),
    decreases n,
{
    if n >= 10 {
        push_digits(out, n / 10);
    }
    push_digit(out, n % 10);
    assert(out@ =~= old(out)@ + digits(n as nat));
}

/// Appends an integer in decimal.
pub fn push_decimal(out: &mut String, n: i64)
    requires
        n > i64::MIN,
    ensures
        final(out)@ == old(out)@ + decimal(n as int),
{
    if n < 0 {
        proof {
            reveal_strlit("-");
        }
        out.append("-");
        push_digits(out, (-n) as u64);
        assert("-"@ =~= seq!['-']);
        assert(out@ =~= old(out)@ + decimal(n as int));
    } else {
        push_digits(out, n as u64);
    }
}

/// A number below a hundred as two digits.
pub open spec fn two_digits(n: int) -> Seq<char> {
    seq![digit(n / 10), digit(n % 10)]
}

/// A number below a thousand as three digits.
pub open spec fn three_digits(n: int) -> Seq<char> {
    seq![digit(n / 100), digit(n / 10 % 10), digit(n % 10)]
}

/// The time of day, `HH:MM:SS.mmm`, that many seconds and milliseconds after a
/// midnight.
pub open spec fn time_of_day(seconds: int, millis: int) -> Seq<char> {
    two_digits(seconds / 3600 % 24) + seq![':'] + two_digits(seconds / 60 % 60) + seq![':']
        + two_digits(seconds % 60) + seq!['.'] + three_digits(millis)
}

fn push_two_digits(out: &mut String, n: u64)
    requires
        n < 100,
    ensures
        final(out)@ == old(out)@ + two_digits(n as int),
{
    push_digit(out, n / 10);
    push_digit(out, n % 10);
    assert(out@ =~= old(out)@ + two_digits(n as int));
}

/// The time of day, `HH:MM:SS.mmm`, that many seconds and milliseconds after a
/// midnight.
pub fn format_time_of_day(seconds: u64, millis: u32) -> (text: String)
    requires
        millis < 1000,
    ensures
        text@ == time_of_day(seconds as int, millis as int),
{
    proof {
        reveal_strlit(":");
        reveal_strlit(".");
    }
    let mut out = String::new();
    push_two_digits(&mut out, seconds / 3600 % 24);
    out.append(":");
    push_two_digits(&mut out, seconds / 60 % 60);
    out.append(":");
    push_two_digits(&mut out, seconds % 60);
    out.append(".");
    let ms: u64 = millis as u64;
    push_digit(&mut out, ms / 100);
    push_digit(&mut out, ms / 10 % 10);
    push_digit(&mut out, ms % 10);
    assert(":"@ =~= seq![':']);
    assert("."@ =~= seq!['.']);
    assert(out@ =~= time_of_day(seconds as int, millis as int));
    out
}

/// The number that a run of decimal digits stands for.
pub open spec fn number_of(text: Seq<char>) -> int
    decreases text.len(),
{
    if text.len() == 0 {
        0
    } else {
        number_of(text.drop_last()) * 10 + (text.last() as int - '0' as int)
    }
}

/// Whether a text consists of decimal digits.
pub open spec fn is_numeric(text: Seq<char>) -> bool {
    forall|i: int| 0 <= i < text.len() ==> '0' as int <= #[trigger] text[i] as int <= '9' as int
}

/// A number that is written out in decimal reads back. It has no leading zero,
/// and a negative one starts with a minus sign.
pub proof fn law_decimals_read_back(n: int)
    ensures
        n >= 0 ==> {
            &&& is_numeric(decimal(n))
            &&& number_of(decimal(n)) == n
            &&& decimal(n).len() > 0
            &&& decimal(n).len() > 1 ==> decimal(n)[0] != '0'
        },
        n < 0 ==> decimal(n).len() > 0 && decimal(n)[0] == '-' && decimal(n).skip(1) == decimal(
            -n,
        ),
{
    if n >= 0 {
        lemma_digits_read_back(n as nat);
    } else {
        assert(decimal(n).skip(1) =~= decimal(-n));
    }
}

proof fn lemma_digits_read_back(n: nat)
    ensures
        is_numeric(digits(n)),
        number_of(digits(n)) == n,
        digits(n).len() > 0,
        n > 0 ==> digits(n)[0] != '0',
        n == 0 ==> digits(n).len() == 1,
    decreases n,
{
    if n < 10 {
        assert(digits(n).drop_last() =~= Seq::<char>::empty());
        assert(number_of(Seq::<char>::empty()) == 0);
    } else {
        lemma_digits_read_back(n / 10);
        assert(digits(n).drop_last() =~= digits(n / 10));
    }
}

/// A time of day reads back: two digits each for hours, minutes and seconds and
/// three for milliseconds, which together are the time since midnight.
pub proof fn law_times_of_day_read_back(seconds: u64, millis: u32)
    requires
        millis < 1000,
    ensures
        ({
            let text = time_of_day(seconds as int, millis as int);
            let h = number_of(text.subrange(0, 2));
            let m = number_of(text.subrange(3, 5));
            let s = number_of(text.subrange(6, 8));
            let ms = number_of(text.subrange(9, 12));
            &&& text.len() == 12
            &&& text[2] == ':' && text[5] == ':' && text[8] == '.'
            &&& is_numeric(text.subrange(0, 2)) && is_numeric(text.subrange(3, 5))
            &&& is_numeric(text.subrange(6, 8)) && is_numeric(text.subrange(9, 12))
            &&& 0 <= h < 24 && 0 <= m < 60 && 0 <= s < 60
            &&& h * 3600 + m * 60 + s == seconds as int % 86400
            &&& ms == millis
        }),
{
    let text = time_of_day(seconds as int, millis as int);
    let h = seconds as int / 3600 % 24;
    let m = seconds as int / 60 % 60;
    let s = seconds as int % 60;
    assert(text.subrange(0, 2) =~= two_digits(h));
    assert(text.subrange(3, 5) =~= two_digits(m));
    assert(text.subrange(6, 8) =~= two_digits(s));
    assert(text.subrange(9, 12) =~= three_digits(millis as int));
    lemma_two_digits(h);
    lemma_two_digits(m);
    lemma_two_digits(s);
    lemma_three_digits(millis as int);
}

proof fn lemma_two_digits(n: int)
    requires
        0 <= n < 100,
    ensures
        is_numeric(two_digits(n)),
        number_of(two_digits(n)) == n,
{
    let text = two_digits(n);
    reveal_with_fuel(number_of, 3);
    assert(text.drop_last() =~= seq![digit(n / 10)]);
    assert(text.drop_last().drop_last() =~= Seq::<char>::empty());
}

proof fn lemma_three_digits(n: int)
    requires
        0 <= n < 1000,
    ensures
        is_numeric(three_digits(n)),
        number_of(three_digits(n)) == n,
{
    let text = three_digits(n);
    reveal_with_fuel(number_of, 4);
    assert(text.drop_last() =~= seq![digit(n / 100), digit(n / 10 % 10)]);
    assert(text.drop_last().drop_last() =~= seq![digit(n / 100)]);
    assert(text.drop_last().drop_last().drop_last() =~= Seq::<char>::empty());
}

} // verus!
