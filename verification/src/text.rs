//! Text that the service reads from its configuration and shows to its user:
//! decimal numbers, prefixes and suffixes, over the characters of a string.
use vstd::prelude::*;
use vstd::string::*;

verus! {

/// The character of a decimal digit.
pub open spec fn digit_char(d: nat) -> char {
    seq!['0', '1', '2', '3', '4', '5', '6', '7', '8', '9'][d as int]
}

/// Whether `c` is one of the ten ASCII digits.
pub open spec fn is_digit(c: char) -> bool {
    '0' <= c && c <= '9'
}

/// The number that an ASCII digit stands for.
pub open spec fn digit_value(c: char) -> nat {
    (c as int - '0' as int) as nat
}

/// `n` in decimal, the most significant digit first and no leading zeros.
pub open spec fn decimal(n: nat) -> Seq<char>
    decreases n,
{
    if n < 10 {
        seq![digit_char(n)]
    } else {
        decimal(n / 10).push(digit_char(n % 10))
    }
}

/// The number that a run of ASCII digits stands for in base ten.
pub open spec fn digits_value(s: Seq<char>) -> nat
    decreases s.len(),
{
    if s.len() == 0 {
        0
    } else {
        digits_value(s.drop_last()) * 10 + digit_value(s.last())
    }
}

/// Whether every character of `s` is an ASCII digit.
pub open spec fn all_digits(s: Seq<char>) -> bool {
    forall|i: int| 0 <= i < s.len() ==> is_digit(#[trigger] s[i])
}

/// `s` without a leading plus sign, if it has one.
pub open spec fn without_plus(s: Seq<char>) -> Seq<char> {
    if s.len() > 0 && s[0] == '+' {
        s.skip(1)
    } else {
        s
    }
}

/// The `u32` that a text stands for: an optional plus sign, then one or more ASCII
/// digits and nothing else, with a value in range.
pub open spec fn u32_of(s: Seq<char>) -> Option<u32> {
    let body = without_plus(s);
    if body.len() > 0 && all_digits(body) && digits_value(body) <= u32::MAX {
        Some(digits_value(body) as u32)
    } else {
        None
    }
}

/// Whether every character of `s` is a space.
pub open spec fn all_spaces(s: Seq<char>) -> bool {
    forall|i: int| 0 <= i < s.len() ==> #[trigger] s[i] == ' '
}

/// `s` without the spaces at its end.
pub open spec fn without_trailing_spaces(s: Seq<char>) -> Seq<char>
    decreases s.len(),
{
    if s.len() > 0 && s.last() == ' ' {
        without_trailing_spaces(s.drop_last())
    } else {
        s
    }
}

/// The texts of some strings.
pub open spec fn texts(v: Seq<String>) -> Seq<Seq<char>> {
    v.map_values(|s: String| s@)
}

/// The digit `d` as text.
fn digit_text(d: u64) -> (r: &'static str)
    requires
        d < 10,
    ensures
        r@ == seq![digit_char(d as nat)],
{
    proof {
        reveal_strlit("0");
        reveal_strlit("1");
        reveal_strlit("2");
        reveal_strlit("3");
        reveal_strlit("4");
        reveal_strlit("5");
        reveal_strlit("6");
        reveal_strlit("7");
        reveal_strlit("8");
        reveal_strlit("9");
    }
    match d {
        0 => "0",
        1 => "1",
        2 => "2",
        3 => "3",
        4 => "4",
        5 => "5",
        6 => "6",
        7 => "7",
        8 => "8",
        _ => "9",
    }
}

/// Appends `n` in decimal to `out`.
pub fn push_decimal(out: &mut String, n: u64)
    ensures
        final(out)@ == old(out)@ + decimal(n as nat),
    decreases n,
{
    if n >= 10 {
        push_decimal(out, n / 10);
    }
    out.append(digit_text(n % 10));
}

/// The characters of `s`, in order.
pub fn chars_of(s: &str) -> (r: Vec<char>)
    ensures
        r@ == s@,
{
    let mut r: Vec<char> = Vec::new();
    for c in it: s.chars()
        invariant
            it.seq() == s@,
            r@ == s@.take(it.index()),
    {
        r.push(c);
    }
    r
}

/// Parses a `u32`: an optional plus sign, then one or more ASCII digits. Any other text,
/// and a value out of range, gives `None`.
pub fn parse_u32(s: &str) -> (r: Option<u32>)
    ensures
        r == u32_of(s@),
{
    let text: Vec<char> = chars_of(s);
    let start: usize = if text.len() > 0 && text[0] == '+' { 1 } else { 0 };
    let ghost body = without_plus(s@);
    if text.len() == start {
        return None;
    }
    let mut value: u64 = 0;
    let mut i: usize = start;
    while i < text.len()
        invariant
            text@ == s@,
            start <= i <= text.len(),
            body == text@.skip(start as int),
            all_digits(body.take(i - start)),
            value == digits_value(body.take(i - start)),
            value <= u32::MAX,
            body == without_plus(s@),
            body.len() > 0,
        decreases text.len() - i,
    {
        let c: char = text[i];
        let ghost done = body.take(i - start);
        let ghost more = body.take(i - start + 1);
        assert(more.drop_last() =~= done);
        assert(more.last() == c);
        if c < '0' || c > '9' {
            assert(body[i - start] == c);
            return None;
        }
        value = value * 10 + (c as u64 - '0' as u64);
        assert(value == digits_value(more));
        if value > 0xFFFF_FFFF {
            proof {
                lemma_digits_value_prefix(body, i - start + 1);
            }
            return None;
        }
        assert forall|k: int| 0 <= k < more.len() implies is_digit(#[trigger] more[k]) by {
            if k < done.len() {
                assert(done[k] == more[k]);
            }
        }
        i += 1;
    }
    assert(body.take(i - start) =~= body);
    Some(value as u32)
}

/// `s` without the spaces at its end.
pub fn trim_trailing_spaces<'a>(s: &'a str) -> (r: &'a str)
    ensures
        r@ == without_trailing_spaces(s@),
{
    let text: Vec<char> = chars_of(s);
    let mut end: usize = text.len();
    assert(s@.take(end as int) =~= s@);
    while end > 0 && text[end - 1] == ' '
        invariant
            text@ == s@,
            end <= text.len(),
            without_trailing_spaces(s@) == without_trailing_spaces(s@.take(end as int)),
        decreases end,
    {
        assert(s@.take(end as int).drop_last() =~= s@.take(end - 1));
        end -= 1;
    }
    s.substring_char(0, end)
}

/// Spaces after a text that does not end with one are dropped, and nothing else is.
pub proof fn trailing_spaces_are_dropped(s: Seq<char>, spaces: Seq<char>)
    requires
        all_spaces(spaces),
        s.len() > 0 ==> s.last() != ' ',
    ensures
        without_trailing_spaces(s + spaces) == s,
    decreases spaces.len(),
{
    let whole = s + spaces;
    if spaces.len() > 0 {
        assert(spaces[spaces.len() - 1] == ' ');
        assert(whole.drop_last() =~= s + spaces.drop_last());
        trailing_spaces_are_dropped(s, spaces.drop_last());
    } else {
        assert(whole =~= s);
    }
}

/// A run of digits stands for no less than any of its prefixes.
proof fn lemma_digits_value_prefix(s: Seq<char>, n: int)
    requires
        0 <= n <= s.len(),
    ensures
        digits_value(s.take(n)) <= digits_value(s),
    decreases s.len() - n,
{
    if n == s.len() {
        assert(s.take(n) =~= s);
    } else {
        lemma_digits_value_prefix(s, n + 1);
        assert(s.take(n + 1).drop_last() =~= s.take(n));
    }
}

/// Writing a number in decimal and reading the text back gives the number again, also with
/// spaces after it once they are dropped.
pub proof fn decimal_reads_back(n: u32, spaces: Seq<char>)
    requires
        all_spaces(spaces),
    ensures
        u32_of(decimal(n as nat)) == Some(n),
        u32_of(without_trailing_spaces(decimal(n as nat) + spaces)) == Some(n),
{
    lemma_decimal(n as nat);
    let s = decimal(n as nat);
    assert(is_digit(s[0]));
    assert(is_digit(s[s.len() - 1]));
    trailing_spaces_are_dropped(s, spaces);
}

/// The decimal form is a non-empty run of digits with the value it was made from.
proof fn lemma_decimal(n: nat)
    ensures
        decimal(n).len() > 0,
        all_digits(decimal(n)),
        digits_value(decimal(n)) == n,
    decreases n,
{
    let s = decimal(n);
    if n >= 10 {
        lemma_decimal(n / 10);
        assert(s.drop_last() =~= decimal(n / 10));
    } else {
        assert(s.drop_last() =~= Seq::<char>::empty());
        assert(digits_value(s.drop_last()) == 0);
    }
    assert(s.last() == digit_char(n % 10));
    assert(digit_value(s.last()) == n % 10);
}

/// Whether `s` begins with `prefix`.
pub fn starts_with(s: &str, prefix: &str) -> (r: bool)
    ensures
        r == prefix@.is_prefix_of(s@),
{
    let text: Vec<char> = chars_of(s);
    let head: Vec<char> = chars_of(prefix);
    if head.len() > text.len() {
        return false;
    }
    let mut i: usize = 0;
    while i < head.len()
        invariant
            text@ == s@,
            head@ == prefix@,
            i <= head.len() <= text.len(),
            head@.take(i as int) == text@.take(i as int),
        decreases head.len() - i,
    {
        if head[i] != text[i] {
            assert(prefix@[i as int] != s@.subrange(0, prefix@.len() as int)[i as int]);
            return false;
        }
        assert(head@.take(i + 1) =~= head@.take(i as int).push(head[i as int]));
        assert(text@.take(i + 1) =~= text@.take(i as int).push(text[i as int]));
        i += 1;
    }
    assert(head@.take(i as int) =~= head@);
    assert(text@.take(i as int) =~= s@.subrange(0, prefix@.len() as int));
    true
}

/// Whether `tail` is what follows the last `mark` in `s`, or all of `s` if it has none.
pub open spec fn is_after_last(tail: Seq<char>, s: Seq<char>, mark: char) -> bool {
    &&& tail.len() <= s.len()
    &&& tail == s.skip(s.len() - tail.len())
    &&& !tail.contains(mark)
    &&& tail.len() == s.len() || s[s.len() - tail.len() - 1] == mark
}

/// What follows the last `mark` in `s`, or all of `s` if it has none.
pub fn after_last(s: &str, mark: char) -> (r: String)
    ensures
        is_after_last(r@, s@, mark),
{
    let text: Vec<char> = chars_of(s);
    let mut start: usize = text.len();
    while start > 0 && text[start - 1] != mark
        invariant
            text@ == s@,
            start <= text.len(),
            forall|k: int| start <= k < text.len() ==> #[trigger] text@[k] != mark,
        decreases start,
    {
        start -= 1;
    }
    let r: String = s.substring_char(start, text.len()).to_owned();
    assert(r@ == s@.skip(start as int));
    assert(s@.len() - r@.len() == start);
    assert forall|k: int| 0 <= k < r@.len() implies #[trigger] r@[k] != mark by {
        assert(r@[k] == text@[start + k]);
    }
    r
}

/// At most one text is what follows the last `mark` in `s`.
pub proof fn after_last_is_unique(a: Seq<char>, b: Seq<char>, s: Seq<char>, mark: char)
    requires
        is_after_last(a, s, mark),
        is_after_last(b, s, mark),
    ensures
        a == b,
{
    if a.len() < b.len() {
        assert(b[b.len() - a.len() - 1] == mark);
    }
    if b.len() < a.len() {
        assert(a[a.len() - b.len() - 1] == mark);
    }
}

/// A number is written in base ten: a number below ten as its digit, and any other as what it is
/// without its last digit, followed by that digit. It is appended to the text that is there.
pub proof fn numbers_are_written_in_base_ten(out: &mut String, n: u64)
    requires
        call_ensures(push_decimal, (out, n), ()),
    ensures
        final(out)@ == old(out)@ + decimal(n as nat),
        n < 10 ==> decimal(n as nat).len() == 1,
        n >= 10 ==> decimal(n as nat).drop_last() == decimal((n / 10) as nat),
        decimal(n as nat).last() as int == '0' as int + n % 10,
{
    if n >= 10 {
        assert(decimal(n as nat).drop_last() =~= decimal((n / 10) as nat));
    }
}

/// A number is read digit by digit: one more digit makes ten times the number, plus the digit, and
/// no number once that is too large. A plus sign may stand in front. Nothing is read from a text
/// with anything else in it, or without a digit.
pub proof fn numbers_are_read_digit_by_digit(
    s: &str,
    t: &str,
    c: char,
    before: Option<u32>,
    after: Option<u32>,
)
    requires
        t@ == s@.push(c),
        call_ensures(parse_u32, (s,), before),
        call_ensures(parse_u32, (t,), after),
    ensures
        s@.len() == 0 ==> before is None,
        !('0' <= c <= '9') ==> after is None,
        '0' <= c <= '9' ==> {
            let digit = c as int - '0' as int;
            match before {
                Some(n) => if n * 10 + digit <= u32::MAX {
                    after matches Some(m) && m == n * 10 + digit
                } else {
                    after is None
                },
                None => if s@.len() == 0 || s@ == seq!['+'] {
                    after matches Some(m) && m == digit
                } else {
                    after is None
                },
            }
        },
{
    let short = without_plus(s@);
    let long = without_plus(t@);
    if s@.len() == 0 {
        if c != '+' {
            assert(long =~= seq![c]);
            assert(long.drop_last() =~= Seq::<char>::empty());
            assert(digits_value(long.drop_last()) == 0);
            assert(long[0] == c);
        }
    } else {
        assert(t@[0] == s@[0]);
        assert(long =~= short.push(c));
        assert(long.drop_last() =~= short);
        assert(long[long.len() - 1] == c);
        if all_digits(long) {
            assert forall|i: int| 0 <= i < short.len() implies is_digit(#[trigger] short[i]) by {
                assert(long[i] == short[i]);
            }
        }
        if all_digits(short) && is_digit(c) {
            assert forall|i: int| 0 <= i < long.len() implies is_digit(#[trigger] long[i]) by {
                if i < short.len() {
                    assert(long[i] == short[i]);
                }
            }
        }
        if short.len() == 0 {
            assert(s@ =~= seq!['+']);
            assert(digits_value(short) == 0);
        }
    }
}

/// What is left of a text without the spaces at its end: it begins the text, does not end with a
/// space, and nothing but spaces follows it there.
pub proof fn only_trailing_spaces_go(s: &str, r: &str, i: int)
    requires
        call_ensures(trim_trailing_spaces, (s,), r),
        r@.len() <= i < s@.len(),
    ensures
        s@.take(r@.len() as int) == r@,
        r@.len() > 0 ==> r@.last() != ' ',
        s@[i] == ' ',
{
    lemma_trailing_spaces(s@, i);
}

/// A text and what is left of it without the spaces at its end.
proof fn lemma_trailing_spaces(s: Seq<char>, i: int)
    ensures
        without_trailing_spaces(s).len() <= s.len(),
        s.take(without_trailing_spaces(s).len() as int) == without_trailing_spaces(s),
        without_trailing_spaces(s).len() > 0 ==> without_trailing_spaces(s).last() != ' ',
        without_trailing_spaces(s).len() <= i < s.len() ==> s[i] == ' ',
    decreases s.len(),
{
    let left = without_trailing_spaces(s);
    if s.len() > 0 && s.last() == ' ' {
        lemma_trailing_spaces(s.drop_last(), i);
        assert(s.take(left.len() as int) =~= s.drop_last().take(left.len() as int));
    } else {
        assert(s.take(s.len() as int) =~= s);
    }
}

/// A text begins with another exactly if it is that followed by something.
pub proof fn prefix_is_followed_by_the_rest(s: &str, prefix: &str, r: bool)
    requires
        call_ensures(starts_with, (s, prefix), r),
    ensures
        r <==> exists|rest: Seq<char>| s@ == #[trigger] (prefix@ + rest),
{
    if r {
        assert(s@ =~= prefix@ + s@.skip(prefix@.len() as int));
    }
    if exists|rest: Seq<char>| s@ == #[trigger] (prefix@ + rest) {
        let rest = choose|rest: Seq<char>| s@ == #[trigger] (prefix@ + rest);
        assert(s@.subrange(0, prefix@.len() as int) =~= prefix@);
    }
}

/// What follows the last mark in a text: the text ends with it, it holds no mark, and a mark stands
/// right before it, unless it is the whole text.
pub proof fn tail_follows_the_last_mark(s: &str, mark: char, r: String)
    requires
        call_ensures(after_last, (s, mark), r),
    ensures
        !r@.contains(mark),
        exists|head: Seq<char>|
            s@ == #[trigger] (head + r@) && (head.len() > 0 ==> head.last() == mark),
{
    let head = s@.take(s@.len() - r@.len());
    assert(s@ =~= head + r@);
}

} // verus!
