//! Text as a sequence of characters: trimming, lines, joining and decimal
//! numerals, each given by a specification over `Seq<char>`.

use vstd::prelude::*;
use vstd::string::*;

verus! {

/// `String::push` of std: appends one character to the end of the string.
pub assume_specification[ String::push ](s: &mut String, c: char)
    ensures
        final(s)@ == old(s)@.push(c),
;

/// Whether a character has the Unicode property `White_Space`.
pub open spec fn white_space(c: char) -> bool {
    ||| '\u{9}' <= c <= '\u{d}'
    ||| c == ' '
    ||| c == '\u{85}'
    ||| c == '\u{a0}'
    ||| c == '\u{1680}'
    ||| '\u{2000}' <= c <= '\u{200a}'
    ||| c == '\u{2028}'
    ||| c == '\u{2029}'
    ||| c == '\u{202f}'
    ||| c == '\u{205f}'
    ||| c == '\u{3000}'
}

/// The text without its leading white space.
pub open spec fn trim_start(s: Seq<char>) -> Seq<char>
    decreases s.len(),
{
    if s.len() > 0 && white_space(s[0]) {
        trim_start(s.subrange(1, s.len() as int))
    } else {
        s
    }
}

/// The text without its trailing white space.
pub open spec fn trim_end(s: Seq<char>) -> Seq<char>
    decreases s.len(),
{
    if s.len() > 0 && white_space(s[s.len() - 1]) {
        trim_end(s.subrange(0, s.len() - 1))
    } else {
        s
    }
}

/// The text without white space at either end.
pub open spec fn trimmed(s: Seq<char>) -> Seq<char> {
    trim_end(trim_start(s))
}

/// Whether nothing but white space is in the text.
pub open spec fn blank(s: Seq<char>) -> bool {
    trimmed(s).len() == 0
}

/// The position of the first `c` at or after `from`, or the length of the text.
pub open spec fn find_char(s: Seq<char>, c: char, from: int) -> int
    decreases s.len() - from,
{
    if from < 0 || from >= s.len() {
        s.len() as int
    } else if s[from] == c {
        from
    } else {
        find_char(s, c, from + 1)
    }
}

/// One line without the carriage return that belonged to its line ending.
pub open spec fn without_cr(s: Seq<char>) -> Seq<char> {
    if s.len() > 0 && s[s.len() - 1] == '\r' {
        s.subrange(0, s.len() - 1)
    } else {
        s
    }
}

/// The lines from position `from` on: separated by `\n` or `\r\n`, which belong
/// to no line; a last line ending opens no further line.
pub open spec fn lines_from(s: Seq<char>, from: int) -> Seq<Seq<char>>
    decreases s.len() - from,
    when 0 <= from
    via lines_from_decreases
{
    if from >= s.len() {
        Seq::empty()
    } else {
        let end = find_char(s, '\n', from);
        if end >= s.len() {
            seq![s.subrange(from, s.len() as int)]
        } else {
            seq![without_cr(s.subrange(from, end))] + lines_from(s, end + 1)
        }
    }
}

#[via_fn]
proof fn lines_from_decreases(s: Seq<char>, from: int) {
    if from < s.len() {
        lemma_find_char(s, '\n', from);
    }
}

/// The lines of a text.
pub open spec fn lines(s: Seq<char>) -> Seq<Seq<char>> {
    lines_from(s, 0)
}

/// The parts in order, with the separator between neighbours.
pub open spec fn joined(parts: Seq<Seq<char>>, sep: Seq<char>) -> Seq<char>
    decreases parts.len(),
{
    if parts.len() == 0 {
        Seq::empty()
    } else if parts.len() == 1 {
        parts[0]
    } else {
        joined(parts.drop_last(), sep) + sep + parts.last()
    }
}

/// The parts in order, with nothing between them.
pub open spec fn concat(parts: Seq<Seq<char>>) -> Seq<char>
    decreases parts.len(),
{
    if parts.len() == 0 {
        Seq::empty()
    } else {
        concat(parts.drop_last()) + parts.last()
    }
}

/// The decimal digit of a number below ten.
pub open spec fn digit(d: nat) -> char {
    (('0' as int) + d) as char
}

/// The decimal numeral of a natural number, without leading zeros.
pub open spec fn decimal(n: nat) -> Seq<char>
    decreases n,
{
    if n < 10 {
        seq![digit(n)]
    } else {
        decimal(n / 10).push(digit(n % 10))
    }
}

/// The decimal numeral of an integer, with a minus sign when negative.
pub open spec fn decimal_int(n: int) -> Seq<char> {
    if n < 0 {
        seq!['-'] + decimal((-n) as nat)
    } else {
        decimal(n as nat)
    }
}

/// Whether every character is a decimal digit.
pub open spec fn all_digits(s: Seq<char>) -> bool {
    forall|i: int| 0 <= i < s.len() ==> '0' <= #[trigger] s[i] <= '9'
}

/// The number that a sequence of decimal digits stands for.
pub open spec fn digits_value(s: Seq<char>) -> nat
    decreases s.len(),
{
    if s.len() == 0 {
        0
    } else {
        digits_value(s.drop_last()) * 10 + ((s.last() as int) - ('0' as int)) as nat
    }
}

/// The digits of a numeral that may carry a leading plus sign.
pub open spec fn unsigned_digits(s: Seq<char>) -> Seq<char> {
    if s.len() > 0 && s[0] == '+' {
        s.subrange(1, s.len() as int)
    } else {
        s
    }
}

/// What a text reads as an unsigned 64-bit integer: an optional plus sign and
/// at least one digit, when the value fits.
pub open spec fn parsed_u64(s: Seq<char>) -> Option<u64> {
    let d = unsigned_digits(s);
    if d.len() > 0 && all_digits(d) && digits_value(d) <= u64::MAX {
        Some(digits_value(d) as u64)
    } else {
        None
    }
}

/// Whether the text begins with the prefix.
pub open spec fn begins_with(s: Seq<char>, prefix: Seq<char>) -> bool {
    prefix.len() <= s.len() && s.subrange(0, prefix.len() as int) == prefix
}

/// The order of two texts from position `from` on, character by character, a
/// text coming before its extensions: -1, 0 or 1.
pub open spec fn order_from(a: Seq<char>, b: Seq<char>, from: int) -> int
    decreases a.len() - from,
{
    if from < 0 || from >= a.len() {
        if from < b.len() {
            -1
        } else {
            0
        }
    } else if from >= b.len() {
        1
    } else if a[from] < b[from] {
        -1
    } else if a[from] > b[from] {
        1
    } else {
        order_from(a, b, from + 1)
    }
}

/// The order of two texts: negative when `a` comes first, zero when they are
/// the same, positive when `b` comes first.
pub open spec fn text_order(a: Seq<char>, b: Seq<char>) -> int {
    order_from(a, b, 0)
}

proof fn lemma_order_from(a: Seq<char>, b: Seq<char>, from: int)
    requires
        0 <= from <= a.len(),
        from <= b.len(),
        a.take(from) == b.take(from),
    ensures
        -1 <= order_from(a, b, from) <= 1,
        order_from(a, b, from) == 0 <==> a == b,
        order_from(b, a, from) == -order_from(a, b, from),
    decreases a.len() - from,
{
    if from >= a.len() || from >= b.len() {
        assert(a.len() == b.len() ==> a =~= b) by {
            if a.len() == b.len() {
                assert(a =~= a.take(from));
                assert(b =~= b.take(from));
            }
        }
    } else if a[from] == b[from] {
        assert(a.take(from + 1) =~= a.take(from).push(a[from]));
        assert(b.take(from + 1) =~= b.take(from).push(b[from]));
        lemma_order_from(a, b, from + 1);
    } else {
        assert(a != b);
    }
}

/// Two texts are the same exactly when neither comes first, and swapping them
/// swaps the order.
pub proof fn lemma_text_order(a: Seq<char>, b: Seq<char>)
    ensures
        -1 <= text_order(a, b) <= 1,
        text_order(a, b) == 0 <==> a == b,
        text_order(b, a) == -text_order(a, b),
{
    assert(a.take(0) =~= b.take(0));
    lemma_order_from(a, b, 0);
}

proof fn lemma_order_from_transitive(a: Seq<char>, b: Seq<char>, c: Seq<char>, from: int)
    requires
        0 <= from,
        order_from(a, b, from) < 0,
        order_from(b, c, from) < 0,
    ensures
        order_from(a, c, from) < 0,
    decreases a.len() - from,
{
    if from < a.len() && from < b.len() && from < c.len() {
        if a[from] == b[from] && b[from] == c[from] {
            lemma_order_from_transitive(a, b, c, from + 1);
        }
    }
}

/// The order of texts is transitive.
pub proof fn lemma_text_order_transitive(a: Seq<char>, b: Seq<char>, c: Seq<char>)
    requires
        text_order(a, b) < 0,
        text_order(b, c) < 0,
    ensures
        text_order(a, c) < 0,
{
    lemma_order_from_transitive(a, b, c, 0);
}

pub proof fn lemma_find_char(s: Seq<char>, c: char, from: int)
    requires
        0 <= from <= s.len(),
    ensures
        from <= find_char(s, c, from) <= s.len(),
        find_char(s, c, from) < s.len() ==> s[find_char(s, c, from)] == c,
        forall|i: int| from <= i < find_char(s, c, from) ==> s[i] != c,
    decreases s.len() - from,
{
    if from < s.len() && s[from] != c {
        lemma_find_char(s, c, from + 1);
    }
}

proof fn lemma_trim_start(s: Seq<char>)
    ensures
        trim_start(s).len() > 0 ==> !white_space(trim_start(s)[0]),
    decreases s.len(),
{
    if s.len() > 0 && white_space(s[0]) {
        lemma_trim_start(s.subrange(1, s.len() as int));
    }
}

proof fn lemma_trim_end(s: Seq<char>)
    ensures
        trim_end(s).len() > 0 ==> !white_space(trim_end(s).last()) && trim_end(s)[0] == s[0],
    decreases s.len(),
{
    if s.len() > 0 && white_space(s[s.len() - 1]) {
        lemma_trim_end(s.subrange(0, s.len() - 1));
    }
}

/// Trimmed text has no white space at either end.
pub proof fn lemma_trimmed(s: Seq<char>)
    ensures
        trimmed(s).len() > 0 ==> !white_space(trimmed(s)[0]) && !white_space(trimmed(s).last()),
{
    lemma_trim_start(s);
    lemma_trim_end(trim_start(s));
}

/// White space at the end of a text makes no difference to what is left of it.
pub proof fn lemma_trimmed_end(s: Seq<char>)
    requires
        s.len() > 0,
        white_space(s.last()),
    ensures
        trimmed(s) == trimmed(s.drop_last()),
    decreases s.len(),
{
    let short = s.drop_last();
    if white_space(s[0]) {
        let rest = s.subrange(1, s.len() as int);
        if s.len() > 1 {
            lemma_trimmed_end(rest);
            assert(rest.drop_last() =~= short.subrange(1, short.len() as int));
        } else {
            assert(rest =~= short);
            assert(short =~= Seq::<char>::empty());
        }
    } else {
        assert(s.subrange(0, s.len() - 1) =~= short);
    }
}

/// The lines of a text from behind a prefix on are those of what follows it.
pub proof fn lemma_lines_behind(prefix: Seq<char>, s: Seq<char>, from: int)
    requires
        0 <= from <= s.len(),
    ensures
        lines_from(prefix + s, prefix.len() + from) == lines_from(s, from),
    decreases s.len() - from,
{
    let whole = prefix + s;
    let n = prefix.len() as int;
    if from < s.len() {
        lemma_find_char(s, '\n', from);
        lemma_find_char(whole, '\n', n + from);
        let end = find_char(s, '\n', from);
        assert(find_char(whole, '\n', n + from) == n + end) by {
            let other = find_char(whole, '\n', n + from);
            if other < n + end {
                assert(whole[other] == s[other - n]);
            } else if other > n + end {
                assert(whole[n + end] == s[end]);
            }
        }
        if end < s.len() {
            assert(whole.subrange(n + from, n + end) =~= s.subrange(from, end));
            lemma_lines_behind(prefix, s, end + 1);
        } else {
            assert(whole.subrange(n + from, whole.len() as int) =~= s.subrange(
                from,
                s.len() as int,
            ));
        }
    }
}

/// The characters of a text.
pub fn chars_of(s: &str) -> (r: Vec<char>)
    ensures
        r@ == s@,
{
    let mut out: Vec<char> = Vec::new();
    for c in it: s.chars()
        invariant
            out@ == it.seq().take(it.index() as int),
            it.seq() == s@,
    {
        out.push(c);
    }
    out
}

/// The text made of the characters from `from` up to `to`.
pub fn text_of(chars: &Vec<char>, from: usize, to: usize) -> (r: String)
    requires
        from <= to <= chars@.len(),
    ensures
        r@ == chars@.subrange(from as int, to as int),
{
    let mut out = String::new();
    let mut i: usize = from;
    while i < to
        invariant
            from <= i <= to <= chars@.len(),
            out@ == chars@.subrange(from as int, i as int),
        decreases to - i,
    {
        out.push(chars[i]);
        i += 1;
    }
    out
}

/// The position of the first `c` at or after `from`, or the length.
pub fn position_of(chars: &Vec<char>, c: char, from: usize) -> (r: usize)
    requires
        from <= chars@.len(),
    ensures
        r == find_char(chars@, c, from as int),
        from <= r <= chars@.len(),
{
    let mut i: usize = from;
    while i < chars.len()
        invariant
            from <= i <= chars@.len(),
            find_char(chars@, c, from as int) == find_char(chars@, c, i as int),
        decreases chars@.len() - i,
    {
        if chars[i] == c {
            return i;
        }
        i += 1;
    }
    i
}

/// Whether two texts are the same.
pub fn same_text(a: &str, b: &str) -> (r: bool)
    ensures
        r == (a@ == b@),
{
    a.to_owned() == b.to_owned()
}

/// Decides `white_space`.
pub fn is_white_space(c: char) -> (r: bool)
    ensures
        r == white_space(c),
{
    ('\u{9}' <= c && c <= '\u{d}') || c == ' ' || c == '\u{85}' || c == '\u{a0}' || c == '\u{1680}'
        || ('\u{2000}' <= c && c <= '\u{200a}') || c == '\u{2028}' || c == '\u{2029}'
        || c == '\u{202f}' || c == '\u{205f}' || c == '\u{3000}'
}

/// The text without white space at either end.
pub fn trim(s: &str) -> (r: String)
    ensures
        r@ == trimmed(s@),
{
    let chars = chars_of(s);
    let n: usize = chars.len();
    let mut start: usize = 0;
    proof {
        assert(s@.subrange(0, n as int) =~= s@);
    }
    while start < n && is_white_space(chars[start])
        invariant
            start <= n == chars@.len(),
            chars@ == s@,
            trim_start(s@) == trim_start(s@.subrange(start as int, n as int)),
        decreases n - start,
    {
        proof {
            let rest = s@.subrange(start as int, n as int);
            assert(rest.subrange(1, rest.len() as int) =~= s@.subrange(start + 1, n as int));
        }
        start += 1;
    }
    let ghost body = s@.subrange(start as int, n as int);
    assert(trim_start(s@) == body);
    let mut end: usize = n;
    proof {
        assert(body.subrange(0, end - start) =~= body);
    }
    while end > start && is_white_space(chars[end - 1])
        invariant
            start <= end <= n == chars@.len(),
            chars@ == s@,
            body == s@.subrange(start as int, n as int),
            trim_end(body) == trim_end(body.subrange(0, end - start)),
        decreases end,
    {
        proof {
            let rest = body.subrange(0, end - start);
            assert(rest.subrange(0, rest.len() - 1) =~= body.subrange(0, end - start - 1));
        }
        end -= 1;
    }
    proof {
        assert(body.subrange(0, end - start) =~= s@.subrange(start as int, end as int));
    }
    text_of(&chars, start, end)
}

/// Whether nothing but white space is in the text.
pub fn is_blank(s: &str) -> (r: bool)
    ensures
        r == blank(s@),
{
    trim(s).as_str().is_empty()
}

/// The lines of a text.
pub fn split_lines(s: &str) -> (r: Vec<String>)
    ensures
        r.deep_view() == lines(s@),
{
    let chars = chars_of(s);
    let n: usize = chars.len();
    let mut out: Vec<String> = Vec::new();
    let mut from: usize = 0;
    while from < n
        invariant
            from <= n == chars@.len(),
            chars@ == s@,
            lines(s@) == out.deep_view() + lines_from(s@, from as int),
        decreases n - from,
    {
        let mut end: usize = from;
        while end < n && chars[end] != '\n'
            invariant
                from <= end <= n == chars@.len(),
                chars@ == s@,
                find_char(s@, '\n', from as int) == find_char(s@, '\n', end as int),
            decreases n - end,
        {
            end += 1;
        }
        let ghost before = out.deep_view();
        if end == n {
            let line = text_of(&chars, from, n);
            out.push(line);
            proof {
                assert(out.deep_view() =~= before.push(line@));
                assert(before + seq![line@] =~= before.push(line@));
                assert(lines_from(s@, n as int) =~= Seq::<Seq<char>>::empty());
            }
            from = n;
        } else {
            let stop: usize = if end > from && chars[end - 1] == '\r' { end - 1 } else { end };
            let line = text_of(&chars, from, stop);
            out.push(line);
            proof {
                let whole = s@.subrange(from as int, end as int);
                assert(whole.len() > 0 ==> whole[whole.len() - 1] == s@[end - 1]);
                assert(without_cr(whole) =~= s@.subrange(from as int, stop as int));
                assert(out.deep_view() =~= before.push(line@));
                assert(before + (seq![line@] + lines_from(s@, end + 1)) =~= before.push(line@)
                    + lines_from(s@, end + 1));
            }
            from = end + 1;
        }
    }
    proof {
        assert(lines_from(s@, from as int) =~= Seq::<Seq<char>>::empty());
        assert(out.deep_view() + Seq::<Seq<char>>::empty() =~= out.deep_view());
    }
    out
}

/// The parts in order, with the separator between neighbours.
pub fn join(parts: &Vec<String>, sep: &str) -> (r: String)
    ensures
        r@ == joined(parts.deep_view(), sep@),
{
    let mut out = String::new();
    let mut i: usize = 0;
    while i < parts.len()
        invariant
            i <= parts@.len(),
            out@ == joined(parts.deep_view().take(i as int), sep@),
        decreases parts@.len() - i,
    {
        if i > 0 {
            out.append(sep);
        }
        out.append(parts[i].as_str());
        proof {
            let all = parts.deep_view();
            assert(all.take(i + 1).drop_last() =~= all.take(i as int));
            assert(all.take(i + 1).last() == all[i as int]);
        }
        i += 1;
    }
    assert(parts.deep_view().take(i as int) =~= parts.deep_view());
    out
}

fn digit_char(d: u64) -> (r: char)
    requires
        d < 10,
    ensures
        r == digit(d as nat),
{
    match d {
        0 => '0',
        1 => '1',
        2 => '2',
        3 => '3',
        4 => '4',
        5 => '5',
        6 => '6',
        7 => '7',
        8 => '8',
        _ => '9',
    }
}

/// The decimal numeral of an unsigned integer.
pub fn u64_text(n: u64) -> (r: String)
    ensures
        r@ == decimal(n as nat),
    decreases n,
{
    let mut out = if n < 10 {
        String::new()
    } else {
        u64_text(n / 10)
    };
    out.push(digit_char(n % 10));
    assert(n < 10 ==> out@ =~= decimal(n as nat));
    out
}

/// The decimal numeral of a signed integer.
pub fn i64_text(n: i64) -> (r: String)
    ensures
        r@ == decimal_int(n as int),
{
    if n < 0 {
        let magnitude: u64 = (-(n as i128)) as u64;
        let mut out = String::new();
        out.push('-');
        out.append(u64_text(magnitude).as_str());
        assert(out@ =~= decimal_int(n as int));
        out
    } else {
        u64_text(n as u64)
    }
}

proof fn lemma_digits_value_prefix(s: Seq<char>, n: int)
    requires
        0 <= n <= s.len(),
        all_digits(s),
    ensures
        digits_value(s.take(n)) <= digits_value(s),
    decreases s.len() - n,
{
    if n < s.len() {
        assert(s.take(n + 1).drop_last() =~= s.take(n));
        assert('0' <= s[n] <= '9');
        assert(s.take(n + 1).last() == s[n]);
        lemma_digits_value_prefix(s, n + 1);
    } else {
        assert(s.take(n) =~= s);
    }
}

/// Reads an unsigned 64-bit integer.
pub fn parse_u64(s: &str) -> (r: Option<u64>)
    ensures
        r == parsed_u64(s@),
{
    let chars = chars_of(s);
    let n: usize = chars.len();
    let start: usize = if n > 0 && chars[0] == '+' { 1 } else { 0 };
    let ghost d = unsigned_digits(s@);
    assert(d =~= s@.subrange(start as int, n as int));
    if start == n {
        return None;
    }
    let mut value: u64 = 0;
    let mut i: usize = start;
    assert(d.take(0) =~= Seq::<char>::empty());
    while i < n
        invariant
            start <= i <= n == chars@.len(),
            chars@ == s@,
            d == unsigned_digits(s@),
            d == s@.subrange(start as int, n as int),
            d.len() > 0,
            forall|j: int| 0 <= j < i - start ==> '0' <= #[trigger] d[j] <= '9',
            value == digits_value(d.take(i - start)),
        decreases n - i,
    {
        let c = chars[i];
        assert(c == d[i - start]);
        if c < '0' || c > '9' {
            return None;
        }
        let v: u64 = (c as u32 - '0' as u32) as u64;
        proof {
            assert(d.take(i - start + 1).drop_last() =~= d.take(i - start));
            assert(d.take(i - start + 1).last() == c);
            if all_digits(d) {
                lemma_digits_value_prefix(d, i - start + 1);
            }
        }
        if value > (u64::MAX - v) / 10 {
            assert(digits_value(d.take(i - start + 1)) > u64::MAX);
            return None;
        }
        value = value * 10 + v;
        i += 1;
    }
    assert(d.take(i - start) =~= d);
    assert(all_digits(d));
    Some(value)
}

/// Whether the text begins with the prefix.
pub fn starts_with(s: &str, prefix: &str) -> (r: bool)
    ensures
        r == begins_with(s@, prefix@),
{
    let a = chars_of(s);
    let b = chars_of(prefix);
    if b.len() > a.len() {
        return false;
    }
    let mut i: usize = 0;
    while i < b.len()
        invariant
            i <= b@.len() <= a@.len(),
            a@ == s@,
            b@ == prefix@,
            forall|j: int| 0 <= j < i ==> a@[j] == b@[j],
        decreases b@.len() - i,
    {
        if a[i] != b[i] {
            assert(s@.subrange(0, prefix@.len() as int)[i as int] != prefix@[i as int]);
            return false;
        }
        i += 1;
    }
    assert(s@.subrange(0, prefix@.len() as int) =~= prefix@);
    true
}

/// What follows the prefix, when the text begins with it.
pub fn strip_prefix(s: &str, prefix: &str) -> (r: Option<String>)
    ensures
        match r {
            Some(rest) => begins_with(s@, prefix@) && rest@ == s@.skip(prefix@.len() as int),
            None => !begins_with(s@, prefix@),
        },
{
    if starts_with(s, prefix) {
        let chars = chars_of(s);
        let n: usize = chars.len();
        let k: usize = chars_of(prefix).len();
        let rest = text_of(&chars, k, n);
        assert(rest@ =~= s@.skip(k as int));
        Some(rest)
    } else {
        None
    }
}

/// The first `n` characters, or the whole text when it is shorter.
pub fn take_chars(s: &str, n: usize) -> (r: String)
    ensures
        r@ == (if s@.len() <= n { s@ } else { s@.take(n as int) }),
{
    let chars = chars_of(s);
    if chars.len() <= n {
        s.to_owned()
    } else {
        let head = text_of(&chars, 0, n);
        assert(head@ =~= s@.take(n as int));
        head
    }
}

/// The order of two texts.
pub fn order(a: &str, b: &str) -> (r: i8)
    ensures
        r == text_order(a@, b@),
{
    let x = chars_of(a);
    let y = chars_of(b);
    let mut i: usize = 0;
    while i < x.len() && i < y.len()
        invariant
            x@ == a@,
            y@ == b@,
            i <= x@.len(),
            i <= y@.len(),
            text_order(a@, b@) == order_from(a@, b@, i as int),
        decreases x@.len() - i,
    {
        if x[i] < y[i] {
            return -1;
        }
        if x[i] > y[i] {
            return 1;
        }
        i += 1;
    }
    if i < y.len() {
        -1
    } else if i < x.len() {
        1
    } else {
        0
    }
}

/// The first text followed by the second.
pub fn cat(a: &str, b: &str) -> (r: String)
    ensures
        r@ == a@ + b@,
{
    let mut out = a.to_owned();
    out.append(b);
    out
}

/// The three texts, one after the other.
pub fn cat3(a: &str, b: &str, c: &str) -> (r: String)
    ensures
        r@ == a@ + b@ + c@,
{
    let mut out = a.to_owned();
    out.append(b);
    out.append(c);
    out
}

/// A copy of a list of texts.
pub fn copy_texts(list: &Vec<String>) -> (r: Vec<String>)
    ensures
        r@ == list@,
{
    let mut out: Vec<String> = Vec::new();
    let mut i: usize = 0;
    while i < list.len()
        invariant
            i <= list@.len(),
            out@ == list@.take(i as int),
        decreases list@.len() - i,
    {
        out.push(list[i].clone());
        i += 1;
    }
    out
}

/// A copy of an optional text.
pub fn copy_text(text: &Option<String>) -> (r: Option<String>)
    ensures
        r == *text,
{
    match text {
        Some(t) => Some(t.clone()),
        None => None,
    }
}

/// Whether the part stands in the text at the position.
pub open spec fn part_at(s: Seq<char>, part: Seq<char>, i: int) -> bool {
    0 <= i && i + part.len() <= s.len() && s.subrange(i, i + part.len()) == part
}

/// Whether the part stands somewhere in the text.
pub open spec fn has_part(s: Seq<char>, part: Seq<char>) -> bool {
    exists|i: int| part_at(s, part, i)
}

/// Decides `has_part`.
pub fn contains_text(s: &str, part: &str) -> (r: bool)
    ensures
        r == has_part(s@, part@),
{
    let a = chars_of(s);
    let b = chars_of(part);
    if b.len() > a.len() {
        return false;
    }
    let last: usize = a.len() - b.len();
    let mut i: usize = 0;
    loop
        invariant
            a@ == s@,
            b@ == part@,
            last + b@.len() == a@.len(),
            a@.len() <= usize::MAX,
            i <= last,
            forall|j: int| 0 <= j < i ==> !part_at(s@, part@, j),
        decreases last - i,
    {
        let mut k: usize = 0;
        while k < b.len() && a[i + k] == b[k]
            invariant
                last + b@.len() == a@.len(),
                a@.len() <= usize::MAX,
                i <= last,
                k <= b@.len(),
                forall|j: int| 0 <= j < k ==> a@[i + j] == b@[j],
            decreases b@.len() - k,
        {
            k += 1;
        }
        if k == b.len() {
            assert(s@.subrange(i as int, i + part@.len()) =~= part@);
            assert(part_at(s@, part@, i as int));
            return true;
        }
        assert(!part_at(s@, part@, i as int)) by {
            if part_at(s@, part@, i as int) {
                assert(s@.subrange(i as int, i + part@.len())[k as int] == part@[k as int]);
            }
        }
        if i == last {
            assert forall|j: int| !part_at(s@, part@, j) by {
                if part_at(s@, part@, j) {
                    assert(j <= last);
                }
            }
            return false;
        }
        i += 1;
    }
}

/// What pairs of texts say: of two pairs with the same first text the later one
/// holds.
pub open spec fn text_map(pairs: Seq<(Seq<char>, Seq<char>)>) -> Map<Seq<char>, Seq<char>>
    decreases pairs.len(),
{
    if pairs.len() == 0 {
        Map::empty()
    } else {
        text_map(pairs.drop_last()).insert(pairs.last().0, pairs.last().1)
    }
}

/// What a map holds under a key.
pub open spec fn held(map: Map<Seq<char>, Seq<char>>, key: Seq<char>) -> Option<Seq<char>> {
    if map.dom().contains(key) {
        Some(map[key])
    } else {
        None
    }
}

/// Looks a key up among pairs of texts.
pub fn look_up(pairs: &Vec<(String, String)>, key: &str) -> (r: Option<String>)
    ensures
        r.deep_view() == held(text_map(pairs.deep_view()), key@),
{
    let ghost all = pairs.deep_view();
    let mut found: Option<String> = None;
    let mut i: usize = 0;
    assert(all.take(0) =~= Seq::<(Seq<char>, Seq<char>)>::empty());
    while i < pairs.len()
        invariant
            i <= pairs@.len(),
            all == pairs.deep_view(),
            found.deep_view() == held(text_map(all.take(i as int)), key@),
        decreases pairs@.len() - i,
    {
        proof {
            assert(all.take(i + 1).drop_last() =~= all.take(i as int));
            assert(all.take(i + 1).last() == (pairs@[i as int].0@, pairs@[i as int].1@));
        }
        if same_text(pairs[i].0.as_str(), key) {
            found = Some(pairs[i].1.clone());
        }
        i += 1;
    }
    assert(all.take(i as int) =~= all);
    found
}

/// Adds a pair of texts.
pub fn add_pair(pairs: &mut Vec<(String, String)>, key: String, value: String)
    ensures
        text_map(final(pairs).deep_view()) == text_map(old(pairs).deep_view()).insert(key@, value@),
        final(pairs)@.len() == old(pairs)@.len() + 1,
{
    let ghost before = pairs.deep_view();
    pairs.push((key, value));
    assert(pairs.deep_view().drop_last() =~= before);
    assert(pairs.deep_view().last() == (key@, value@));
}

proof fn lemma_decimal_digits(n: nat)
    ensures
        decimal(n).len() > 0,
        all_digits(decimal(n)),
        digits_value(decimal(n)) == n,
    decreases n,
{
    if n >= 10 {
        lemma_decimal_digits(n / 10);
        let d = decimal(n);
        assert(d.drop_last() =~= decimal(n / 10));
        assert forall|i: int| 0 <= i < d.len() implies '0' <= #[trigger] d[i] <= '9' by {
            if i < d.len() - 1 {
                assert(d[i] == decimal(n / 10)[i]);
            }
        }
    } else {
        let d = decimal(n);
        assert(d.drop_last() =~= Seq::<char>::empty());
        assert(digits_value(d.drop_last()) == 0);
        assert(d.last() == digit(n));
    }
}

/// The numeral of a number is read back as that number.
pub proof fn law_numerals_are_read_back(n: u64)
    ensures
        parsed_u64(decimal(n as nat)) == Some(n),
        decimal(n as nat)[0] != '+',
{
    lemma_decimal_digits(n as nat);
    assert('0' <= decimal(n as nat)[0] <= '9');
}

proof fn lemma_trim_start_at(s: Seq<char>)
    ensures
        trim_start(s).len() <= s.len(),
        trim_start(s) == s.skip(s.len() - trim_start(s).len()),
        forall|i: int| 0 <= i < s.len() - trim_start(s).len() ==> white_space(#[trigger] s[i]),
    decreases s.len(),
{
    if s.len() > 0 && white_space(s[0]) {
        let rest = s.subrange(1, s.len() as int);
        lemma_trim_start_at(rest);
        assert forall|i: int| 0 <= i < s.len() - trim_start(s).len() implies white_space(
            #[trigger] s[i],
        ) by {
            if i > 0 {
                assert(s[i] == rest[i - 1]);
            }
        }
    }
    assert(trim_start(s) =~= s.skip(s.len() - trim_start(s).len()));
}

proof fn lemma_trim_end_at(s: Seq<char>)
    ensures
        trim_end(s).len() <= s.len(),
        trim_end(s) == s.take(trim_end(s).len() as int),
        forall|i: int| trim_end(s).len() <= i < s.len() ==> white_space(#[trigger] s[i]),
    decreases s.len(),
{
    if s.len() > 0 && white_space(s[s.len() - 1]) {
        let rest = s.subrange(0, s.len() - 1);
        lemma_trim_end_at(rest);
        assert forall|i: int| trim_end(s).len() <= i < s.len() implies white_space(
            #[trigger] s[i],
        ) by {
            if i < s.len() - 1 {
                assert(s[i] == rest[i]);
            }
        }
    }
    assert(trim_end(s) =~= s.take(trim_end(s).len() as int));
}

/// Trimming takes white space from both ends, all of it, and nothing else.
pub proof fn law_trimming_takes_white_space(s: Seq<char>)
    ensures
        exists|a: int, b: int|
            0 <= a <= b <= s.len() && #[trigger] s.subrange(a, b) == trimmed(s) && (forall|i: int|
                0 <= i < a || b <= i < s.len() ==> white_space(#[trigger] s[i])),
        trimmed(s).len() > 0 ==> !white_space(trimmed(s)[0]) && !white_space(trimmed(s).last()),
{
    lemma_trimmed(s);
    lemma_trim_start_at(s);
    let left = trim_start(s);
    lemma_trim_end_at(left);
    let a = s.len() - left.len();
    let b = a + trimmed(s).len();
    assert forall|i: int| 0 <= i < a || b <= i < s.len() implies white_space(#[trigger] s[i]) by {
        if i >= b {
            assert(left[i - a] == s[i]);
        }
    }
    assert(s.subrange(a, b) =~= trimmed(s));
}

/// A text is blank when it has nothing but white space, and only then.
pub proof fn law_blank_texts_are_white_space(s: Seq<char>)
    ensures
        blank(s) <==> (forall|i: int| 0 <= i < s.len() ==> white_space(#[trigger] s[i])),
{
    law_trimming_takes_white_space(s);
    let (a, b) = choose|a: int, b: int|
        0 <= a <= b <= s.len() && #[trigger] s.subrange(a, b) == trimmed(s) && (forall|i: int|
            0 <= i < a || b <= i < s.len() ==> white_space(#[trigger] s[i]));
    if b > a {
        assert(s[a] == trimmed(s)[0]);
    }
}

/// A line ends at a line break, which belongs to no line, and neither does a carriage
/// return before it. What follows the last line break is a line unless it is empty.
pub proof fn law_lines_end_at_line_breaks(line: Seq<char>, rest: Seq<char>)
    requires
        forall|i: int| 0 <= i < line.len() ==> #[trigger] line[i] != '\n',
    ensures
        lines(Seq::empty()).len() == 0,
        line.len() > 0 ==> lines(line) == seq![line],
        (line.len() == 0 || line.last() != '\r') ==> lines(line + seq!['\n'] + rest) == seq![line]
            + lines(rest),
        lines(line + seq!['\r', '\n'] + rest) == seq![line] + lines(rest),
{
    lemma_find_char(line, '\n', 0);
    if line.len() > 0 {
        assert(line.subrange(0, line.len() as int) =~= line);
        assert(lines(line) =~= seq![line]);
    }
    lemma_line(line, rest);
    let marked = line.push('\r');
    assert forall|i: int| 0 <= i < marked.len() implies #[trigger] marked[i] != '\n' by {
        if i < line.len() {
            assert(line[i] != '\n');
        }
    }
    lemma_line(marked, rest);
    assert(marked + seq!['\n'] + rest =~= line + seq!['\r', '\n'] + rest);
    assert(marked.subrange(0, marked.len() - 1) =~= line);
}

proof fn lemma_line(line: Seq<char>, rest: Seq<char>)
    requires
        forall|i: int| 0 <= i < line.len() ==> #[trigger] line[i] != '\n',
    ensures
        lines(line + seq!['\n'] + rest) == seq![without_cr(line)] + lines(rest),
{
    let head = line + seq!['\n'];
    let all = head + rest;
    let n = line.len() as int;
    assert(all[n] == '\n');
    lemma_find_char(all, '\n', 0);
    let end = find_char(all, '\n', 0);
    assert(end == n) by {
        if end < n {
            assert(all[end] == line[end]);
        }
    }
    lemma_lines_behind(head, rest, 0);
    assert(all.subrange(0, n) =~= line);
}

/// Parts are joined in their order, with the separator between two of them and nowhere
/// else.
pub proof fn law_parts_are_joined_in_order(parts: Seq<Seq<char>>, part: Seq<char>, sep: Seq<char>)
    ensures
        joined(Seq::empty(), sep).len() == 0,
        joined(seq![part], sep) == part,
        parts.len() > 0 ==> joined(parts.push(part), sep) == joined(parts, sep) + sep + part,
        concat(parts.push(part)) == concat(parts) + part,
        concat(Seq::empty()).len() == 0,
{
    assert(parts.push(part).drop_last() =~= parts);
}

/// A text begins with its own beginning, and is the beginning and the rest.
pub proof fn law_texts_begin_with_their_beginnings(
    prefix: Seq<char>,
    rest: Seq<char>,
    s: Seq<char>,
)
    ensures
        begins_with(prefix + rest, prefix),
        (prefix + rest).skip(prefix.len() as int) == rest,
        begins_with(s, prefix) ==> s == prefix + s.skip(prefix.len() as int),
{
    assert((prefix + rest).subrange(0, prefix.len() as int) =~= prefix);
    assert((prefix + rest).skip(prefix.len() as int) =~= rest);
    if begins_with(s, prefix) {
        assert(s =~= s.subrange(0, prefix.len() as int) + s.skip(prefix.len() as int));
    }
}

proof fn lemma_order_behind(start: Seq<char>, a: Seq<char>, b: Seq<char>, from: int)
    requires
        0 <= from <= start.len(),
    ensures
        order_from(start + a, start + b, from) == order_from(
            start + a,
            start + b,
            start.len() as int,
        ),
    decreases start.len() - from,
{
    if from < start.len() {
        assert((start + a)[from] == (start + b)[from]);
        lemma_order_behind(start, a, b, from + 1);
    }
}

/// Of two texts that first differ in a character the one with the lesser character
/// comes first, and a text comes before its continuations.
pub proof fn law_texts_are_ordered_by_their_first_difference(
    start: Seq<char>,
    a: char,
    b: char,
    after_a: Seq<char>,
    after_b: Seq<char>,
)
    ensures
        a < b ==> text_order(start + (seq![a] + after_a), start + (seq![b] + after_b)) < 0,
        text_order(start, start + (seq![b] + after_b)) < 0,
        text_order(start, start) == 0,
        text_order(start + (seq![b] + after_b), start) > 0,
{
    let x = seq![a] + after_a;
    let y = seq![b] + after_b;
    let none = Seq::<char>::empty();
    lemma_order_behind(start, x, y, 0);
    lemma_order_behind(start, none, y, 0);
    assert(start + none =~= start);
    assert((start + x)[start.len() as int] == a);
    assert((start + y)[start.len() as int] == b);
    lemma_text_order(start, start);
    lemma_text_order(start, start + y);
}

/// The later of two pairs with the same key holds, and other keys keep what they have.
pub proof fn law_later_pairs_hold(
    pairs: Seq<(Seq<char>, Seq<char>)>,
    key: Seq<char>,
    value: Seq<char>,
    other: Seq<char>,
)
    ensures
        held(text_map(pairs.push((key, value))), key) == Some(value),
        other != key ==> held(text_map(pairs.push((key, value))), other) == held(
            text_map(pairs),
            other,
        ),
        held(text_map(Seq::empty()), key) is None,
{
    assert(pairs.push((key, value)).drop_last() =~= pairs);
}

} // verus!
