//! Text handled as sequences of characters: trimming, splitting, joining,
//! decimal numerals and the order of strings.

use vstd::prelude::*;

verus! {

/// `String::push`: appends one character to the end of the string.
pub assume_specification[ String::push ](s: &mut String, ch: char)
    ensures
        final(s)@ == old(s)@.push(ch),
;

// ==================== Characters ====================

/// The code point of a character.
pub fn code_point(c: char) -> (n: u32)
    ensures
        n == c as int,
{
    c as u32
}

/// The characters with the Unicode property `White_Space`.
pub open spec fn is_white_space(c: char) -> bool {
    let n = c as int;
    ||| 0x09 <= n <= 0x0d
    ||| n == 0x20
    ||| n == 0x85
    ||| n == 0xa0
    ||| n == 0x1680
    ||| 0x2000 <= n <= 0x200a
    ||| n == 0x2028
    ||| n == 0x2029
    ||| n == 0x202f
    ||| n == 0x205f
    ||| n == 0x3000
}

/// Whether a character is white space.
pub fn white_space(c: char) -> (r: bool)
    ensures
        r == is_white_space(c),
{
    let n: u32 = code_point(c);
    (0x09 <= n && n <= 0x0d) || n == 0x20 || n == 0x85 || n == 0xa0 || n == 0x1680 || (0x2000 <= n
        && n <= 0x200a) || n == 0x2028 || n == 0x2029 || n == 0x202f || n == 0x205f || n == 0x3000
}

/// The control characters: Unicode general category `Cc`.
pub open spec fn is_control_char(c: char) -> bool {
    let n = c as int;
    n <= 0x1f || 0x7f <= n <= 0x9f
}

/// Whether a character is a control character.
pub fn control_char(c: char) -> (r: bool)
    ensures
        r == is_control_char(c),
{
    let n: u32 = code_point(c);
    n <= 0x1f || (0x7f <= n && n <= 0x9f)
}

/// Carriage return and line feed.
pub open spec fn is_line_end(c: char) -> bool {
    c == '\r' || c == '\n'
}

// ==================== Building ====================

/// The characters of `text`, in order.
pub fn to_chars(text: &str) -> (chars: Vec<char>)
    ensures
        chars@ == text@,
{
    let mut chars: Vec<char> = Vec::new();
    for c in it: text.chars()
        invariant
            chars@ == it.seq().take(it.index() as int),
            it.seq() == text@,
    {
        chars.push(c);
    }
    chars
}

/// The string of the given characters.
pub fn from_chars(chars: &Vec<char>) -> (text: String)
    ensures
        text@ == chars@,
{
    let mut text = String::new();
    let mut i: usize = 0;
    while i < chars.len()
        invariant
            i <= chars.len(),
            text@ == chars@.take(i as int),
        decreases chars.len() - i,
    {
        text.push(chars[i]);
        i += 1;
    }
    assert(chars@.take(i as int) == chars@);
    text
}

/// The three texts one after the other.
pub fn concat3(a: &str, b: &str, c: &str) -> (text: String)
    ensures
        text@ == a@ + b@ + c@,
{
    let mut text = a.to_string();
    text.append(b);
    text.append(c);
    text
}

/// The two texts one after the other.
pub fn concat2(a: &str, b: &str) -> (text: String)
    ensures
        text@ == a@ + b@,
{
    let mut text = a.to_string();
    text.append(b);
    text
}

/// Whether two texts hold the same characters.
pub fn same_text(a: &str, b: &str) -> (r: bool)
    ensures
        r == (a@ == b@),
{
    a.to_string() == b.to_string()
}

/// A copy of a list of strings.
pub fn copy_list(list: &Vec<String>) -> (r: Vec<String>)
    ensures
        r.deep_view() == list.deep_view(),
{
    let mut r: Vec<String> = Vec::new();
    let mut i: usize = 0;
    while i < list.len()
        invariant
            i <= list.len(),
            r.deep_view() == list.deep_view().take(i as int),
        decreases list.len() - i,
    {
        let ghost before = r.deep_view();
        r.push(list[i].clone());
        assert(r.deep_view() =~= before.push(list@[i as int]@));
        assert(r.deep_view() =~= list.deep_view().take(i + 1));
        i += 1;
    }
    assert(list.deep_view().take(i as int) =~= list.deep_view());
    r
}

/// A copy of an optional string.
pub fn copy_option(text: &Option<String>) -> (r: Option<String>)
    ensures
        r.deep_view() == text.deep_view(),
{
    match text {
        Some(text) => Some(text.clone()),
        None => None,
    }
}

/// What a value becomes as an owned text.
pub trait IntoText: Sized {
    /// The characters of the text.
    spec fn text(self) -> Seq<char>;

    /// The owned text.
    fn into_text(self) -> (r: String)
        ensures
            r@ == self.text(),
    ;
}

impl IntoText for String {
    open spec fn text(self) -> Seq<char> {
        self@
    }

    fn into_text(self) -> (r: String) {
        self
    }
}

impl<'a> IntoText for &'a str {
    open spec fn text(self) -> Seq<char> {
        self@
    }

    fn into_text(self) -> (r: String) {
        self.to_string()
    }
}

// ==================== Trimming ====================

/// `s` without the longest prefix of characters that `dropped` holds of.
pub open spec fn strip_front(s: Seq<char>, dropped: spec_fn(char) -> bool) -> Seq<char>
    decreases s.len(),
{
    if s.len() > 0 && dropped(s[0]) {
        strip_front(s.drop_first(), dropped)
    } else {
        s
    }
}

/// `s` without the longest suffix of characters that `dropped` holds of.
pub open spec fn strip_back(s: Seq<char>, dropped: spec_fn(char) -> bool) -> Seq<char>
    decreases s.len(),
{
    if s.len() > 0 && dropped(s.last()) {
        strip_back(s.drop_last(), dropped)
    } else {
        s
    }
}

/// `s` without leading and trailing white space.
pub open spec fn trimmed(s: Seq<char>) -> Seq<char> {
    strip_back(strip_front(s, |c: char| is_white_space(c)), |c: char| is_white_space(c))
}

/// `text` without leading and trailing white space.
pub fn trim(text: &str) -> (r: &str)
    ensures
        r@ == trimmed(text@),
{
    let chars = to_chars(text);
    let ghost ws = |c: char| is_white_space(c);
    let mut lo: usize = 0;
    assert(text@.skip(0) == text@);
    while lo < chars.len() && white_space(chars[lo])
        invariant
            lo <= chars.len(),
            chars@ == text@,
            ws == (|c: char| is_white_space(c)),
            strip_front(text@, ws) == strip_front(text@.skip(lo as int), ws),
        decreases chars.len() - lo,
    {
        assert(text@.skip(lo as int).drop_first() == text@.skip(lo + 1));
        lo += 1;
    }
    assert(strip_front(text@, ws) == text@.skip(lo as int));
    let mut hi: usize = chars.len();
    assert(text@.subrange(lo as int, hi as int) == text@.skip(lo as int));
    while hi > lo && white_space(chars[hi - 1])
        invariant
            lo <= hi <= chars.len(),
            chars@ == text@,
            ws == (|c: char| is_white_space(c)),
            trimmed(text@) == strip_back(text@.subrange(lo as int, hi as int), ws),
        decreases hi,
    {
        assert(text@.subrange(lo as int, hi as int).drop_last() == text@.subrange(
            lo as int,
            hi - 1,
        ));
        hi -= 1;
    }
    text.substring_char(lo, hi)
}

/// `text` without its trailing carriage returns and line feeds.
pub fn trim_line_end(text: &str) -> (r: &str)
    ensures
        r@ == strip_back(text@, |c: char| is_line_end(c)),
{
    let chars = to_chars(text);
    let ghost eol = |c: char| is_line_end(c);
    let mut hi: usize = chars.len();
    assert(text@.take(hi as int) == text@);
    while hi > 0 && (chars[hi - 1] == '\r' || chars[hi - 1] == '\n')
        invariant
            hi <= chars.len(),
            chars@ == text@,
            eol == (|c: char| is_line_end(c)),
            strip_back(text@, eol) == strip_back(text@.take(hi as int), eol),
        decreases hi,
    {
        assert(text@.take(hi as int).drop_last() == text@.take(hi - 1));
        hi -= 1;
    }
    assert(text@.take(hi as int) == text@.subrange(0, hi as int));
    text.substring_char(0, hi)
}

// ==================== Replacing ====================

/// `s` with every `from` turned into `to`.
pub open spec fn replaced(s: Seq<char>, from: char, to: char) -> Seq<char> {
    s.map_values(|c: char| if c == from { to } else { c })
}

/// `text` with every `from` turned into `to`.
pub fn replace_char(text: &str, from: char, to: char) -> (r: String)
    ensures
        r@ == replaced(text@, from, to),
{
    let chars = to_chars(text);
    let mut out = String::new();
    let mut i: usize = 0;
    while i < chars.len()
        invariant
            i <= chars.len(),
            out@ == replaced(chars@, from, to).take(i as int),
        decreases chars.len() - i,
    {
        let c = chars[i];
        out.push(if c == from { to } else { c });
        i += 1;
    }
    assert(replaced(chars@, from, to).take(i as int) == replaced(chars@, from, to));
    out
}

// ==================== Splitting ====================

/// The place of the first `c` in `s`, and `s.len()` where there is none.
pub open spec fn first_index(s: Seq<char>, c: char) -> int
    decreases s.len(),
{
    if s.len() == 0 || s[0] == c {
        0
    } else {
        1 + first_index(s.drop_first(), c)
    }
}

/// What `first_index` is: the only place with no `c` before it and a `c`, or
/// the end, at it.
pub proof fn lemma_first_index(s: Seq<char>, c: char, i: int)
    requires
        0 <= i <= s.len(),
        forall|j: int| 0 <= j < i ==> s[j] != c,
        i < s.len() ==> s[i] == c,
    ensures
        first_index(s, c) == i,
    decreases s.len(),
{
    if s.len() > 0 && i > 0 {
        assert(s[0] != c);
        assert forall|j: int| 0 <= j < i - 1 implies s.drop_first()[j] != c by {
            assert(s.drop_first()[j] == s[j + 1]);
        }
        lemma_first_index(s.drop_first(), c, i - 1);
    }
}

/// The bounds of `first_index`.
pub proof fn lemma_first_index_bounds(s: Seq<char>, c: char)
    ensures
        0 <= first_index(s, c) <= s.len(),
        first_index(s, c) < s.len() ==> s[first_index(s, c)] == c,
        forall|j: int| 0 <= j < first_index(s, c) ==> s[j] != c,
    decreases s.len(),
{
    if s.len() > 0 && s[0] != c {
        lemma_first_index_bounds(s.drop_first(), c);
        let n = first_index(s.drop_first(), c);
        assert forall|j: int| 0 <= j < n + 1 implies s[j] != c by {
            if j > 0 {
                assert(s.drop_first()[j - 1] == s[j]);
            }
        }
    }
}

/// The place of the first `c` in `chars`, and its length where there is none.
pub fn find_char(chars: &Vec<char>, c: char) -> (i: usize)
    ensures
        i == first_index(chars@, c),
        i <= chars.len(),
{
    let mut i: usize = 0;
    while i < chars.len() && chars[i] != c
        invariant
            i <= chars.len(),
            forall|j: int| 0 <= j < i ==> chars@[j] != c,
        decreases chars.len() - i,
    {
        i += 1;
    }
    proof {
        lemma_first_index(chars@, c, i as int);
    }
    i
}

/// A line without the carriage return of its line ending.
pub open spec fn without_cr(s: Seq<char>) -> Seq<char> {
    if s.len() > 0 && s.last() == '\r' {
        s.drop_last()
    } else {
        s
    }
}

/// The lines of `s`: each ends in a line feed, or in a carriage return and a
/// line feed, which are no part of it; the last ending may be missing.
pub open spec fn lines_of(s: Seq<char>) -> Seq<Seq<char>>
    decreases s.len(),
{
    let i = first_index(s, '\n');
    if s.len() == 0 {
        Seq::empty()
    } else if i == s.len() {
        seq![s]
    } else {
        proof {
            lemma_first_index_bounds(s, '\n');
        }
        seq![without_cr(s.take(i))] + lines_of(s.skip(i + 1))
    }
}

/// The first line of a text, set off by its line feed.
proof fn lemma_lines_step(line: Seq<char>, rest: Seq<char>)
    requires
        forall|j: int| 0 <= j < line.len() ==> line[j] != '\n',
    ensures
        lines_of(line + seq!['\n'] + rest) == seq![without_cr(line)] + lines_of(rest),
{
    let s = line + seq!['\n'] + rest;
    let i = line.len() as int;
    lemma_first_index(s, '\n', i);
    lemma_first_index_bounds(rest, '\n');
    assert(s.take(i) == line);
    assert(s.skip(i + 1) == rest);
}

/// A text without a line feed is one line, or none where it is empty.
proof fn lemma_lines_last(line: Seq<char>)
    requires
        forall|j: int| 0 <= j < line.len() ==> line[j] != '\n',
    ensures
        line.len() == 0 ==> lines_of(line) == Seq::<Seq<char>>::empty(),
        line.len() > 0 ==> lines_of(line) == seq![line],
{
    lemma_first_index(line, '\n', line.len() as int);
}

/// The lines of `text`.
pub fn lines(text: &str) -> (r: Vec<String>)
    ensures
        r.deep_view() == lines_of(text@),
{
    let chars = to_chars(text);
    let mut out: Vec<String> = Vec::new();
    let mut line: Vec<char> = Vec::new();
    let mut i: usize = 0;
    assert(line@ + chars@.skip(0) == chars@);
    assert(out.deep_view() + lines_of(chars@) == lines_of(chars@));
    while i < chars.len()
        invariant
            i <= chars.len(),
            forall|j: int| 0 <= j < line@.len() ==> line@[j] != '\n',
            lines_of(chars@) == out.deep_view() + lines_of(line@ + chars@.skip(i as int)),
        decreases chars.len() - i,
    {
        let c = chars[i];
        let ghost rest = chars@.skip(i + 1);
        if c == '\n' {
            let ghost whole = line@;
            let ghost before = out.deep_view();
            assert(line@ + chars@.skip(i as int) == whole + seq!['\n'] + rest);
            proof {
                lemma_lines_step(whole, rest);
            }
            if line.len() > 0 && line[line.len() - 1] == '\r' {
                line.pop();
                assert(line@ == whole.drop_last());
            }
            assert(line@ == without_cr(whole));
            out.push(from_chars(&line));
            assert(out.deep_view() == before.push(without_cr(whole)));
            line = Vec::new();
            assert(line@ + rest == rest);
            assert(before + (seq![without_cr(whole)] + lines_of(rest)) == before.push(
                without_cr(whole),
            ) + lines_of(rest));
        } else {
            let ghost whole = line@;
            line.push(c);
            assert(whole + chars@.skip(i as int) == line@ + rest);
        }
        i += 1;
    }
    assert(line@ + chars@.skip(i as int) == line@);
    proof {
        lemma_lines_last(line@);
    }
    if line.len() > 0 {
        let ghost before = out.deep_view();
        out.push(from_chars(&line));
        assert(out.deep_view() == before + seq![line@]);
    }
    out
}

// ==================== Decimal numerals ====================

/// The decimal digit `d`.
pub open spec fn digit_char(d: nat) -> char {
    (('0' as int) + d) as char
}

/// The decimal numeral of `n`, without leading zeros.
pub open spec fn decimal(n: nat) -> Seq<char>
    decreases n,
{
    if n < 10 {
        seq![digit_char(n)]
    } else {
        decimal(n / 10).push(digit_char(n % 10))
    }
}

/// The decimal digit `d`.
fn digit(d: u8) -> (c: char)
    requires
        d < 10,
    ensures
        c == digit_char(d as nat),
{
    (48u8 + d) as char
}

/// Appends the decimal numeral of `n`.
pub fn push_decimal(out: &mut String, n: u128)
    ensures
        final(out)@ == old(out)@ + decimal(n as nat),
    decreases n,
{
    if n >= 10 {
        push_decimal(out, n / 10);
    }
    out.push(digit((n % 10) as u8));
}

/// The decimal numeral of `n`.
pub fn decimal_text(n: u128) -> (text: String)
    ensures
        text@ == decimal(n as nat),
{
    let mut text = String::new();
    push_decimal(&mut text, n);
    assert(Seq::<char>::empty() + decimal(n as nat) == decimal(n as nat));
    text
}

/// Whether `c` is an ASCII decimal digit.
pub open spec fn is_digit(c: char) -> bool {
    '0' as int <= c as int <= '9' as int
}

/// Whether `s` is one or more decimal digits.
pub open spec fn is_numeral(s: Seq<char>) -> bool {
    s.len() > 0 && forall|i: int| 0 <= i < s.len() ==> is_digit(#[trigger] s[i])
}

/// The number that the digits of `s` stand for.
pub open spec fn numeral_value(s: Seq<char>) -> nat
    decreases s.len(),
{
    if s.len() == 0 {
        0
    } else {
        numeral_value(s.drop_last()) * 10 + (s.last() as int - '0' as int) as nat
    }
}

/// The digits of a numeral that may start with a plus sign.
pub open spec fn unsigned_digits(s: Seq<char>) -> Seq<char> {
    if s.len() > 0 && s[0] == '+' {
        s.drop_first()
    } else {
        s
    }
}

/// The `usize` that `s` is written for: decimal digits, with a plus sign or
/// without, of a value in range.
pub open spec fn parsed_usize(s: Seq<char>) -> Option<usize> {
    let digits = unsigned_digits(s);
    if is_numeral(digits) && numeral_value(digits) <= usize::MAX {
        Some(numeral_value(digits) as usize)
    } else {
        None
    }
}

/// A longer numeral is no smaller than its front.
proof fn lemma_numeral_grows(s: Seq<char>, i: int)
    requires
        0 <= i <= s.len(),
    ensures
        numeral_value(s.take(i)) <= numeral_value(s),
    decreases s.len(),
{
    if i == s.len() {
        assert(s.take(i) == s);
    } else {
        lemma_numeral_grows(s.drop_last(), i);
        assert(s.drop_last().take(i) == s.take(i));
    }
}

/// Reads `chars` as a `usize`.
pub fn parse_usize(chars: &Vec<char>) -> (r: Option<usize>)
    ensures
        r == parsed_usize(chars@),
{
    let mut i: usize = 0;
    if chars.len() > 0 && chars[0] == '+' {
        i = 1;
    }
    let start: usize = i;
    let ghost digits = unsigned_digits(chars@);
    assert(digits == chars@.skip(start as int));
    if i == chars.len() {
        return None;
    }
    let mut value: usize = 0;
    assert(digits.take(0).len() == 0);
    while i < chars.len()
        invariant
            start <= i <= chars.len(),
            start < chars.len(),
            digits == chars@.skip(start as int),
            digits == unsigned_digits(chars@),
            value == numeral_value(digits.take(i - start)),
            forall|j: int| 0 <= j < i - start ==> is_digit(#[trigger] digits[j]),
        decreases chars.len() - i,
    {
        let n: u32 = code_point(chars[i]);
        assert(digits[i - start] == chars@[i as int]);
        if n < 48 || n > 57 {
            assert(!is_digit(digits[i - start]));
            return None;
        }
        let d: usize = (n - 48) as usize;
        proof {
            assert(digits.take(i - start + 1).drop_last() == digits.take(i - start));
            lemma_numeral_grows(digits, i - start + 1);
            assert(numeral_value(digits.take(i - start + 1)) == value * 10 + d);
        }
        if value > (usize::MAX - d) / 10 {
            return None;
        }
        value = value * 10 + d;
        i += 1;
    }
    assert(digits.take(i - start) == digits);
    Some(value)
}

/// Reading a number back: the numeral of a `usize` parses to that number.
pub proof fn law_decimal_parses_back(n: usize)
    ensures
        parsed_usize(decimal(n as nat)) == Some(n),
{
    lemma_decimal_value(n as nat);
    lemma_decimal_has_no_sign(n as nat);
}

/// The digits of a numeral and their value.
pub proof fn lemma_decimal_value(n: nat)
    ensures
        is_numeral(decimal(n)),
        numeral_value(decimal(n)) == n,
    decreases n,
{
    reveal_with_fuel(numeral_value, 2);
    if n >= 10 {
        lemma_decimal_value(n / 10);
        assert(decimal(n).drop_last() == decimal(n / 10));
        assert forall|i: int| 0 <= i < decimal(n).len() implies is_digit(
            #[trigger] decimal(n)[i],
        ) by {
            if i < decimal(n / 10).len() {
                assert(decimal(n)[i] == decimal(n / 10)[i]);
            }
        }
    } else {
        assert(decimal(n).drop_last().len() == 0);
    }
}

/// A numeral starts with a digit.
proof fn lemma_decimal_has_no_sign(n: nat)
    ensures
        unsigned_digits(decimal(n)) == decimal(n),
{
    lemma_decimal_value(n);
    assert(is_digit(decimal(n)[0]));
}

// ==================== The order of strings ====================

/// Whether `a` comes before `b` in the order of code points.
pub open spec fn text_less(a: Seq<char>, b: Seq<char>) -> bool
    decreases a.len(),
{
    if b.len() == 0 {
        false
    } else if a.len() == 0 {
        true
    } else if a[0] != b[0] {
        (a[0] as int) < (b[0] as int)
    } else {
        text_less(a.drop_first(), b.drop_first())
    }
}

/// Nothing comes before itself.
pub proof fn lemma_text_less_irreflexive(a: Seq<char>)
    ensures
        !text_less(a, a),
    decreases a.len(),
{
    if a.len() > 0 {
        lemma_text_less_irreflexive(a.drop_first());
    }
}

/// The order carries over from one pair to the next.
pub proof fn lemma_text_less_transitive(a: Seq<char>, b: Seq<char>, c: Seq<char>)
    requires
        text_less(a, b),
        text_less(b, c),
    ensures
        text_less(a, c),
    decreases a.len(),
{
    if a.len() > 0 && a[0] == b[0] && b[0] == c[0] {
        lemma_text_less_transitive(a.drop_first(), b.drop_first(), c.drop_first());
    }
}

/// Of two different texts one comes before the other.
pub proof fn lemma_text_less_total(a: Seq<char>, b: Seq<char>)
    ensures
        a == b || text_less(a, b) || text_less(b, a),
    decreases a.len(),
{
    if a.len() > 0 && b.len() > 0 && a[0] == b[0] {
        lemma_text_less_total(a.drop_first(), b.drop_first());
        if a.drop_first() == b.drop_first() {
            assert(a == seq![a[0]] + a.drop_first());
            assert(b == seq![b[0]] + b.drop_first());
        }
    } else if a.len() == 0 && b.len() == 0 {
        assert(a == b);
    }
}

/// Whether `a` comes before `b`.
pub fn comes_before(a: &str, b: &str) -> (r: bool)
    ensures
        r == text_less(a@, b@),
{
    let xs = to_chars(a);
    let ys = to_chars(b);
    let mut i: usize = 0;
    assert(xs@.skip(0) == xs@);
    assert(ys@.skip(0) == ys@);
    while i < xs.len() && i < ys.len() && xs[i] == ys[i]
        invariant
            i <= xs.len(),
            i <= ys.len(),
            text_less(xs@, ys@) == text_less(xs@.skip(i as int), ys@.skip(i as int)),
        decreases xs.len() - i,
    {
        assert(xs@.skip(i as int).drop_first() == xs@.skip(i + 1));
        assert(ys@.skip(i as int).drop_first() == ys@.skip(i + 1));
        i += 1;
    }
    if i == ys.len() {
        false
    } else if i == xs.len() {
        true
    } else {
        code_point(xs[i]) < code_point(ys[i])
    }
}

// ==================== Laws ====================

/// White space is the space, the tab, the line feed, the vertical tab, the form
/// feed, the carriage return, and beyond ASCII these code points; a printable
/// ASCII character other than the space is none.
pub proof fn law_white_space(c: char)
    ensures
        is_white_space(c) <==> seq![
            9int,
            10,
            11,
            12,
            13,
            32,
            133,
            160,
            5760,
            8192,
            8193,
            8194,
            8195,
            8196,
            8197,
            8198,
            8199,
            8200,
            8201,
            8202,
            8232,
            8233,
            8239,
            8287,
            12288,
        ].contains(c as int),
        33 <= c as int <= 126 ==> !is_white_space(c),
{
    let points = seq![
        9int,
        10,
        11,
        12,
        13,
        32,
        133,
        160,
        5760,
        8192,
        8193,
        8194,
        8195,
        8196,
        8197,
        8198,
        8199,
        8200,
        8201,
        8202,
        8232,
        8233,
        8239,
        8287,
        12288,
    ];
    let n = c as int;
    if 9 <= n <= 13 {
        assert(points[n - 9] == n);
    } else if n == 32 {
        assert(points[5] == n);
    } else if n == 133 {
        assert(points[6] == n);
    } else if n == 160 {
        assert(points[7] == n);
    } else if n == 5760 {
        assert(points[8] == n);
    } else if 8192 <= n <= 8202 {
        assert(points[n - 8192 + 9] == n);
    } else if n == 8232 {
        assert(points[20] == n);
    } else if n == 8233 {
        assert(points[21] == n);
    } else if n == 8239 {
        assert(points[22] == n);
    } else if n == 8287 {
        assert(points[23] == n);
    } else if n == 12288 {
        assert(points[24] == n);
    }
}

/// A character is a control character where its code point is below that of the
/// space, or from that of delete up to that of the no-break space.
pub proof fn law_control_characters(c: char)
    ensures
        is_control_char(c) <==> (c as int) < 32 || 127 <= (c as int) < 160,
{
}

/// What is cut off in front: so many characters, all of them dropped ones, and
/// the next one is none.
proof fn lemma_strip_front(s: Seq<char>, dropped: spec_fn(char) -> bool) -> (n: int)
    ensures
        0 <= n <= s.len(),
        strip_front(s, dropped) == s.skip(n),
        forall|i: int| 0 <= i < n ==> dropped(#[trigger] s[i]),
        n < s.len() ==> !dropped(s[n]),
    decreases s.len(),
{
    if s.len() > 0 && dropped(s[0]) {
        let rest = s.drop_first();
        let n = lemma_strip_front(rest, dropped);
        assert(rest.skip(n) =~= s.skip(n + 1));
        assert forall|i: int| 0 <= i < n + 1 implies dropped(#[trigger] s[i]) by {
            if i > 0 {
                assert(s[i] == rest[i - 1]);
            }
        }
        n + 1
    } else {
        assert(s.skip(0) =~= s);
        0
    }
}

/// What is left once the end is cut off: so many characters, the last of them no
/// dropped one, and all behind them dropped ones.
proof fn lemma_strip_back(s: Seq<char>, dropped: spec_fn(char) -> bool) -> (n: int)
    ensures
        0 <= n <= s.len(),
        strip_back(s, dropped) == s.take(n),
        forall|i: int| n <= i < s.len() ==> dropped(#[trigger] s[i]),
        n > 0 ==> !dropped(s[n - 1]),
    decreases s.len(),
{
    if s.len() > 0 && dropped(s.last()) {
        let front = s.drop_last();
        let n = lemma_strip_back(front, dropped);
        assert(front.take(n) =~= s.take(n));
        assert forall|i: int| n <= i < s.len() implies dropped(#[trigger] s[i]) by {
            if i < front.len() {
                assert(s[i] == front[i]);
            }
        }
        n
    } else {
        assert(s.take(s.len() as int) =~= s);
        s.len() as int
    }
}

/// Trimming takes white space off both ends and nothing else: what is left is a
/// piece of the text, from the first to the last character that is none.
pub proof fn law_trimming_takes_white_space_only(s: Seq<char>) -> (ends: (int, int))
    ensures
        0 <= ends.0 <= ends.1 <= s.len(),
        trimmed(s) == s.subrange(ends.0, ends.1),
        forall|i: int| 0 <= i < ends.0 ==> is_white_space(#[trigger] s[i]),
        forall|i: int| ends.1 <= i < s.len() ==> is_white_space(#[trigger] s[i]),
        ends.0 < ends.1 ==> !is_white_space(s[ends.0]) && !is_white_space(s[ends.1 - 1]),
{
    let white = |c: char| is_white_space(c);
    let lo = lemma_strip_front(s, white);
    let rest = s.skip(lo);
    let n = lemma_strip_back(rest, white);
    assert(rest.take(n) =~= s.subrange(lo, lo + n));
    assert forall|i: int| 0 <= i < lo implies is_white_space(#[trigger] s[i]) by {
        assert(white(s[i]));
    }
    assert forall|i: int| lo + n <= i < s.len() implies is_white_space(#[trigger] s[i]) by {
        assert(white(rest[i - lo]));
    }
    if n > 0 {
        assert(!white(rest[n - 1]));
        assert(!white(s[lo]));
    }
    (lo, lo + n)
}

/// A text that neither starts nor ends in white space is trimmed already.
pub proof fn law_trimmed_text_stays(s: Seq<char>)
    requires
        s.len() > 0 ==> !is_white_space(s[0]) && !is_white_space(s.last()),
    ensures
        trimmed(s) == s,
        trimmed(trimmed(s)) == trimmed(s),
{
    let ends = law_trimming_takes_white_space_only(s);
    if s.len() > 0 {
        if ends.0 > 0 {
            assert(is_white_space(s[0]));
        }
        if ends.1 < s.len() {
            assert(is_white_space(s[s.len() - 1]));
        }
    }
    assert(s.subrange(ends.0, ends.1) =~= s);
}

/// A line loses the carriage returns and line feeds at its end and nothing else.
pub proof fn law_line_end_only_is_cut(s: Seq<char>) -> (n: int)
    ensures
        0 <= n <= s.len(),
        strip_back(s, |c: char| is_line_end(c)) == s.take(n),
        forall|i: int| n <= i < s.len() ==> #[trigger] s[i] == '\r' || s[i] == '\n',
        n > 0 ==> s[n - 1] != '\r' && s[n - 1] != '\n',
{
    let eol = |c: char| is_line_end(c);
    let n = lemma_strip_back(s, eol);
    assert forall|i: int| n <= i < s.len() implies #[trigger] s[i] == '\r' || s[i] == '\n' by {
        assert(eol(s[i]));
    }
    if n > 0 {
        assert(!eol(s[n - 1]));
    }
    n
}

/// Replacing one character by another keeps every other one, in its place.
pub proof fn law_replacing_keeps_the_rest(s: Seq<char>, from: char, to: char)
    ensures
        replaced(s, from, to).len() == s.len(),
        forall|i: int|
            0 <= i < s.len() && s[i] != from ==> #[trigger] replaced(s, from, to)[i] == s[i],
        forall|i: int| 0 <= i < s.len() && s[i] == from ==> #[trigger] replaced(s, from, to)[i] == to,
{
}

/// A text is read line by line: a line that ends in a line feed, or in a
/// carriage return and a line feed, comes first, without its end, and the lines
/// of what follows come after it. A last line needs no end, and keeps a carriage
/// return that no line feed follows; before a line feed one carriage return goes.
pub proof fn law_lines_are_read_one_by_one(line: Seq<char>, rest: Seq<char>)
    requires
        forall|i: int| 0 <= i < line.len() ==> #[trigger] line[i] != '\n',
    ensures
        line.len() == 0 || line.last() != '\r' ==> lines_of(line + seq!['\n'] + rest)
            == seq![line] + lines_of(rest),
        lines_of(line + seq!['\r', '\n'] + rest) == seq![line] + lines_of(rest),
        line.len() > 0 ==> lines_of(line) == seq![line],
        lines_of(Seq::empty()) == Seq::<Seq<char>>::empty(),
{
    lemma_lines_step(line, rest);
    let with_return = line.push('\r');
    assert forall|j: int| 0 <= j < with_return.len() implies with_return[j] != '\n' by {
        if j < line.len() {
            assert(with_return[j] == line[j]);
        }
    }
    lemma_lines_step(with_return, rest);
    assert(with_return + seq!['\n'] + rest =~= line + seq!['\r', '\n'] + rest);
    assert(with_return.drop_last() =~= line);
    lemma_lines_last(line);
}

/// The lines as a program prints them: each with a line feed behind it.
pub open spec fn printed(lines: Seq<Seq<char>>) -> Seq<char>
    decreases lines.len(),
{
    if lines.len() == 0 {
        Seq::empty()
    } else {
        lines[0] + seq!['\n'] + printed(lines.drop_first())
    }
}

/// What was printed line by line is read back as the same lines.
pub proof fn law_printed_lines_are_read_back(lines: Seq<Seq<char>>)
    requires
        forall|k: int, i: int|
            0 <= k < lines.len() && 0 <= i < lines[k].len() ==> #[trigger] lines[k][i] != '\n',
        forall|k: int|
            0 <= k < lines.len() && lines[k].len() > 0 ==> (#[trigger] lines[k]).last() != '\r',
    ensures
        lines_of(printed(lines)) == lines,
    decreases lines.len(),
{
    if lines.len() > 0 {
        let rest = lines.drop_first();
        assert forall|k: int, i: int| 0 <= k < rest.len() && 0 <= i < rest[k].len() implies
            #[trigger] rest[k][i] != '\n' by {
            assert(lines[k + 1][i] != '\n');
        }
        assert forall|k: int| 0 <= k < rest.len() && rest[k].len() > 0 implies (
        #[trigger] rest[k]).last() != '\r' by {
            assert(lines[k + 1].last() != '\r');
        }
        law_printed_lines_are_read_back(rest);
        law_lines_are_read_one_by_one(lines[0], printed(rest));
        assert(seq![lines[0]] + rest =~= lines);
    } else {
        law_lines_are_read_one_by_one(Seq::empty(), Seq::empty());
        assert(lines =~= Seq::empty());
    }
}

/// A numeral grows by a digit where its number is multiplied by ten and the
/// digit added; the digits are those from the character `0` on.
pub proof fn law_numerals_are_decimal(n: nat, d: nat)
    requires
        d < 10,
    ensures
        decimal(d).len() == 1,
        decimal(d)[0] as int == 48 + d,
        n > 0 ==> decimal(10 * n + d) == decimal(n) + decimal(d),
{
    if n > 0 {
        let m = 10 * n + d;
        assert(m / 10 == n && m % 10 == d);
        assert(decimal(m) =~= decimal(n) + decimal(d));
    }
}

/// The value of a numeral: each digit counts ten times what the next does.
pub proof fn law_digits_count_by_tens(s: Seq<char>, c: char)
    requires
        48 <= c as int <= 57,
    ensures
        numeral_value(Seq::empty()) == 0,
        numeral_value(s.push(c)) == 10 * numeral_value(s) + (c as int - 48),
{
    assert(s.push(c).drop_last() =~= s);
}

/// A text is read as a number just where it is that number's decimal digits, with
/// or without zeros in front; one plus sign may stand before them, and no more.
pub proof fn law_only_numerals_are_numbers(s: Seq<char>, n: usize)
    requires
        s.len() > 0 ==> s[0] != '+',
    ensures
        parsed_usize(s) == Some(n) <==> s.len() > 0 && (forall|i: int|
            #![trigger s[i]]
            0 <= i < s.len() ==> 48 <= s[i] as int && s[i] as int <= 57) && numeral_value(s) == n,
        parsed_usize(seq!['+'] + s) == parsed_usize(s),
        parsed_usize(seq!['+', '+'] + s) is None,
{
    assert(unsigned_digits(s) == s);
    if is_numeral(s) {
        assert forall|i: int| #![trigger s[i]] 0 <= i < s.len() implies 48 <= s[i] as int
            && s[i] as int <= 57 by {
            assert(is_digit(s[i]));
        }
    }
    assert((seq!['+'] + s).drop_first() =~= s);
    let twice = (seq!['+', '+'] + s).drop_first();
    assert(!is_digit(twice[0]));
}

/// Whether `a` and `b` agree up to place `p` and `a` is the lesser there: it ends
/// there, or has the smaller code point.
pub open spec fn lesser_at(a: Seq<char>, b: Seq<char>, p: int) -> bool {
    &&& 0 <= p <= a.len()
    &&& p < b.len()
    &&& forall|i: int| 0 <= i < p ==> #[trigger] a[i] == b[i]
    &&& p < a.len() ==> (a[p] as int) < (b[p] as int)
}

/// One text comes before another just where it is the lesser at the first place
/// in which they differ.
pub proof fn law_texts_are_ordered_by_code_points(a: Seq<char>, b: Seq<char>)
    ensures
        text_less(a, b) <==> exists|p: int| lesser_at(a, b, p),
    decreases a.len(),
{
    if b.len() == 0 {
    } else if a.len() == 0 {
        assert(lesser_at(a, b, 0));
    } else if a[0] != b[0] {
        if (a[0] as int) < (b[0] as int) {
            assert(lesser_at(a, b, 0));
        }
        if exists|p: int| lesser_at(a, b, p) {
            let p = choose|p: int| lesser_at(a, b, p);
            if p > 0 {
                assert(a[0] == b[0]);
            }
        }
    } else {
        let x = a.drop_first();
        let y = b.drop_first();
        law_texts_are_ordered_by_code_points(x, y);
        if text_less(x, y) {
            let p = choose|p: int| lesser_at(x, y, p);
            assert forall|i: int| 0 <= i < p + 1 implies #[trigger] a[i] == b[i] by {
                if i > 0 {
                    assert(x[i - 1] == y[i - 1]);
                }
            }
            assert(lesser_at(a, b, p + 1));
        }
        if exists|p: int| lesser_at(a, b, p) {
            let p = choose|p: int| lesser_at(a, b, p);
            assert(p > 0);
            assert forall|i: int| 0 <= i < p - 1 implies #[trigger] x[i] == y[i] by {
                assert(a[i + 1] == b[i + 1]);
            }
            assert(lesser_at(x, y, p - 1));
        }
    }
}

/// A text that is handed over is the text itself.
pub proof fn law_text_is_handed_over_whole(owned: String, lent: &str)
    ensures
        owned.text() == owned@,
        lent.text() == lent@,
{
}

} // verus!
