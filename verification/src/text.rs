//! Small helpers on text that the forms need.

use vstd::prelude::*;
use vstd::string::*;

verus! {

/// Whether `c` is white space as Unicode defines it.
pub open spec fn is_white_space(c: char) -> bool {
    let n = c as u32;
    ||| 0x09 <= n <= 0x0d
    ||| n == 0x20
    ||| n == 0x85
    ||| n == 0xa0
    ||| n == 0x1680
    ||| 0x2000 <= n <= 0x200a
    ||| n == 0x2028
    ||| n == 0x2029
    ||| n == 0x202f
    ||| n == 0x205f
    ||| n == 0x3000
}

/// Whether `s` holds nothing but white space, so that nothing is left of it
/// once the white space at both ends is cut off.
pub open spec fn is_blank(s: Seq<char>) -> bool {
    forall|i: int| 0 <= i < s.len() ==> is_white_space(#[trigger] s[i])
}

/// Whether `c` is white space as Unicode defines it.
pub fn char_is_white_space(c: char) -> (white: bool)
    ensures
        white == is_white_space(c),
{
    let n = c as u32;
    (0x09 <= n && n <= 0x0d) || n == 0x20 || n == 0x85 || n == 0xa0 || n == 0x1680 || (0x2000 <= n
        && n <= 0x200a) || n == 0x2028 || n == 0x2029 || n == 0x202f || n == 0x205f || n == 0x3000
}

/// Whether `s` holds nothing but white space.
pub fn text_is_blank(s: &str) -> (blank: bool)
    ensures
        blank == is_blank(s@),
{
    let n = s.unicode_len();
    let mut i: usize = 0;
    while i < n
        invariant
            i <= n,
            n == s@.len(),
            forall|j: int| 0 <= j < i ==> is_white_space(#[trigger] s@[j]),
        decreases n - i,
    {
        if !char_is_white_space(s.get_char(i)) {
            return false;
        }
        i = i + 1;
    }
    true
}

/// The decimal digit for `d`.
pub open spec fn digit(d: int) -> char {
    if d == 0 {
        '0'
    } else if d == 1 {
        '1'
    } else if d == 2 {
        '2'
    } else if d == 3 {
        '3'
    } else if d == 4 {
        '4'
    } else if d == 5 {
        '5'
    } else if d == 6 {
        '6'
    } else if d == 7 {
        '7'
    } else if d == 8 {
        '8'
    } else {
        '9'
    }
}

/// The number `n` in decimal digits, without leading zeros.
pub open spec fn decimal(n: nat) -> Seq<char>
    decreases n,
{
    if n < 10 {
        seq![digit(n as int)]
    } else {
        decimal(n / 10).push(digit((n % 10) as int))
    }
}

fn digit_text(d: u8) -> (text: &'static str)
    requires
        d < 10,
    ensures
        text@ == seq![digit(d as int)],
{
    proof {
        reveal_strlit("0");
        reveal_strlit("1");
        reveal_strlit("2");
        reveal_strlit("3");
        reveal_strlit("4");
        reveal_strlit("5");
        reveal_strlit("6");
        reveal_strlit("7");
        reveal_strlit("8");
        reveal_strlit("9");
    }
    let text =
    if d == 0 {
        "0"
    } else if d == 1 {
        "1"
    } else if d == 2 {
        "2"
    } else if d == 3 {
        "3"
    } else if d == 4 {
        "4"
    } else if d == 5 {
        "5"
    } else if d == 6 {
        "6"
    } else if d == 7 {
        "7"
    } else if d == 8 {
        "8"
    } else {
        "9"
    }
    ;
    assert(text@ =~= seq![digit(d as int)]);
    text
}

/// The number `n` in decimal digits.
pub fn decimal_u8(n: u8) -> (text: String)
    ensures
        text@ == decimal(n as nat),
{
    let mut text = String::new();
    if n >= 100 {
        text.append(digit_text(n / 100));
    }
    if n >= 10 {
        text.append(digit_text((n / 10) % 10));
    }
    text.append(digit_text(n % 10));
    proof {
        reveal_with_fuel(decimal, 3);
        assert(text@ =~= decimal(n as nat));
    }
    text
}

/// Whether `c` is one of the digits `0` to `9`.
pub open spec fn is_digit(c: char) -> bool {
    0x30 <= c as u32 <= 0x39
}

/// The number that the decimal digits `s` stand for.
pub open spec fn digits_value(s: Seq<char>) -> nat
    decreases s.len(),
{
    if s.len() == 0 {
        0
    } else {
        digits_value(s.drop_last()) * 10 + (s.last() as u32 - 0x30) as nat
    }
}

/// Whether `s` holds nothing but decimal digits.
pub open spec fn all_digits(s: Seq<char>) -> bool {
    forall|i: int| 0 <= i < s.len() ==> is_digit(#[trigger] s[i])
}

/// The text `s` without the plus sign that may precede a number.
pub open spec fn unsigned_part(s: Seq<char>) -> Seq<char> {
    if s.len() > 0 && s[0] == '+' {
        s.drop_first()
    } else {
        s
    }
}

/// The number that the text `s` stands for: decimal digits, at least one,
/// which a plus sign may precede. Any other text stands for no number.
pub open spec fn parsed_number(s: Seq<char>) -> Option<nat> {
    let body = unsigned_part(s);
    if body.len() > 0 && all_digits(body) {
        Some(digits_value(body))
    } else {
        None
    }
}

/// The number that `s` stands for, where it fits the machine's word.
pub open spec fn parsed_usize(s: Seq<char>) -> Option<usize> {
    match parsed_number(s) {
        Some(v) => if v <= usize::MAX {
            Some(v as usize)
        } else {
            None
        },
        None => None,
    }
}

/// A number does not get smaller by further digits.
pub proof fn lemma_digits_value_grows(s: Seq<char>, k: int)
    requires
        0 <= k <= s.len(),
        all_digits(s),
    ensures
        digits_value(s.take(k)) <= digits_value(s),
    decreases s.len() - k,
{
    if k < s.len() {
        lemma_digits_value_grows(s, k + 1);
        assert(s.take(k + 1).drop_last() =~= s.take(k));
        assert(is_digit(s[k]));
    } else {
        assert(s.take(k) =~= s);
    }
}

/// Reads `s` as a number: decimal digits, at least one, which a plus sign
/// may precede. There is no number where `s` is anything else, or where the
/// number does not fit the machine's word.
pub fn parse_usize(s: &str) -> (number: Option<usize>)
    ensures
        number == parsed_usize(s@),
{
    let n = s.unicode_len();
    if n == 0 {
        return None;
    }
    let start: usize = if s.get_char(0) == '+' {
        1
    } else {
        0
    };
    if start == n {
        return None;
    }
    let ghost body = s@.skip(start as int);
    proof {
        if start == 1 {
            assert(s@.drop_first() =~= body);
        } else {
            assert(s@ =~= body);
        }
    }
    let mut value: usize = 0;
    let mut i: usize = start;
    while i < n
        invariant
            start <= i <= n,
            n == s@.len(),
            start == 0 || start == 1,
            start == 1 ==> s@[0] == '+',
            start == 0 ==> s@[0] != '+',
            body == s@.skip(start as int),
            forall|j: int| 0 <= j < i - start ==> is_digit(#[trigger] body[j]),
            value == digits_value(body.take(i - start)),
        decreases n - i,
    {
        let c = s.get_char(i);
        let code = c as u32;
        assert(body[i - start] == c);
        if code < 0x30 || code > 0x39 {
            proof {
                lemma_not_a_number(s@, body, start as int, i - start);
            }
            return None;
        }
        let d = (code - 0x30) as usize;
        proof {
            assert(body.take(i - start + 1).drop_last() =~= body.take(i - start));
            assert(body.take(i - start + 1).last() == c);
        }
        let ghost next = digits_value(body.take(i - start + 1));
        let scaled = match value.checked_mul(10) {
            Some(v) => v,
            None => {
                proof {
                    lemma_overflow_stays(s@, body, start as int, i as int, n as int);
                }
                return None;
            },
        };
        value = match scaled.checked_add(d) {
            Some(v) => v,
            None => {
                proof {
                    lemma_overflow_stays(s@, body, start as int, i as int, n as int);
                }
                return None;
            },
        };
        i = i + 1;
    }
    proof {
        assert(body.take(n - start) =~= body);
        if start == 1 {
            assert(s@.drop_first() =~= body);
        } else {
            assert(s@ =~= body);
        }
    }
    Some(value)
}

proof fn lemma_overflow_stays(s: Seq<char>, body: Seq<char>, start: int, i: int, n: int)
    requires
        0 <= start <= i < n,
        n == s.len(),
        body == s.skip(start),
        start == 1 ==> s[0] == '+',
        start == 0 ==> s[0] != '+',
        start == 0 || start == 1,
        forall|j: int| 0 <= j <= i - start ==> is_digit(#[trigger] body[j]),
        digits_value(body.take(i - start + 1)) > usize::MAX,
    ensures
        parsed_usize(s) is None,
{
    let read = unsigned_part(s);
    if start == 1 {
        assert(s.drop_first() =~= body);
    } else {
        assert(s =~= body);
    }
    assert(read == body);
    if all_digits(body) {
        lemma_digits_value_grows(body, i - start + 1);
    }
}

proof fn lemma_not_a_number(s: Seq<char>, body: Seq<char>, start: int, at: int)
    requires
        0 <= at < body.len(),
        s.len() > 0,
        body == s.skip(start),
        start == 1 ==> s[0] == '+',
        start == 0 ==> s[0] != '+',
        start == 0 || start == 1,
        !is_digit(body[at]),
    ensures
        parsed_usize(s) is None,
{
    let read = unsigned_part(s);
    if start == 1 {
        assert(s.drop_first() =~= body);
    } else {
        assert(s =~= body);
    }
    assert(!is_digit(read[at]));
}

/// The number `n` in decimal digits.
pub fn decimal_text(n: usize) -> (text: String)
    ensures
        text@ == decimal(n as nat),
    decreases n,
{
    if n < 10 {
        String::from_str(digit_text(n as u8))
    } else {
        let mut text = decimal_text(n / 10);
        text.append(digit_text((n % 10) as u8));
        text
    }
}

/// Whether `a` comes before `b`, or is `b`, in the order of the dictionary
/// on bytes: the first byte that differs decides, and a text comes before
/// every text that it begins.
pub open spec fn bytes_le(a: Seq<u8>, b: Seq<u8>) -> bool
    decreases a.len(),
{
    if a.len() == 0 {
        true
    } else if b.len() == 0 {
        false
    } else if a[0] != b[0] {
        a[0] < b[0]
    } else {
        bytes_le(a.drop_first(), b.drop_first())
    }
}

/// Whether the text `a` comes before the text `b`, or is `b`, in the order
/// of their bytes.
pub open spec fn text_le(a: Seq<char>, b: Seq<char>) -> bool {
    bytes_le(vstd::utf8::encode_utf8(a), vstd::utf8::encode_utf8(b))
}

/// Whether the bytes `x` come before the bytes `y`, or are `y`, in the
/// order of the dictionary.
pub fn bytes_at_most(x: &[u8], y: &[u8]) -> (le: bool)
    ensures
        le == bytes_le(x@, y@),
{
    let mut i: usize = 0;
    assert(x@.skip(0) =~= x@ && y@.skip(0) =~= y@);
    while i < x.len() && i < y.len()
        invariant
            i <= x@.len(),
            i <= y@.len(),
            bytes_le(x@, y@) == bytes_le(x@.skip(i as int), y@.skip(i as int)),
        decreases x@.len() - i,
    {
        assert(x@.skip(i as int)[0] == x@[i as int] && y@.skip(i as int)[0] == y@[i as int]);
        if x[i] != y[i] {
            return x[i] < y[i];
        }
        assert(x@.skip(i as int).drop_first() =~= x@.skip(i as int + 1));
        assert(y@.skip(i as int).drop_first() =~= y@.skip(i as int + 1));
        i = i + 1;
    }
    x.len() <= y.len()
}

/// Whether the text `a` comes before the text `b`, or is `b`, in the order
/// of their bytes.
pub fn text_at_most(a: &str, b: &str) -> (le: bool)
    ensures
        le == text_le(a@, b@),
{
    bytes_at_most(a.as_bytes(), b.as_bytes())
}

/// Of two texts one comes before the other, or they are the same.
pub proof fn lemma_bytes_le_total(a: Seq<u8>, b: Seq<u8>)
    ensures
        bytes_le(a, b) || bytes_le(b, a),
    decreases a.len(),
{
    if a.len() > 0 && b.len() > 0 && a[0] == b[0] {
        lemma_bytes_le_total(a.drop_first(), b.drop_first());
    }
}

/// What comes before a text that comes before a third comes before the
/// third.
pub proof fn lemma_bytes_le_transitive(a: Seq<u8>, b: Seq<u8>, c: Seq<u8>)
    requires
        bytes_le(a, b),
        bytes_le(b, c),
    ensures
        bytes_le(a, c),
    decreases a.len(),
{
    if a.len() > 0 && b.len() > 0 && c.len() > 0 && a[0] == b[0] && b[0] == c[0] {
        lemma_bytes_le_transitive(a.drop_first(), b.drop_first(), c.drop_first());
    }
}

/// Whether `a` and `b` are the same text.
pub fn same_text(a: &str, b: &str) -> (same: bool)
    ensures
        same == (a@ == b@),
{
    String::from_str(a) == String::from_str(b)
}

/// The number `n` in decimal digits, with a minus sign if it is negative.
pub open spec fn signed_decimal(n: int) -> Seq<char> {
    if n < 0 {
        seq!['-'] + decimal((-n) as nat)
    } else {
        decimal(n as nat)
    }
}

/// The number `n` in decimal digits, with a minus sign if it is negative.
pub fn decimal_i32(n: i32) -> (text: String)
    ensures
        text@ == signed_decimal(n as int),
{
    if n < 0 {
        proof {
            reveal_strlit("-");
        }
        let mut text = String::from_str("-");
        let size: u32 = if n == i32::MIN {
            2_147_483_648
        } else {
            (-n) as u32
        };
        let digits = decimal_text(size as usize);
        text.append(digits.as_str());
        assert("-"@ =~= seq!['-']);
        text
    } else {
        decimal_text(n as usize)
    }
}

/// The text `text` as std writes it for debugging: in double quotes, with
/// what cannot stand there as it is written as an escape.
pub uninterp spec fn debug_quoted(text: Seq<char>) -> Seq<char>;

/// The `Debug` of `str`, by way of `format!`. Trusted: what it writes is the
/// named function of the text.
#[verifier::external_body]
pub(crate) fn quoted(text: &str) -> (written: String)
    ensures
        written@ == debug_quoted(text@),
{
    format!("{:?}", text)
}

/// The first `upto` of `names` as a list in square brackets, each name in
/// double quotes, with a comma and a space between them; without the
/// closing bracket.
pub open spec fn open_list(names: Seq<&'static str>, upto: int) -> Seq<char>
    decreases upto,
{
    if upto <= 0 {
        seq!['[']
    } else if upto == 1 {
        open_list(names, 0) + seq!['"'] + names[0]@ + seq!['"']
    } else {
        open_list(names, upto - 1) + seq![',', ' ', '"'] + names[upto - 1]@ + seq!['"']
    }
}

/// `names` as a list in square brackets, each name in double quotes.
pub open spec fn list_text(names: Seq<&'static str>) -> Seq<char> {
    open_list(names, names.len() as int) + seq![']']
}

/// `names` as a list in square brackets, each name in double quotes.
pub fn list_of_names(names: &Vec<&'static str>) -> (text: String)
    ensures
        text@ == list_text(names@),
{
    proof {
        reveal_strlit("[");
        reveal_strlit("]");
        reveal_strlit("\"");
        reveal_strlit(", \"");
    }
    let mut text = String::from_str("[");
    assert("["@ =~= seq!['[']);
    let mut i: usize = 0;
    while i < names.len()
        invariant
            i <= names@.len(),
            text@ == open_list(names@, i as int),
        decreases names@.len() - i,
    {
        proof {
            reveal_strlit("\"");
            reveal_strlit(", \"");
        }
        if i == 0 {
            text.append("\"");
            assert("\""@ =~= seq!['"']);
        } else {
            text.append(", \"");
            assert(", \""@ =~= seq![',', ' ', '"']);
        }
        text.append(names[i]);
        text.append("\"");
        assert("\""@ =~= seq!['"']);
        i = i + 1;
    }
    text.append("]");
    assert("]"@ =~= seq![']']);
    text
}

/// Where the white space at the start of `s` ends: the place of the first
/// character that is none, or the length of `s` if there is none.
pub open spec fn leading_white(s: Seq<char>) -> int
    decreases s.len(),
{
    if s.len() == 0 || !is_white_space(s[0]) {
        0
    } else {
        1 + leading_white(s.drop_first())
    }
}

/// Where the white space at the end of `s` starts: the place behind the last
/// character that is none, or zero if there is none.
pub open spec fn trailing_white(s: Seq<char>) -> int
    decreases s.len(),
{
    if s.len() == 0 || !is_white_space(s.last()) {
        s.len() as int
    } else {
        trailing_white(s.drop_last())
    }
}

/// `s` without the white space at its start and at its end.
pub open spec fn trimmed(s: Seq<char>) -> Seq<char> {
    if leading_white(s) >= trailing_white(s) {
        Seq::empty()
    } else {
        s.subrange(leading_white(s), trailing_white(s))
    }
}

/// The place of the first line feed of `s`, or the length of `s` if it has
/// none.
pub open spec fn line_end(s: Seq<char>) -> int
    decreases s.len(),
{
    if s.len() == 0 || s[0] == '\n' {
        0
    } else {
        1 + line_end(s.drop_first())
    }
}

/// The lines of `s`, each without the white space at its start and at its
/// end. A line feed ends a line; the last line needs none.
pub open spec fn trimmed_lines(s: Seq<char>) -> Seq<Seq<char>>
    decreases s.len(),
{
    if s.len() == 0 {
        Seq::empty()
    } else {
        let end = line_end(s);
        let rest = if 0 <= end < s.len() {
            s.skip(end + 1)
        } else {
            Seq::empty()
        };
        seq![trimmed(s.take(end))] + trimmed_lines(rest)
    }
}

proof fn lemma_white_bounds(s: Seq<char>)
    ensures
        0 <= leading_white(s) <= s.len(),
        0 <= trailing_white(s) <= s.len(),
    decreases s.len(),
{
    if s.len() > 0 {
        if is_white_space(s[0]) {
            lemma_white_bounds(s.drop_first());
        }
        if is_white_space(s.last()) {
            lemma_white_bounds(s.drop_last());
        }
    }
}

/// The lines of `text`, each without the white space at its start and at
/// its end.
pub fn lines_trimmed(text: &str) -> (lines: Vec<String>)
    ensures
        lines@.len() == trimmed_lines(text@).len(),
        forall|i: int| 0 <= i < lines@.len() ==> (#[trigger] lines@[i])@ == trimmed_lines(text@)[i],
{
    let n = text.unicode_len();
    let mut lines: Vec<String> = Vec::new();
    let mut start: usize = 0;
    let ghost mut done: Seq<Seq<char>> = Seq::empty();
    assert(text@.skip(0) =~= text@);
    while start < n
        invariant
            start <= n,
            n == text@.len(),
            lines@.len() == done.len(),
            forall|i: int| 0 <= i < lines@.len() ==> (#[trigger] lines@[i])@ == done[i],
            trimmed_lines(text@) == done + trimmed_lines(text@.skip(start as int)),
        decreases n - start,
    {
        let ghost rest = text@.skip(start as int);
        // find where the line ends
        let mut end = start;
        assert(rest.skip(0) =~= rest);
        while end < n && text.get_char(end) != '\n'
            invariant
                start <= end <= n,
                n == text@.len(),
                rest == text@.skip(start as int),
                line_end(rest) == (end - start) + line_end(rest.skip(end - start)),
            decreases n - end,
        {
            proof {
                let tail = rest.skip(end - start);
                assert(tail[0] == text@[end as int]);
                assert(tail.drop_first() =~= rest.skip(end - start + 1));
            }
            end = end + 1;
        }
        proof {
            let tail = rest.skip(end - start);
            if end < n {
                assert(tail[0] == text@[end as int]);
            }
            assert(line_end(rest) == end - start);
        }
        // cut the white space off both ends
        let ghost line = rest.take(end - start);
        assert(line =~= text@.subrange(start as int, end as int));
        let mut from = start;
        assert(line.skip(0) =~= line);
        while from < end && char_is_white_space(text.get_char(from))
            invariant
                start <= from <= end <= n,
                n == text@.len(),
                line == text@.subrange(start as int, end as int),
                leading_white(line) == (from - start) + leading_white(line.skip(from - start)),
            decreases end - from,
        {
            proof {
                let tail = line.skip(from - start);
                assert(tail[0] == text@[from as int]);
                assert(tail.drop_first() =~= line.skip(from - start + 1));
            }
            from = from + 1;
        }
        proof {
            let tail = line.skip(from - start);
            if from < end {
                assert(tail[0] == text@[from as int]);
            }
            assert(leading_white(line) == from - start);
        }
        let mut to = end;
        assert(line.take(line.len() as int) =~= line);
        while to > from && char_is_white_space(text.get_char(to - 1))
            invariant
                start <= from <= to <= end <= n,
                n == text@.len(),
                line == text@.subrange(start as int, end as int),
                trailing_white(line) == trailing_white(line.take(to - start)),
            decreases to,
        {
            proof {
                let head = line.take(to - start);
                assert(head.last() == text@[to - 1]);
                assert(head.drop_last() =~= line.take(to - start - 1));
            }
            to = to - 1;
        }
        proof {
            let head = line.take(to - start);
            lemma_white_bounds(head);
            if to > from {
                assert(head.last() == text@[to - 1]);
                assert(trailing_white(line) == to - start);
            } else {
                // nothing but white space is left of the line
                assert(trailing_white(head) <= to - start);
                assert(trailing_white(line) <= leading_white(line));
            }
        }
        let kept = if to > from {
            String::from_str(text.substring_char(from, to))
        } else {
            String::new()
        };
        proof {
            if to > from {
                assert(text@.subrange(from as int, to as int) =~= line.subrange(
                    from - start,
                    to - start,
                ));
            }
            assert(kept@ == trimmed(line));
            let after = if end < n {
                rest.skip(end - start + 1)
            } else {
                Seq::empty()
            };
            assert(trimmed_lines(rest) == seq![trimmed(line)] + trimmed_lines(after));
            if end < n {
                assert(after =~= text@.skip(end + 1));
            } else {
                assert(text@.skip(n as int) =~= Seq::<char>::empty());
            }
            assert(done + (seq![trimmed(line)] + trimmed_lines(after)) =~= done.push(trimmed(line))
                + trimmed_lines(after));
            done = done.push(trimmed(line));
        }
        lines.push(kept);
        start = if end < n {
            end + 1
        } else {
            n
        };
    }
    proof {
        assert(text@.skip(n as int) =~= Seq::<char>::empty());
        assert(done + Seq::<Seq<char>>::empty() =~= done);
    }
    lines
}

} // verus!
