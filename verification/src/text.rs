//! Small tools for building text.

use vstd::prelude::*;
use vstd::string::StringExecFns;

verus! {

/// Whether two strings hold the same characters.
pub fn same(a: &str, b: &str) -> (r: bool)
    ensures
        r == (a@ == b@),
{
    a.to_owned() == b.to_owned()
}

/// The characters of `list` with `separator` between each two.
pub open spec fn joined(list: Seq<Seq<char>>, separator: Seq<char>) -> Seq<char>
    decreases list.len(),
{
    if list.len() == 0 {
        Seq::empty()
    } else if list.len() == 1 {
        list[0]
    } else {
        joined(list.drop_last(), separator) + separator + list.last()
    }
}

/// Joins `list` with `separator`.
pub fn join(list: &Vec<String>, separator: &str) -> (text: String)
    ensures
        text@ == joined(list.deep_view(), separator@),
{
    let mut text = String::new();
    let mut i: usize = 0;
    while i < list.len()
        invariant
            i <= list.len(),
            text@ == joined(list.deep_view().take(i as int), separator@),
        decreases list.len() - i,
    {
        if i > 0 {
            text.append(separator);
        }
        text.append(list[i].as_str());
        proof {
            let before = list.deep_view().take(i as int);
            let after = list.deep_view().take(i + 1);
            assert(after.drop_last() == before);
            assert(after.last() == list[i as int]@);
        }
        i += 1;
    }
    proof {
        assert(list.deep_view().take(list.len() as int) == list.deep_view());
    }
    text
}

/// `items` between angle brackets, or nothing where there are none.
pub open spec fn angle(items: Seq<Seq<char>>) -> Seq<char> {
    if items.len() == 0 {
        Seq::empty()
    } else {
        "<"@ + joined(items, ", "@) + ">"@
    }
}

/// Writes `items` between angle brackets, or nothing where there are none.
pub fn angled(items: &Vec<String>) -> (text: String)
    ensures
        text@ == angle(items.deep_view()),
{
    let mut text = String::new();
    if items.len() > 0 {
        text.append("<");
        text.append(join(items, ", ").as_str());
        text.append(">");
    }
    text
}

/// How one character stands inside a string literal.
pub open spec fn escaped(c: char) -> Seq<char> {
    if c == '\\' {
        seq!['\\', '\\']
    } else if c == '"' {
        seq!['\\', '"']
    } else if c == '\n' {
        seq!['\\', 'n']
    } else if c == '\r' {
        seq!['\\', 'r']
    } else if c == '\t' {
        seq!['\\', 't']
    } else {
        seq![c]
    }
}

/// The characters of `s` as they stand inside a string literal.
pub open spec fn escape(s: Seq<char>) -> Seq<char>
    decreases s.len(),
{
    if s.len() == 0 {
        Seq::empty()
    } else {
        escape(s.drop_last()) + escaped(s.last())
    }
}

/// The string literal that denotes `s`.
pub open spec fn quote(s: Seq<char>) -> Seq<char> {
    "\""@ + escape(s) + "\""@
}

/// Writes the string literal that denotes `value`.
pub fn quoted(value: &str) -> (text: String)
    ensures
        text@ == quote(value@),
{
    let n = value.unicode_len();
    let mut inner = String::new();
    let mut i: usize = 0;
    proof {
        assert(value@.take(0) == Seq::<char>::empty());
    }
    while i < n
        invariant
            n == value@.len(),
            i <= n,
            inner@ == escape(value@.take(i as int)),
        decreases n - i,
    {
        let c = value.get_char(i);
        proof {
            assert(value@.take(i + 1).drop_last() == value@.take(i as int));
            assert(value@.take(i + 1).last() == c);
            assert(value@.subrange(i as int, i + 1) == seq![c]);
            reveal_strlit("\\\\");
            reveal_strlit("\\\"");
            reveal_strlit("\\n");
            reveal_strlit("\\r");
            reveal_strlit("\\t");
        }
        if c == '\\' {
            inner.append("\\\\");
        } else if c == '"' {
            inner.append("\\\"");
        } else if c == '\n' {
            inner.append("\\n");
        } else if c == '\r' {
            inner.append("\\r");
        } else if c == '\t' {
            inner.append("\\t");
        } else {
            inner.append(value.substring_char(i, i + 1));
        }
        assert(inner@ == escape(value@.take(i as int)) + escaped(c));
        i += 1;
    }
    proof {
        assert(value@.take(n as int) == value@);
    }
    let mut text = String::from_str("\"");
    text.append(inner.as_str());
    text.append("\"");
    text
}

/// The decimal digit for `d`.
pub open spec fn digit(d: nat) -> char {
    if d == 0 {
        '0'
    } else if d == 1 {
        '1'
    } else if d == 2 {
        '2'
    } else if d == 3 {
        '3'
    } else if d == 4 {
        '4'
    } else if d == 5 {
        '5'
    } else if d == 6 {
        '6'
    } else if d == 7 {
        '7'
    } else if d == 8 {
        '8'
    } else {
        '9'
    }
}

/// The decimal notation of `n`, without leading zeros.
pub open spec fn decimal(n: nat) -> Seq<char>
    decreases n,
{
    if n < 10 {
        seq![digit(n)]
    } else {
        decimal(n / 10).push(digit(n % 10))
    }
}

fn digit_text(d: usize) -> (text: &'static str)
    requires
        d < 10,
    ensures
        text@ == seq![digit(d as nat)],
{
    proof {
        reveal_strlit("0");
        reveal_strlit("1");
        reveal_strlit("2");
        reveal_strlit("3");
        reveal_strlit("4");
        reveal_strlit("5");
        reveal_strlit("6");
        reveal_strlit("7");
        reveal_strlit("8");
        reveal_strlit("9");
    }
    let text = if d == 0 {
        "0"
    } else if d == 1 {
        "1"
    } else if d == 2 {
        "2"
    } else if d == 3 {
        "3"
    } else if d == 4 {
        "4"
    } else if d == 5 {
        "5"
    } else if d == 6 {
        "6"
    } else if d == 7 {
        "7"
    } else if d == 8 {
        "8"
    } else {
        "9"
    };
    assert(text@ =~= seq![digit(d as nat)]);
    text
}

/// Writes `n` in decimal notation.
pub fn to_decimal(n: usize) -> (text: String)
    ensures
        text@ == decimal(n as nat),
    decreases n,
{
    if n < 10 {
        digit_text(n).to_owned()
    } else {
        let mut text = to_decimal(n / 10);
        text.append(digit_text(n % 10));
        assert(text@ =~= decimal((n / 10) as nat).push(digit((n % 10) as nat)));
        text
    }
}

/// Whether `c` is white space: one of the characters that Unicode gives the
/// property `White_Space`.
pub open spec fn is_whitespace(c: char) -> bool {
    let n = c as u32;
    ||| 0x09 <= n <= 0x0d
    ||| n == 0x20
    ||| n == 0x85
    ||| n == 0xa0
    ||| n == 0x1680
    ||| 0x2000 <= n <= 0x200a
    ||| n == 0x2028
    ||| n == 0x2029
    ||| n == 0x202f
    ||| n == 0x205f
    ||| n == 0x3000
}

/// Tests `c` for white space.
pub fn whitespace(c: char) -> (r: bool)
    ensures
        r == is_whitespace(c),
{
    let n = c as u32;
    (0x09 <= n && n <= 0x0d) || n == 0x20 || n == 0x85 || n == 0xa0 || n == 0x1680 || (0x2000 <= n
        && n <= 0x200a) || n == 0x2028 || n == 0x2029 || n == 0x202f || n == 0x205f || n == 0x3000
}

/// `s` without the white space at its end.
pub open spec fn trim_end(s: Seq<char>) -> Seq<char>
    decreases s.len(),
{
    if s.len() > 0 && is_whitespace(s.last()) {
        trim_end(s.drop_last())
    } else {
        s
    }
}

/// `s` without the white space at its start.
pub open spec fn trim_start(s: Seq<char>) -> Seq<char>
    decreases s.len(),
{
    if s.len() > 0 && is_whitespace(s.first()) {
        trim_start(s.drop_first())
    } else {
        s
    }
}

/// `s` without the white space at both ends.
pub open spec fn trim(s: Seq<char>) -> Seq<char> {
    trim_start(trim_end(s))
}

/// The pieces of `s` between its occurrences of `separator`. A string
/// without the separator is one piece; the empty string is one empty piece.
pub open spec fn split(s: Seq<char>, separator: char) -> Seq<Seq<char>>
    decreases s.len(),
{
    if s.len() == 0 {
        seq![Seq::empty()]
    } else {
        let before = split(s.drop_last(), separator);
        if s.last() == separator {
            before.push(Seq::empty())
        } else {
            before.drop_last().push(before.last().push(s.last()))
        }
    }
}

/// Splits `value` at each `separator`.
pub fn split_text(value: &str, separator: char) -> (pieces: Vec<String>)
    ensures
        pieces.deep_view() == split(value@, separator),
{
    let n = value.unicode_len();
    let mut pieces: Vec<String> = Vec::new();
    let mut start: usize = 0;
    let mut i: usize = 0;
    proof {
        assert(value@.take(0) == Seq::<char>::empty());
        assert(value@.subrange(0, 0) == Seq::<char>::empty());
        assert(pieces.deep_view() == Seq::<Seq<char>>::empty());
        assert(Seq::<Seq<char>>::empty().push(Seq::<char>::empty()) == seq![Seq::<char>::empty()]);
    }
    while i < n
        invariant
            n == value@.len(),
            start <= i <= n,
            split(value@.take(i as int), separator) == pieces.deep_view().push(
                value@.subrange(start as int, i as int),
            ),
        decreases n - i,
    {
        let c = value.get_char(i);
        proof {
            let now = value@.take(i + 1);
            assert(now.drop_last() == value@.take(i as int));
            assert(now.last() == c);
            assert(value@.subrange(start as int, i + 1) == value@.subrange(
                start as int,
                i as int,
            ).push(c));
            assert(value@.subrange(i + 1, i + 1) == Seq::<char>::empty());
        }
        if c == separator {
            pieces.push(value.substring_char(start, i).to_owned());
            start = i + 1;
        }
        i += 1;
    }
    pieces.push(value.substring_char(start, n).to_owned());
    proof {
        assert(value@.take(n as int) == value@);
    }
    pieces
}

/// Removes the white space at both ends of `value`.
pub fn trim_text(value: &str) -> (trimmed: &str)
    ensures
        trimmed@ == trim(value@),
{
    let n = value.unicode_len();
    let mut end: usize = n;
    proof {
        assert(value@.take(n as int) == value@);
    }
    while end > 0 && whitespace(value.get_char(end - 1))
        invariant
            end <= n,
            n == value@.len(),
            trim_end(value@) == trim_end(value@.take(end as int)),
        decreases end,
    {
        proof {
            assert(value@.take(end as int).drop_last() == value@.take(end - 1));
        }
        end -= 1;
    }
    proof {
        assert(value@.take(n as int) == value@);
        assert(trim_end(value@) == value@.take(end as int));
    }
    let mut start: usize = 0;
    while start < end && whitespace(value.get_char(start))
        invariant
            start <= end <= n,
            n == value@.len(),
            trim(value@) == trim_start(value@.subrange(start as int, end as int)),
        decreases end - start,
    {
        proof {
            assert(value@.subrange(start as int, end as int).drop_first() == value@.subrange(
                start + 1,
                end as int,
            ));
        }
        start += 1;
    }
    value.substring_char(start, end)
}

} // verus!
