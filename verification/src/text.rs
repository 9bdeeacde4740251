use vstd::prelude::*;

verus! {

/// Why a text is no decimal number of the wanted size
#[derive(Clone, Copy, Debug, PartialEq, Eq, Structural, Hash)]
pub enum ParseIntError {
    /// The text is empty
    Empty,
    /// The text holds no digit, or a character that is no digit
    InvalidDigit,
    /// The number is too large
    PosOverflow,
}

/// White space, as Unicode defines it
pub open spec fn is_space(c: char) -> bool {
    let code = c as u32;
    ||| 0x09 <= code <= 0x0d
    ||| code == 0x20
    ||| code == 0x85
    ||| code == 0xa0
    ||| code == 0x1680
    ||| 0x2000 <= code <= 0x200a
    ||| code == 0x2028
    ||| code == 0x2029
    ||| code == 0x202f
    ||| code == 0x205f
    ||| code == 0x3000
}

/// One of the ten digits
pub open spec fn is_digit(c: char) -> bool {
    '0' as u32 <= c as u32 <= '9' as u32
}

/// The number of characters from `from` on that stand before the first white space
pub open spec fn word_len(text: Seq<char>, from: int) -> nat
    decreases text.len() - from,
{
    if 0 <= from < text.len() && !is_space(text[from]) {
        1 + word_len(text, from + 1)
    } else {
        0
    }
}

/// The number of characters from `from` on that stand before the first `a` or `b`
pub open spec fn len_until(text: Seq<char>, from: int, a: char, b: char) -> nat
    decreases text.len() - from,
{
    if 0 <= from < text.len() && text[from] != a && text[from] != b {
        1 + len_until(text, from + 1, a, b)
    } else {
        0
    }
}

/// A word ends within its text, and one that starts with a character has one
pub proof fn lemma_word_len(text: Seq<char>, from: int)
    requires
        0 <= from <= text.len(),
    ensures
        from + word_len(text, from) <= text.len(),
        from < text.len() && !is_space(text[from]) ==> word_len(text, from) >= 1,
        forall|i: int| from <= i < from + word_len(text, from) ==> !is_space(#[trigger] text[i]),
        from + word_len(text, from) < text.len() ==> is_space(text[from + word_len(text, from)]),
    decreases text.len() - from,
{
    if from < text.len() && !is_space(text[from]) {
        lemma_word_len(text, from + 1);
    }
}

/// The words of a text from `from` on: what stands between white space
pub open spec fn words_from(text: Seq<char>, from: int) -> Seq<Seq<char>>
    decreases text.len() - from,
{
    if from < 0 || from >= text.len() {
        Seq::empty()
    } else if is_space(text[from]) {
        words_from(text, from + 1)
    } else {
        let len = word_len(text, from);
        proof {
            lemma_word_len(text, from);
        }
        seq![text.subrange(from, from + len)] + words_from(text, from + len)
    }
}

/// The words of a text
pub open spec fn words_of(text: Seq<char>) -> Seq<Seq<char>> {
    words_from(text, 0)
}

/// The lines of a text from `from` on. A line ends before a line feed, or
/// before a carriage return and a line feed, or at the end of the text.
pub open spec fn lines_from(text: Seq<char>, from: int) -> Seq<Seq<char>>
    decreases text.len() - from,
{
    if from < 0 || from >= text.len() {
        Seq::empty()
    } else {
        let len = len_until(text, from, '\n', '\n');
        let end = from + len;
        let line = if end < text.len() && len > 0 && text[end - 1] == '\r' {
            text.subrange(from, end - 1)
        } else {
            text.subrange(from, end)
        };
        if end >= text.len() {
            seq![line]
        } else {
            seq![line] + lines_from(text, end + 1)
        }
    }
}

/// The lines of a text
pub open spec fn lines_of(text: Seq<char>) -> Seq<Seq<char>> {
    lines_from(text, 0)
}

/// The parts of a text from `from` on that a separator stands between
pub open spec fn parts_from(text: Seq<char>, from: int, separator: char) -> Seq<Seq<char>>
    decreases text.len() - from,
{
    let end = from + len_until(text, from, separator, separator);
    if from < 0 || end >= text.len() {
        seq![text.subrange(from, text.len() as int)]
    } else {
        seq![text.subrange(from, end)] + parts_from(text, end + 1, separator)
    }
}

/// The parts of a text that a separator stands between: one more than there are separators
pub open spec fn parts_of(text: Seq<char>, separator: char) -> Seq<Seq<char>> {
    parts_from(text, 0, separator)
}

/// The part of a line before the first `#` or `;`, where a comment starts
pub open spec fn code_of(line: Seq<char>) -> Seq<char> {
    line.take(len_until(line, 0, '#', ';') as int)
}

/// The text without the white space at its start and at its end
pub open spec fn trim(text: Seq<char>) -> Seq<char>
    decreases text.len(),
{
    if text.len() == 0 {
        text
    } else if is_space(text[0]) {
        trim(text.drop_first())
    } else if is_space(text.last()) {
        trim(text.drop_last())
    } else {
        text
    }
}

/// The number that a row of digits stands for
pub open spec fn decimal_value(digits: Seq<char>) -> nat
    decreases digits.len(),
{
    if digits.len() == 0 {
        0
    } else {
        (10 * decimal_value(digits.drop_last()) + (digits.last() as u32 - '0' as u32)) as nat
    }
}

/// Every character is a digit
pub open spec fn all_digits(text: Seq<char>) -> bool {
    forall|i: int| 0 <= i < text.len() ==> is_digit(#[trigger] text[i])
}

/// The text without a plus sign at its start
pub open spec fn without_sign(text: Seq<char>) -> Seq<char> {
    if text.len() > 0 && text[0] == '+' {
        text.drop_first()
    } else {
        text
    }
}

/// The number up to `max` that a text stands for: a row of digits, which a
/// plus sign may precede.
pub open spec fn parse_unsigned(text: Seq<char>, max: int) -> Result<int, ParseIntError> {
    let digits = without_sign(text);
    if text.len() == 0 {
        Err(ParseIntError::Empty)
    } else if digits.len() == 0 || !all_digits(digits) {
        Err(ParseIntError::InvalidDigit)
    } else if decimal_value(digits) > max {
        Err(ParseIntError::PosOverflow)
    } else {
        Ok(decimal_value(digits) as int)
    }
}

/// The characters of a text that may be missing
pub open spec fn text_of(text: Option<&str>) -> Option<Seq<char>> {
    match text {
        Some(text) => Some(text@),
        None => None,
    }
}

/// The characters of a text
pub fn chars_of(text: &str) -> (chars: Vec<char>)
    ensures
        chars@ == text@,
{
    let mut chars: Vec<char> = Vec::new();
    for c in it: text.chars()
        invariant
            it.seq() == text@,
            chars@ == it.seq().take(it.index() as int),
    {
        chars.push(c);
    }
    chars
}

/// Tells whether two texts are the same, character by character
pub fn same_text(a: &str, b: &str) -> (same: bool)
    ensures
        same == (a@ == b@),
{
    let left = chars_of(a);
    let right = chars_of(b);
    if left.len() != right.len() {
        return false;
    }
    let mut i: usize = 0;
    while i < left.len()
        invariant
            i <= left.len(),
            left.len() == right.len(),
            left@ == a@,
            right@ == b@,
            forall|j: int| 0 <= j < i ==> left@[j] == right@[j],
        decreases left.len() - i,
    {
        if left[i] != right[i] {
            return false;
        }
        i += 1;
    }
    assert(left@ =~= right@);
    true
}

/// Tells whether a character is white space
pub fn is_whitespace(c: char) -> (space: bool)
    ensures
        space == is_space(c),
{
    let code = c as u32;
    (0x09 <= code && code <= 0x0d) || code == 0x20 || code == 0x85 || code == 0xa0 || code
        == 0x1680 || (0x2000 <= code && code <= 0x200a) || code == 0x2028 || code == 0x2029
        || code == 0x202f || code == 0x205f || code == 0x3000
}

/// The index at which the word that starts at `from` ends, among the first
/// `len` characters of a text
pub fn word_end(text: &Vec<char>, from: usize, len: usize) -> (end: usize)
    requires
        from <= len <= text.len(),
    ensures
        end == from + word_len(text@.take(len as int), from as int),
        end <= len,
{
    let ghost code = text@.take(len as int);
    let mut end = from;
    while end < len && !is_whitespace(text[end])
        invariant
            from <= end <= len <= text.len(),
            code == text@.take(len as int),
            from + word_len(code, from as int) == end + word_len(code, end as int),
        decreases len - end,
    {
        end += 1;
    }
    end
}

/// The index from `from` on of the first `a` or `b`, or the length of the text
pub fn find_either(text: &Vec<char>, from: usize, a: char, b: char) -> (end: usize)
    requires
        from <= text.len(),
    ensures
        end == from + len_until(text@, from as int, a, b),
        end <= text.len(),
{
    let mut end = from;
    while end < text.len() && text[end] != a && text[end] != b
        invariant
            from <= end <= text.len(),
            from + len_until(text@, from as int, a, b) == end + len_until(text@, end as int, a, b),
        decreases text.len() - end,
    {
        end += 1;
    }
    end
}

/// Where the pieces of a text stand in it: piece `i` is what stands from
/// `spans[i].0` up to `spans[i].1`.
pub open spec fn spans_give(text: Seq<char>, spans: Seq<(usize, usize)>, pieces: Seq<Seq<char>>) -> bool {
    &&& spans.len() == pieces.len()
    &&& forall|i: int|
        0 <= i < spans.len() ==> {
            &&& (#[trigger] spans[i]).0 <= spans[i].1 <= text.len()
            &&& text.subrange(spans[i].0 as int, spans[i].1 as int) == pieces[i]
        }
}

/// Where the words of the first `len` characters of a text stand
pub fn word_spans(text: &Vec<char>, len: usize) -> (spans: Vec<(usize, usize)>)
    requires
        len <= text.len(),
    ensures
        spans_give(text@, spans@, words_of(text@.take(len as int))),
{
    let ghost code = text@.take(len as int);
    let mut spans: Vec<(usize, usize)> = Vec::new();
    let mut at: usize = 0;
    while at < len
        invariant
            at <= len <= text.len(),
            code == text@.take(len as int),
            spans@.len() + words_from(code, at as int).len() == words_of(code).len(),
            forall|i: int|
                0 <= i < spans.len() ==> {
                    &&& (#[trigger] spans[i]).0 <= spans[i].1 <= text.len()
                    &&& text@.subrange(spans[i].0 as int, spans[i].1 as int) == words_of(code)[i]
                },
            forall|i: int|
                0 <= i < words_from(code, at as int).len() ==> words_from(code, at as int)[i]
                    == words_of(code)[spans.len() + i],
        decreases len - at,
    {
        if is_whitespace(text[at]) {
            at += 1;
        } else {
            let end = word_end(text, at, len);
            proof {
                let rest = words_from(code, end as int);
                let word = code.subrange(at as int, end as int);
                assert(words_from(code, at as int) == seq![word] + rest);
                assert(word =~= text@.subrange(at as int, end as int));
                assert forall|i: int| 0 <= i < rest.len() implies rest[i] == words_of(code)[spans.len()
                    + 1 + i] by {
                    assert(rest[i] == words_from(code, at as int)[i + 1]);
                }
                assert(words_from(code, at as int)[0] == word);
            }
            spans.push((at, end));
            at = end;
        }
    }
    spans
}

/// Where the lines of a text stand
pub fn line_spans(text: &Vec<char>) -> (spans: Vec<(usize, usize)>)
    ensures
        spans_give(text@, spans@, lines_of(text@)),
{
    let mut spans: Vec<(usize, usize)> = Vec::new();
    let mut at: usize = 0;
    while at < text.len()
        invariant
            at <= text.len(),
            spans@.len() + lines_from(text@, at as int).len() == lines_of(text@).len(),
            forall|i: int|
                0 <= i < spans.len() ==> {
                    &&& (#[trigger] spans[i]).0 <= spans[i].1 <= text.len()
                    &&& text@.subrange(spans[i].0 as int, spans[i].1 as int) == lines_of(text@)[i]
                },
            forall|i: int|
                0 <= i < lines_from(text@, at as int).len() ==> lines_from(text@, at as int)[i]
                    == lines_of(text@)[spans.len() + i],
        decreases text.len() - at,
    {
        let end = find_either(text, at, '\n', '\n');
        let stop = if end < text.len() && end > at && text[end - 1] == '\r' {
            end - 1
        } else {
            end
        };
        proof {
            let line = text@.subrange(at as int, stop as int);
            let rest = if end >= text.len() {
                Seq::<Seq<char>>::empty()
            } else {
                lines_from(text@, end + 1)
            };
            assert(lines_from(text@, at as int) =~= seq![line] + rest);
            assert forall|i: int| 0 <= i < rest.len() implies rest[i] == lines_of(text@)[spans.len()
                + 1 + i] by {
                assert(rest[i] == lines_from(text@, at as int)[i + 1]);
            }
            assert(lines_from(text@, at as int)[0] == line);
        }
        spans.push((at, stop));
        at = if end < text.len() {
            end + 1
        } else {
            end
        };
    }
    spans
}

/// Where the parts of a text stand that a separator stands between
pub fn part_spans(text: &Vec<char>, separator: char) -> (spans: Vec<(usize, usize)>)
    ensures
        spans_give(text@, spans@, parts_of(text@, separator)),
{
    let mut spans: Vec<(usize, usize)> = Vec::new();
    let mut at: usize = 0;
    loop
        invariant
            at <= text.len(),
            spans@.len() + parts_from(text@, at as int, separator).len() == parts_of(
                text@,
                separator,
            ).len(),
            forall|i: int|
                0 <= i < spans.len() ==> {
                    &&& (#[trigger] spans[i]).0 <= spans[i].1 <= text.len()
                    &&& text@.subrange(spans[i].0 as int, spans[i].1 as int) == parts_of(
                        text@,
                        separator,
                    )[i]
                },
            forall|i: int|
                0 <= i < parts_from(text@, at as int, separator).len() ==> parts_from(
                    text@,
                    at as int,
                    separator,
                )[i] == parts_of(text@, separator)[spans.len() + i],
        decreases text.len() - at,
    {
        let end = find_either(text, at, separator, separator);
        proof {
            let part = text@.subrange(at as int, end as int);
            let rest = if end >= text.len() {
                Seq::<Seq<char>>::empty()
            } else {
                parts_from(text@, end + 1, separator)
            };
            assert(parts_from(text@, at as int, separator) =~= seq![part] + rest);
            assert forall|i: int| 0 <= i < rest.len() implies rest[i] == parts_of(
                text@,
                separator,
            )[spans.len() + 1 + i] by {
                assert(rest[i] == parts_from(text@, at as int, separator)[i + 1]);
            }
            assert(parts_from(text@, at as int, separator)[0] == part);
        }
        spans.push((at, end));
        if end >= text.len() {
            return spans;
        }
        at = end + 1;
    }
}

/// Where a text stands without the white space at its start and at its end
pub fn trim_span(text: &Vec<char>, len: usize) -> (span: (usize, usize))
    requires
        len <= text.len(),
    ensures
        span.0 <= span.1 <= len,
        text@.subrange(span.0 as int, span.1 as int) == trim(text@.take(len as int)),
{
    let ghost whole = text@.take(len as int);
    let mut start: usize = 0;
    assert(whole.subrange(0, len as int) =~= whole);
    while start < len && is_whitespace(text[start])
        invariant
            start <= len <= text.len(),
            whole == text@.take(len as int),
            trim(whole) == trim(whole.subrange(start as int, len as int)),
        decreases len - start,
    {
        assert(whole.subrange(start as int, len as int).drop_first() =~= whole.subrange(
            start + 1,
            len as int,
        ));
        start += 1;
    }
    let mut end: usize = len;
    while end > start && is_whitespace(text[end - 1])
        invariant
            start <= end <= len <= text.len(),
            whole == text@.take(len as int),
            trim(whole) == trim(whole.subrange(start as int, end as int)),
            start < len ==> !is_space(text@[start as int]),
        decreases end,
    {
        assert(whole.subrange(start as int, end as int).drop_last() =~= whole.subrange(
            start as int,
            end - 1,
        ));
        end -= 1;
    }
    assert(whole.subrange(start as int, end as int) =~= text@.subrange(start as int, end as int));
    (start, end)
}

/// The number up to `max` that a text stands for
///
/// # Errors
/// See [`ParseIntError`]
pub fn parse_number(text: &Vec<char>, max: u64) -> (number: Result<u64, ParseIntError>)
    requires
        max <= u32::MAX,
    ensures
        match number {
            Ok(value) => parse_unsigned(text@, max as int) == Ok::<int, ParseIntError>(value as int),
            Err(error) => parse_unsigned(text@, max as int) == Err::<int, ParseIntError>(error),
        },
{
    if text.len() == 0 {
        return Err(ParseIntError::Empty);
    }
    let start: usize = if text[0] == '+' {
        1
    } else {
        0
    };
    let ghost digits = without_sign(text@);
    if start == text.len() {
        return Err(ParseIntError::InvalidDigit);
    }
    let mut value: u64 = 0;
    let mut overflow = false;
    let mut at = start;
    while at < text.len()
        invariant
            start <= at <= text.len(),
            text.len() > 0,
            digits == without_sign(text@),
            digits =~= text@.skip(start as int),
            max <= u32::MAX,
            all_digits(digits.take(at - start)),
            !overflow ==> value == decimal_value(digits.take(at - start)) && value <= max,
            overflow ==> decimal_value(digits.take(at - start)) > max,
        decreases text.len() - at,
    {
        let c = text[at];
        let code = c as u32;
        if code < 48 || code > 57 {
            assert(!is_digit(digits[at - start]));
            return Err(ParseIntError::InvalidDigit);
        }
        proof {
            let more = digits.take(at - start + 1);
            assert(more.drop_last() =~= digits.take(at - start));
            assert(more.last() == c);
        }
        if !overflow {
            value = value * 10 + (code - 48) as u64;
            if value > max {
                overflow = true;
            }
        }
        at += 1;
    }
    assert(digits.take(at - start) =~= digits);
    if overflow {
        Err(ParseIntError::PosOverflow)
    } else {
        Ok(value)
    }
}

/// The piece of a text from one character index up to another
pub fn piece<'a>(text: &'a str, span: (usize, usize)) -> (piece: &'a str)
    requires
        span.0 <= span.1 <= text@.len(),
    ensures
        piece@ == text@.subrange(span.0 as int, span.1 as int),
{
    text.substring_char(span.0, span.1)
}

} // verus!
