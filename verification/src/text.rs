//! Text helpers: character sequences, trimming, joining and ASCII case.

use vstd::prelude::*;

verus! {

/// `String::push` appends one character at the end.
pub assume_specification[ std::string::String::push ](target: &mut String, c: char)
    ensures
        final(target)@ == old(target)@.push(c),
;

/// The characters with the Unicode `White_Space` property.
pub open spec fn is_space(c: char) -> bool {
    let code = c as u32;
    ||| 0x9 <= code <= 0xd
    ||| code == 0x20
    ||| code == 0x85
    ||| code == 0xa0
    ||| code == 0x1680
    ||| 0x2000 <= code <= 0x200a
    ||| code == 0x2028
    ||| code == 0x2029
    ||| code == 0x202f
    ||| code == 0x205f
    ||| code == 0x3000
}

/// `s` without its leading white space.
pub open spec fn trimmed_start(s: Seq<char>) -> Seq<char>
    decreases s.len(),
{
    if s.len() > 0 && is_space(s[0]) {
        trimmed_start(s.drop_first())
    } else {
        s
    }
}

/// `s` without its trailing white space.
pub open spec fn trimmed_end(s: Seq<char>) -> Seq<char>
    decreases s.len(),
{
    if s.len() > 0 && is_space(s.last()) {
        trimmed_end(s.drop_last())
    } else {
        s
    }
}

/// `s` without white space at either end.
pub open spec fn trimmed(s: Seq<char>) -> Seq<char> {
    trimmed_end(trimmed_start(s))
}

pub open spec fn is_ascii_upper(c: char) -> bool {
    'A' <= c && c <= 'Z'
}

pub open spec fn is_ascii_digit(c: char) -> bool {
    '0' <= c && c <= '9'
}

pub open spec fn is_ascii_alnum(c: char) -> bool {
    is_ascii_upper(c) || ('a' <= c && c <= 'z') || is_ascii_digit(c)
}

/// ASCII lower case of one character; every other character is itself.
pub open spec fn ascii_lower(c: char) -> char {
    if is_ascii_upper(c) {
        (c as u8 + 32) as char
    } else {
        c
    }
}

/// `s` with its ASCII capitals in lower case.
pub open spec fn lowered(s: Seq<char>) -> Seq<char> {
    s.map_values(|c: char| ascii_lower(c))
}

/// `s` without the leading occurrences of `edge`.
pub open spec fn stripped_start(s: Seq<char>, edge: char) -> Seq<char>
    decreases s.len(),
{
    if s.len() > 0 && s[0] == edge {
        stripped_start(s.drop_first(), edge)
    } else {
        s
    }
}

/// `s` without the trailing occurrences of `edge`.
pub open spec fn stripped_end(s: Seq<char>, edge: char) -> Seq<char>
    decreases s.len(),
{
    if s.len() > 0 && s.last() == edge {
        stripped_end(s.drop_last(), edge)
    } else {
        s
    }
}

/// `s` without `edge` at either end.
pub open spec fn stripped(s: Seq<char>, edge: char) -> Seq<char> {
    stripped_end(stripped_start(s, edge), edge)
}

/// The pieces of `s` between the occurrences of `sep`: always one more than there are.
pub open spec fn pieces(s: Seq<char>, sep: char) -> Seq<Seq<char>>
    decreases s.len(),
{
    if s.len() == 0 {
        seq![Seq::<char>::empty()]
    } else {
        let before = pieces(s.drop_last(), sep);
        if s.last() == sep {
            before.push(Seq::<char>::empty())
        } else {
            before.drop_last().push(before.last().push(s.last()))
        }
    }
}

/// `parts` with `sep` between neighbours.
pub open spec fn joined(parts: Seq<Seq<char>>, sep: Seq<char>) -> Seq<char>
    decreases parts.len(),
{
    if parts.len() == 0 {
        Seq::<char>::empty()
    } else if parts.len() == 1 {
        parts[0]
    } else {
        joined(parts.drop_last(), sep) + sep + parts.last()
    }
}

/// The contents of a list of strings.
pub open spec fn texts(list: Seq<String>) -> Seq<Seq<char>> {
    list.map_values(|item: String| item@)
}

/// The content of an optional string.
pub open spec fn opt_text(value: Option<String>) -> Option<Seq<char>> {
    match value {
        Some(inner) => Some(inner@),
        None => None,
    }
}

/// The content of an optional borrowed string.
pub open spec fn opt_str(value: Option<&str>) -> Option<Seq<char>> {
    match value {
        Some(inner) => Some(inner@),
        None => None,
    }
}

pub open spec fn starts_with(s: Seq<char>, prefix: Seq<char>) -> bool {
    prefix.len() <= s.len() && s.take(prefix.len() as int) == prefix
}

pub open spec fn ends_with(s: Seq<char>, suffix: Seq<char>) -> bool {
    suffix.len() <= s.len() && s.skip(s.len() - suffix.len()) == suffix
}

/// Whether `part` stands in `s` at place `at`.
pub open spec fn stands_at(s: Seq<char>, part: Seq<char>, at: int) -> bool {
    0 <= at <= s.len() - part.len() && s.subrange(at, at + part.len()) == part
}

/// Whether `part` stands somewhere in `s`.
pub open spec fn contains(s: Seq<char>, part: Seq<char>) -> bool {
    exists|at: int| #[trigger] stands_at(s, part, at)
}

/// The characters of `text`, in order.
pub fn chars_of(text: &str) -> (chars: Vec<char>)
    ensures
        chars@ == text@,
{
    let mut chars: Vec<char> = Vec::new();
    for c in walk: text.chars()
        invariant
            walk.seq() == text@,
            chars@ == text@.take(walk.index() as int),
    {
        chars.push(c);
        assert(text@.take(walk.index() as int + 1) =~= text@.take(walk.index() as int).push(c));
    }
    assert(text@.take(text@.len() as int) =~= text@);
    chars
}

/// The string made of `chars`.
pub fn text_of(chars: &[char]) -> (text: String)
    ensures
        text@ == chars@,
{
    let mut text = String::new();
    let mut i: usize = 0;
    while i < chars.len()
        invariant
            i <= chars@.len(),
            text@ == chars@.take(i as int),
        decreases chars@.len() - i,
    {
        assert(chars@.take(i + 1) =~= chars@.take(i as int).push(chars@[i as int]));
        text.push(chars[i]);
        i += 1;
    }
    assert(chars@.take(i as int) =~= chars@);
    text
}

/// Whether two strings hold the same characters.
pub fn same_text(a: &str, b: &str) -> (same: bool)
    ensures
        same == (a@ == b@),
{
    let x = chars_of(a);
    let y = chars_of(b);
    same_chars(&x, &y)
}

/// Whether two character lists are equal.
pub fn same_chars(x: &[char], y: &[char]) -> (same: bool)
    ensures
        same == (x@ == y@),
{
    if x.len() != y.len() {
        return false;
    }
    let mut i: usize = 0;
    while i < x.len()
        invariant
            i <= x@.len(),
            x@.len() == y@.len(),
            x@.take(i as int) == y@.take(i as int),
        decreases x@.len() - i,
    {
        if x[i] != y[i] {
            return false;
        }
        assert(x@.take(i + 1) =~= x@.take(i as int).push(x@[i as int]));
        assert(y@.take(i + 1) =~= y@.take(i as int).push(y@[i as int]));
        i += 1;
    }
    assert(x@.take(i as int) =~= x@);
    assert(y@.take(i as int) =~= y@);
    true
}

/// The part of `chars` from `from` up to but not including `to`.
pub fn slice_of(chars: &[char], from: usize, to: usize) -> (part: Vec<char>)
    requires
        from <= to <= chars@.len(),
    ensures
        part@ == chars@.subrange(from as int, to as int),
{
    let mut part: Vec<char> = Vec::new();
    let mut i: usize = from;
    while i < to
        invariant
            from <= i <= to <= chars@.len(),
            part@ == chars@.subrange(from as int, i as int),
        decreases to - i,
    {
        part.push(chars[i]);
        i += 1;
        assert(part@ =~= chars@.subrange(from as int, i as int));
    }
    part
}

fn whitespace(c: char) -> (space: bool)
    ensures
        space == is_space(c),
{
    let code: u32 = c as u32;
    (0x9 <= code && code <= 0xd) || code == 0x20 || code == 0x85 || code == 0xa0 || code == 0x1680
        || (0x2000 <= code && code <= 0x200a) || code == 0x2028 || code == 0x2029 || code == 0x202f
        || code == 0x205f || code == 0x3000
}

/// `text` without white space at either end.
pub fn trim(text: &str) -> (out: String)
    ensures
        out@ == trimmed(text@),
{
    let chars = chars_of(text);
    let mut start: usize = 0;
    assert(chars@.skip(0) =~= chars@);
    while start < chars.len() && whitespace(chars[start])
        invariant
            start <= chars@.len(),
            trimmed_start(chars@.skip(start as int)) == trimmed_start(chars@),
        decreases chars@.len() - start,
    {
        assert(chars@.skip(start as int).drop_first() =~= chars@.skip(start + 1));
        start += 1;
    }
    let mut end: usize = chars.len();
    let ghost body = chars@.skip(start as int);
    assert(trimmed_start(body) == body);
    assert(body =~= chars@.subrange(start as int, end as int));
    while start < end && whitespace(chars[end - 1])
        invariant
            start <= end <= chars@.len(),
            trimmed_end(chars@.subrange(start as int, end as int)) == trimmed_end(body),
        decreases end,
    {
        assert(chars@.subrange(start as int, end as int).drop_last() =~= chars@.subrange(
            start as int,
            end - 1,
        ));
        end -= 1;
    }
    let part = slice_of(&chars, start, end);
    text_of(&part)
}

/// ASCII lower case of one character.
pub fn lower_char(c: char) -> (low: char)
    ensures
        low == ascii_lower(c),
{
    if 'A' <= c && c <= 'Z' {
        (c as u8 + 32) as char
    } else {
        c
    }
}

/// `text` with its ASCII capitals in lower case.
pub fn lower(text: &str) -> (out: String)
    ensures
        out@ == lowered(text@),
{
    let chars = chars_of(text);
    let mut out = String::new();
    let mut i: usize = 0;
    while i < chars.len()
        invariant
            i <= chars@.len(),
            out@ == lowered(chars@.take(i as int)),
        decreases chars@.len() - i,
    {
        out.push(lower_char(chars[i]));
        i += 1;
        assert(out@ =~= lowered(chars@.take(i as int)));
    }
    assert(chars@.take(i as int) =~= chars@);
    out
}

/// `chars` without `edge` at either end.
pub fn strip_edges(chars: &[char], edge: char) -> (out: Vec<char>)
    ensures
        out@ == stripped(chars@, edge),
{
    let mut start: usize = 0;
    assert(chars@.skip(0) =~= chars@);
    while start < chars.len() && chars[start] == edge
        invariant
            start <= chars@.len(),
            stripped_start(chars@.skip(start as int), edge) == stripped_start(chars@, edge),
        decreases chars@.len() - start,
    {
        assert(chars@.skip(start as int).drop_first() =~= chars@.skip(start + 1));
        start += 1;
    }
    let mut end: usize = chars.len();
    let ghost body = chars@.skip(start as int);
    assert(stripped_start(body, edge) == body);
    assert(body =~= chars@.subrange(start as int, end as int));
    while start < end && chars[end - 1] == edge
        invariant
            start <= end <= chars@.len(),
            stripped_end(chars@.subrange(start as int, end as int), edge) == stripped_end(body, edge),
        decreases end,
    {
        assert(chars@.subrange(start as int, end as int).drop_last() =~= chars@.subrange(
            start as int,
            end - 1,
        ));
        end -= 1;
    }
    slice_of(chars, start, end)
}

/// The strings of `parts` with `sep` between neighbours.
pub fn join(parts: &[String], sep: &str) -> (out: String)
    ensures
        out@ == joined(texts(parts@), sep@),
{
    let mut out = String::new();
    let mut i: usize = 0;
    while i < parts.len()
        invariant
            i <= parts@.len(),
            out@ == joined(texts(parts@).take(i as int), sep@),
        decreases parts@.len() - i,
    {
        let ghost all = texts(parts@);
        assert(all.take(i + 1).drop_last() =~= all.take(i as int));
        assert(all.take(i + 1).last() == parts@[i as int]@);
        if i > 0 {
            out.append(sep);
        } else {
            assert(Seq::<char>::empty() + parts@[0]@ =~= parts@[0]@);
        }
        out.append(parts[i].as_str());
        i += 1;
    }
    assert(texts(parts@).take(i as int) =~= texts(parts@));
    out
}

/// Whether `text` begins with `prefix`.
pub fn has_prefix(text: &str, prefix: &str) -> (yes: bool)
    ensures
        yes == starts_with(text@, prefix@),
{
    let chars = chars_of(text);
    let head = chars_of(prefix);
    if head.len() > chars.len() {
        return false;
    }
    let part = slice_of(&chars, 0, head.len());
    assert(part@ =~= text@.take(prefix@.len() as int));
    same_chars(&part, &head)
}

/// Whether `text` ends with `suffix`.
pub fn has_suffix(text: &str, suffix: &str) -> (yes: bool)
    ensures
        yes == ends_with(text@, suffix@),
{
    let chars = chars_of(text);
    let tail = chars_of(suffix);
    if tail.len() > chars.len() {
        return false;
    }
    let part = slice_of(&chars, chars.len() - tail.len(), chars.len());
    assert(part@ =~= text@.skip(text@.len() - suffix@.len()));
    same_chars(&part, &tail)
}

/// Whether `part` stands somewhere in `text`.
pub fn has_part(text: &str, part: &str) -> (yes: bool)
    ensures
        yes == contains(text@, part@),
{
    let chars = chars_of(text);
    let wanted = chars_of(part);
    if wanted.len() > chars.len() {
        assert forall|at: int| !#[trigger] stands_at(text@, part@, at) by {}
        return false;
    }
    let size: usize = wanted.len();
    let total: usize = chars.len();
    let last: usize = total - size;
    let mut at: usize = 0;
    loop
        invariant
            at <= last,
            size == wanted@.len(),
            total == chars@.len(),
            last + size == total,
            chars@ == text@,
            wanted@ == part@,
            forall|j: int| 0 <= j < at ==> !#[trigger] stands_at(text@, part@, j),
        decreases last - at,
    {
        let found = slice_of(&chars, at, at + size);
        if same_chars(&found, &wanted) {
            assert(stands_at(text@, part@, at as int));
            return true;
        }
        if at == last {
            return false;
        }
        at += 1;
    }
}

/// A copy of an optional string.
pub fn copy_opt(value: &Option<String>) -> (copy: Option<String>)
    ensures
        copy == *value,
{
    match value {
        Some(inner) => Some(inner.clone()),
        None => None,
    }
}

/// A copy of a list of strings.
pub fn copy_list(list: &[String]) -> (copy: Vec<String>)
    ensures
        copy@ == list@,
{
    let mut copy: Vec<String> = Vec::new();
    let mut i: usize = 0;
    while i < list.len()
        invariant
            i <= list@.len(),
            copy@ == list@.take(i as int),
        decreases list@.len() - i,
    {
        copy.push(list[i].clone());
        i += 1;
        assert(copy@ =~= list@.take(i as int));
    }
    assert(list@.take(i as int) =~= list@);
    copy
}

/// The concatenation of two strings.
pub fn concat(a: &str, b: &str) -> (out: String)
    ensures
        out@ == a@ + b@,
{
    let mut out = a.to_string();
    out.append(b);
    out
}

/// The pieces of `text` between the occurrences of `sep`.
pub fn split(text: &str, sep: char) -> (parts: Vec<String>)
    ensures
        texts(parts@) == pieces(text@, sep),
        parts@.len() > 0,
{
    let chars = chars_of(text);
    let mut parts: Vec<String> = Vec::new();
    let mut current = String::new();
    let mut i: usize = 0;
    while i < chars.len()
        invariant
            i <= chars@.len(),
            chars@ == text@,
            texts(parts@).push(current@) == pieces(text@.take(i as int), sep),
        decreases chars@.len() - i,
    {
        let ghost before = pieces(text@.take(i as int), sep);
        let ghost old_parts = texts(parts@);
        assert(text@.take(i + 1).drop_last() =~= text@.take(i as int));
        assert(before.last() == current@);
        assert(before.drop_last() =~= old_parts);
        if chars[i] == sep {
            parts.push(current);
            current = String::new();
            assert(texts(parts@) =~= before);
        } else {
            current.push(chars[i]);
        }
        i += 1;
        assert(texts(parts@).push(current@) =~= pieces(text@.take(i as int), sep));
    }
    assert(text@.take(i as int) =~= text@);
    parts.push(current);
    assert(texts(parts@) =~= pieces(text@, sep));
    parts
}

/// The last character of text that ends in no white space stays last when the front is trimmed.
proof fn trimmed_start_keeps_end(s: Seq<char>)
    ensures
        trimmed_start(s).len() <= s.len(),
        trimmed_start(s) == s.skip(s.len() - trimmed_start(s).len()),
        trimmed_start(s).len() > 0 ==> !is_space(trimmed_start(s)[0]),
    decreases s.len(),
{
    if s.len() > 0 && is_space(s[0]) {
        let rest = s.drop_first();
        trimmed_start_keeps_end(rest);
        let n = trimmed_start(rest).len();
        assert(rest.skip(rest.len() - n) =~= s.skip(s.len() - n));
    } else {
        assert(s.skip(0) =~= s);
    }
}

proof fn trimmed_end_keeps_start(s: Seq<char>)
    ensures
        trimmed_end(s).len() <= s.len(),
        trimmed_end(s) == s.take(trimmed_end(s).len() as int),
        trimmed_end(s).len() > 0 ==> !is_space(trimmed_end(s).last()),
    decreases s.len(),
{
    if s.len() > 0 && is_space(s.last()) {
        let rest = s.drop_last();
        trimmed_end_keeps_start(rest);
        let n = trimmed_end(rest).len() as int;
        assert(rest.take(n) =~= s.take(n));
    } else {
        assert(s.take(s.len() as int) =~= s);
    }
}

/// Trimmed text has no white space at either end.
pub proof fn trimmed_has_bare_edges(s: Seq<char>)
    ensures
        trimmed(s).len() > 0 ==> !is_space(trimmed(s)[0]) && !is_space(trimmed(s).last()),
{
    trimmed_start_keeps_end(s);
    trimmed_end_keeps_start(trimmed_start(s));
}

/// Trimming text a second time changes nothing.
pub proof fn trimming_twice_is_trimming_once(s: Seq<char>)
    ensures
        trimmed(trimmed(s)) == trimmed(s),
{
    trimmed_has_bare_edges(s);
}

/// Text that begins and ends with a character that is no white space is its own trimmed form.
pub proof fn bare_edges_stay(s: Seq<char>)
    requires
        s.len() > 0 ==> !is_space(s[0]) && !is_space(s.last()),
    ensures
        trimmed(s) == s,
{
}

/// What `char::is_alphanumeric` says of a character.
pub uninterp spec fn unicode_alphanumeric(c: char) -> bool;

/// What `char::to_lowercase` makes of a character.
pub uninterp spec fn unicode_lowercase(c: char) -> Seq<char>;

/// `char::is_alphanumeric` is a fixed property of the character. Among ASCII characters the
/// letters and digits have it.
pub assume_specification[ char::is_alphanumeric ](c: char) -> (yes: bool)
    ensures
        yes == unicode_alphanumeric(c),
        (c as u32) < 128 ==> yes == is_ascii_alnum(c),
;

/// `char::to_lowercase` gives a fixed sequence for each character. An ASCII capital becomes its
/// small letter and every other ASCII character is itself.
#[verifier::external_body]
fn lowercase_of(c: char) -> (low: Vec<char>)
    ensures
        low@ == unicode_lowercase(c),
        (c as u32) < 128 ==> low@ == seq![ascii_lower(c)],
{
    c.to_lowercase().collect()
}

/// The letters that a squeezed text keeps: ASCII letters and digits, or those of all scripts.
#[derive(Debug, Clone, Copy, PartialEq, Eq, Structural)]
pub enum Alphabet {
    Ascii,
    Unicode,
}

impl Alphabet {
    pub open spec fn keeps(self, c: char) -> bool {
        match self {
            Alphabet::Ascii => is_ascii_alnum(c),
            Alphabet::Unicode => unicode_alphanumeric(c),
        }
    }

    pub open spec fn low(self, c: char) -> Seq<char> {
        match self {
            Alphabet::Ascii => seq![ascii_lower(c)],
            Alphabet::Unicode => unicode_lowercase(c),
        }
    }
}

/// `s` in lower case, with `_` in place of each run of characters that are not kept.
pub open spec fn squeezed(s: Seq<char>, alphabet: Alphabet) -> Seq<char>
    decreases s.len(),
{
    if s.len() == 0 {
        Seq::<char>::empty()
    } else {
        let before = squeezed(s.drop_last(), alphabet);
        if alphabet.keeps(s.last()) {
            before + alphabet.low(s.last())
        } else if s.len() > 1 && !alphabet.keeps(s[s.len() - 2]) {
            before
        } else {
            before.push('_')
        }
    }
}

/// `input` in lower case, with `_` in place of each run of characters that are not kept.
pub fn squeeze(input: &str, alphabet: Alphabet) -> (out: Vec<char>)
    ensures
        out@ == squeezed(input@, alphabet),
{
    let chars = chars_of(input);
    let mut out: Vec<char> = Vec::new();
    let mut separated: bool = false;
    let mut i: usize = 0;
    while i < chars.len()
        invariant
            i <= chars@.len(),
            out@ == squeezed(chars@.take(i as int), alphabet),
            separated == (i > 0 && !alphabet.keeps(chars@[i - 1])),
        decreases chars@.len() - i,
    {
        let c = chars[i];
        let ghost next = chars@.take(i + 1);
        assert(next.drop_last() =~= chars@.take(i as int));
        assert(next.last() == c);
        assert(i > 0 ==> next[next.len() - 2] == chars@[i - 1]);
        let kept: bool = match alphabet {
            Alphabet::Ascii => ('A' <= c && c <= 'Z') || ('a' <= c && c <= 'z') || ('0' <= c && c <= '9'),
            Alphabet::Unicode => c.is_alphanumeric(),
        };
        if kept {
            match alphabet {
                Alphabet::Ascii => {
                    out.push(lower_char(c));
                    assert(out@ =~= squeezed(next, alphabet));
                },
                Alphabet::Unicode => {
                    let mut low = lowercase_of(c);
                    out.append(&mut low);
                },
            }
        } else if !separated {
            out.push('_');
        }
        separated = !kept;
        i += 1;
    }
    assert(chars@.take(i as int) =~= chars@);
    out
}

/// Whether `text` holds no character.
pub fn is_empty(text: &str) -> (yes: bool)
    ensures
        yes == (text@.len() == 0),
{
    let chars = chars_of(text);
    chars.len() == 0
}

/// `count` spaces.
pub open spec fn spaces(count: int) -> Seq<char> {
    Seq::new(
        if count > 0 {
            count as nat
        } else {
            0
        },
        |i: int| ' ',
    )
}

/// `s` with spaces in front, up to `width` characters.
pub open spec fn right_aligned(s: Seq<char>, width: int) -> Seq<char> {
    spaces(width - s.len()) + s
}

/// `s` with spaces behind, up to `width` characters.
pub open spec fn left_aligned(s: Seq<char>, width: int) -> Seq<char> {
    s + spaces(width - s.len())
}

fn blanks(taken: usize, width: usize) -> (out: String)
    ensures
        out@ == spaces(width - taken),
{
    let mut out = String::new();
    let mut i: usize = taken;
    while i < width
        invariant
            taken <= width ==> taken <= i <= width,
            taken > width ==> i == taken,
            out@ == spaces(i - taken),
        decreases width - i,
    {
        let ghost before = out@;
        out.push(' ');
        i += 1;
        assert(out@ =~= spaces(i - taken));
    }
    assert(out@ =~= spaces(width - taken));
    out
}

/// `text` with spaces in front, up to `width` characters.
pub fn align_right(text: &str, width: usize) -> (out: String)
    ensures
        out@ == right_aligned(text@, width as int),
{
    let chars = chars_of(text);
    let mut out = blanks(chars.len(), width);
    out.append(text);
    out
}

/// `text` with spaces behind, up to `width` characters.
pub fn align_left(text: &str, width: usize) -> (out: String)
    ensures
        out@ == left_aligned(text@, width as int),
{
    let chars = chars_of(text);
    let blank = blanks(chars.len(), width);
    concat(text, blank.as_str())
}

proof fn pieces_grow(a: Seq<char>, sep: char, b: Seq<char>)
    requires
        !b.contains(sep),
    ensures
        pieces(a.push(sep) + b, sep) == pieces(a, sep).push(b),
    decreases b.len(),
{
    let whole = a.push(sep) + b;
    if b.len() == 0 {
        assert(whole =~= a.push(sep));
        assert(whole.drop_last() =~= a);
        assert(b =~= Seq::<char>::empty());
    } else {
        let init = b.drop_last();
        assert(!init.contains(sep)) by {
            if init.contains(sep) {
                let k = choose|k: int| 0 <= k < init.len() && init[k] == sep;
                assert(b[k] == sep);
            }
        }
        pieces_grow(a, sep, init);
        assert(whole.drop_last() =~= a.push(sep) + init);
        assert(whole.last() == b.last());
        assert(b[b.len() - 1] != sep);
        let before = pieces(a, sep).push(init);
        assert(before.drop_last() =~= pieces(a, sep));
        assert(init.push(b.last()) =~= b);
    }
}

/// Splitting what was joined gives the parts back, where no part holds the separator.
pub proof fn split_undoes_join(list: Seq<Seq<char>>, sep: char)
    requires
        list.len() > 0,
        forall|i: int| 0 <= i < list.len() ==> !(#[trigger] list[i]).contains(sep),
    ensures
        pieces(joined(list, seq![sep]), sep) == list,
    decreases list.len(),
{
    if list.len() == 1 {
        assert(!list[0].contains(sep));
        whole_is_one_piece(list[0], sep);
        assert(list =~= seq![list[0]]);
    } else {
        let init = list.drop_last();
        assert forall|i: int| 0 <= i < init.len() implies !(#[trigger] init[i]).contains(sep) by {
            assert(init[i] == list[i]);
        }
        split_undoes_join(init, sep);
        let a = joined(init, seq![sep]);
        let last = list[list.len() - 1];
        assert(!last.contains(sep));
        pieces_grow(a, sep, last);
        assert(a + seq![sep] + last =~= a.push(sep) + last);
        assert(init.push(last) =~= list);
    }
}

proof fn whole_is_one_piece(s: Seq<char>, sep: char)
    requires
        !s.contains(sep),
    ensures
        pieces(s, sep) == seq![s],
    decreases s.len(),
{
    if s.len() > 0 {
        let init = s.drop_last();
        assert(!init.contains(sep)) by {
            if init.contains(sep) {
                let k = choose|k: int| 0 <= k < init.len() && init[k] == sep;
                assert(s[k] == sep);
            }
        }
        whole_is_one_piece(init, sep);
        assert(s[s.len() - 1] != sep);
        assert(init.push(s.last()) =~= s);
        assert(pieces(s, sep) =~= seq![s]);
    } else {
        assert(s =~= Seq::<char>::empty());
    }
}

/// No piece holds the separator.
pub proof fn pieces_are_free_of(s: Seq<char>, sep: char)
    ensures
        pieces(s, sep).len() > 0,
        forall|i: int| 0 <= i < pieces(s, sep).len() ==> !(#[trigger] pieces(s, sep)[i]).contains(sep),
    decreases s.len(),
{
    let list = pieces(s, sep);
    if s.len() > 0 {
        let before = pieces(s.drop_last(), sep);
        pieces_are_free_of(s.drop_last(), sep);
        assert forall|i: int| 0 <= i < list.len() implies !(#[trigger] list[i]).contains(sep) by {
            if s.last() == sep {
                if i < before.len() {
                    assert(list[i] == before[i]);
                }
            } else if i < before.len() - 1 {
                assert(list[i] == before[i]);
            } else {
                let piece = before[before.len() - 1];
                assert(!piece.contains(sep));
                assert(list[i] == piece.push(s.last()));
                if list[i].contains(sep) {
                    let k = choose|k: int| 0 <= k < list[i].len() && list[i][k] == sep;
                    if k < piece.len() {
                        assert(piece[k] == sep);
                    }
                }
            }
        }
    }
}

pub(crate) proof fn stripped_start_is_tail(s: Seq<char>, edge: char)
    ensures
        stripped_start(s, edge).len() <= s.len(),
        stripped_start(s, edge) == s.skip(s.len() - stripped_start(s, edge).len()),
        stripped_start(s, edge).len() > 0 ==> stripped_start(s, edge)[0] != edge,
    decreases s.len(),
{
    if s.len() > 0 && s[0] == edge {
        let rest = s.drop_first();
        stripped_start_is_tail(rest, edge);
        let n = stripped_start(rest, edge).len();
        assert(rest.skip(rest.len() - n) =~= s.skip(s.len() - n));
    } else {
        assert(s.skip(0) =~= s);
    }
}

pub(crate) proof fn stripped_end_is_head(s: Seq<char>, edge: char)
    ensures
        stripped_end(s, edge).len() <= s.len(),
        stripped_end(s, edge) == s.take(stripped_end(s, edge).len() as int),
        stripped_end(s, edge).len() > 0 ==> stripped_end(s, edge).last() != edge,
    decreases s.len(),
{
    if s.len() > 0 && s.last() == edge {
        let rest = s.drop_last();
        stripped_end_is_head(rest, edge);
        let n = stripped_end(rest, edge).len() as int;
        assert(rest.take(n) =~= s.take(n));
    } else {
        assert(s.take(s.len() as int) =~= s);
    }
}

/// Stripped text begins and ends with something else.
pub proof fn stripped_has_bare_edges(s: Seq<char>, edge: char)
    ensures
        stripped(s, edge).len() > 0 ==> stripped(s, edge)[0] != edge && stripped(s, edge).last() != edge,
{
    stripped_start_is_tail(s, edge);
    stripped_end_is_head(stripped_start(s, edge), edge);
}

/// Splitting a text and joining the pieces again gives the text back, whatever it holds.
pub proof fn join_undoes_split(s: Seq<char>, sep: char)
    ensures
        joined(pieces(s, sep), seq![sep]) == s,
    decreases s.len(),
{
    if s.len() > 0 {
        let init = s.drop_last();
        let before = pieces(init, sep);
        join_undoes_split(init, sep);
        pieces_are_free_of(init, sep);
        let list = pieces(s, sep);
        if s.last() == sep {
            assert(list.drop_last() =~= before);
            assert(joined(list, seq![sep]) =~= init + seq![sep]);
        } else {
            let last = before.last().push(s.last());
            assert(list.drop_last() =~= before.drop_last());
            assert(list.last() == last);
            if before.len() == 1 {
                assert(joined(list, seq![sep]) =~= init.push(s.last()));
            } else {
                assert(joined(list, seq![sep]) =~= init.push(s.last()));
            }
        }
        assert(init.push(s.last()) =~= s);
    }
}

/// Lower case changes capital letters only, one for one, and leaves lower case alone.
pub proof fn lower_case_stays(s: Seq<char>)
    ensures
        lowered(s).len() == s.len(),
        lowered(lowered(s)) == lowered(s),
        forall|i: int|
            0 <= i < s.len() ==> !is_ascii_upper(#[trigger] lowered(s)[i]) && (!is_ascii_upper(s[i])
                ==> lowered(s)[i] == s[i]) && (is_ascii_upper(s[i]) ==> lowered(s)[i] as int
                == s[i] as int + 32),
{
    assert(lowered(lowered(s)) =~= lowered(s));
}

} // verus!
