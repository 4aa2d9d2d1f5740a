use vstd::prelude::*;

verus! {

/// Whether a character has the Unicode `White_Space` property (the
/// property `char::is_whitespace` reports): tab, line feed, vertical tab,
/// form feed, carriage return, space, next line, no-break space, ogham
/// space mark, the spaces U+2000 to U+200A, line and paragraph separator,
/// narrow no-break space, medium mathematical space and ideographic space.
pub open spec fn is_white_space(c: char) -> bool {
    let v = c as u32;
    ||| 0x09 <= v <= 0x0d
    ||| v == 0x20
    ||| v == 0x85
    ||| v == 0xa0
    ||| v == 0x1680
    ||| 0x2000 <= v <= 0x200a
    ||| v == 0x2028
    ||| v == 0x2029
    ||| v == 0x202f
    ||| v == 0x205f
    ||| v == 0x3000
}

/// Whether `c` has the Unicode `White_Space` property.
pub fn is_unicode_white_space(c: char) -> (b: bool)
    ensures
        b == is_white_space(c),
{
    let v = c as u32;
    (0x09 <= v && v <= 0x0d) || v == 0x20 || v == 0x85 || v == 0xa0 || v == 0x1680 || (0x2000 <= v
        && v <= 0x200a) || v == 0x2028 || v == 0x2029 || v == 0x202f || v == 0x205f || v == 0x3000
}

/// The characters stripped by one pass: whitespace, or double quotes.
pub open spec fn stripped_by(quotes: bool, c: char) -> bool {
    if quotes {
        c == '"'
    } else {
        is_white_space(c)
    }
}

/// `s` without its leading characters that the pass strips.
pub open spec fn trim_start(s: Seq<char>, quotes: bool) -> Seq<char>
    decreases s.len(),
{
    if s.len() > 0 && stripped_by(quotes, s[0]) {
        trim_start(s.drop_first(), quotes)
    } else {
        s
    }
}

/// `s` without its trailing characters that the pass strips.
pub open spec fn trim_end(s: Seq<char>, quotes: bool) -> Seq<char>
    decreases s.len(),
{
    if s.len() > 0 && stripped_by(quotes, s.last()) {
        trim_end(s.drop_last(), quotes)
    } else {
        s
    }
}

/// `s` without the leading and trailing characters that the pass strips.
pub open spec fn trim_both(s: Seq<char>, quotes: bool) -> Seq<char> {
    trim_end(trim_start(s, quotes), quotes)
}

fn is_stripped(c: char, quotes: bool) -> (b: bool)
    ensures
        b == stripped_by(quotes, c),
{
    if quotes {
        c == '"'
    } else {
        is_unicode_white_space(c)
    }
}

/// Strips the leading and trailing characters of one pass from `s`.
fn strip(s: &str, quotes: bool) -> (t: &str)
    ensures
        t@ == trim_both(s@, quotes),
{
    let n = s.unicode_len();
    let mut start: usize = 0;
    assert(s@.subrange(0, n as int) =~= s@);
    while start < n && is_stripped(s.get_char(start), quotes)
        invariant
            n == s@.len(),
            start <= n,
            trim_start(s@, quotes) == trim_start(s@.subrange(start as int, n as int), quotes),
        decreases n - start,
    {
        assert(s@.subrange(start as int, n as int).drop_first() =~= s@.subrange(
            start + 1,
            n as int,
        ));
        start = start + 1;
    }
    let ghost head = s@.subrange(start as int, n as int);
    assert(trim_start(s@, quotes) == head) by {
        if start < n {
            assert(!stripped_by(quotes, head[0]));
        } else {
            assert(head.len() == 0);
        }
    }
    let mut end: usize = n;
    while end > start && is_stripped(s.get_char(end - 1), quotes)
        invariant
            n == s@.len(),
            start <= end <= n,
            head == s@.subrange(start as int, n as int),
            trim_end(head, quotes) == trim_end(s@.subrange(start as int, end as int), quotes),
        decreases end - start,
    {
        assert(s@.subrange(start as int, end as int).drop_last() =~= s@.subrange(
            start as int,
            end - 1,
        ));
        end = end - 1;
    }
    let ghost body = s@.subrange(start as int, end as int);
    assert(trim_end(head, quotes) == body) by {
        if end > start {
            assert(body.last() == s@[end - 1]);
        } else {
            assert(body.len() == 0);
        }
    }
    s.substring_char(start, end)
}

/// Cleans clipboard text that may hold a file path: surrounding whitespace
/// is stripped first, then surrounding double quotes (as a file manager
/// adds them).
pub fn clean_clipboard_path(text: &str) -> (p: String)
    ensures
        p@ == trim_both(trim_both(text@, false), true),
{
    let t = strip(text, false);
    let u = strip(t, true);
    String::from_str(u)
}

} // verus!
