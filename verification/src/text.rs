//! Text building blocks: trimming, lines, joining.

use vstd::prelude::*;

verus! {

/// The views of a sequence of values, one for one.
pub open spec fn views<T: View>(items: Seq<T>) -> Seq<T::V> {
    Seq::new(items.len(), |i: int| items[i]@)
}

/// Whether `c` is white space: one of the twenty-five characters that
/// Unicode counts as such. They are the tab, the line feed, the vertical tab,
/// the form feed, the carriage return, the space, the next-line control, the
/// no-break space, the Ogham space mark, the spaces of fixed width from
/// U+2000 to U+200A, the line and the paragraph separator, the narrow
/// no-break space, the medium mathematical space and the ideographic space.
pub open spec fn white_space(c: char) -> bool {
    let n = c as u32;
    ||| 0x09 <= n <= 0x0d
    ||| n == 0x20
    ||| n == 0x85
    ||| n == 0xa0
    ||| n == 0x1680
    ||| 0x2000 <= n <= 0x200a
    ||| n == 0x2028
    ||| n == 0x2029
    ||| n == 0x202f
    ||| n == 0x205f
    ||| n == 0x3000
}

/// Whether `c` is white space.
pub fn is_whitespace(c: char) -> (r: bool)
    ensures
        r == white_space(c),
{
    let n: u32 = c as u32;
    (0x09 <= n && n <= 0x0d) || n == 0x20 || n == 0x85 || n == 0xa0 || n == 0x1680 || (0x2000 <= n
        && n <= 0x200a) || n == 0x2028 || n == 0x2029 || n == 0x202f || n == 0x205f || n == 0x3000
}

/// How many white-space characters `s` begins with.
pub open spec fn leading_space(s: Seq<char>) -> nat
    decreases s.len(),
{
    if s.len() > 0 && white_space(s.first()) {
        1 + leading_space(s.drop_first())
    } else {
        0
    }
}

/// How many white-space characters `s` ends with.
pub open spec fn trailing_space(s: Seq<char>) -> nat
    decreases s.len(),
{
    if s.len() > 0 && white_space(s.last()) {
        1 + trailing_space(s.drop_last())
    } else {
        0
    }
}

/// `s` without the white space it begins with.
pub open spec fn trimmed_start(s: Seq<char>) -> Seq<char> {
    s.subrange(leading_space(s) as int, s.len() as int)
}

/// `s` without the white space it begins and ends with.
pub open spec fn trimmed(s: Seq<char>) -> Seq<char> {
    let rest = trimmed_start(s);
    rest.subrange(0, rest.len() - trailing_space(rest))
}

/// The leading white space of a text is no longer than the text.
pub proof fn lemma_leading_space_bound(s: Seq<char>)
    ensures
        leading_space(s) <= s.len(),
    decreases s.len(),
{
    if s.len() > 0 && white_space(s.first()) {
        lemma_leading_space_bound(s.drop_first());
    }
}

/// The trailing white space of a text is no longer than the text.
pub proof fn lemma_trailing_space_bound(s: Seq<char>)
    ensures
        trailing_space(s) <= s.len(),
    decreases s.len(),
{
    if s.len() > 0 && white_space(s.last()) {
        lemma_trailing_space_bound(s.drop_last());
    }
}

/// The leading white space of a text is white space, and what follows it is
/// none.
pub proof fn lemma_leading_space_ends(s: Seq<char>)
    ensures
        forall|i: int| 0 <= i < leading_space(s) ==> white_space(#[trigger] s[i]),
        leading_space(s) < s.len() ==> !white_space(s[leading_space(s) as int]),
    decreases s.len(),
{
    lemma_leading_space_bound(s);
    if s.len() > 0 && white_space(s.first()) {
        let rest = s.drop_first();
        lemma_leading_space_ends(rest);
        lemma_leading_space_bound(rest);
        assert forall|i: int| 0 <= i < leading_space(s) implies white_space(#[trigger] s[i]) by {
            if i > 0 {
                assert(s[i] == rest[i - 1]);
            }
        }
    }
}

/// The trailing white space of a text is white space, and what stands before
/// it is none.
pub proof fn lemma_trailing_space_ends(s: Seq<char>)
    ensures
        forall|i: int| s.len() - trailing_space(s) <= i < s.len() ==> white_space(#[trigger] s[i]),
        trailing_space(s) < s.len() ==> !white_space(s[s.len() - trailing_space(s) - 1]),
    decreases s.len(),
{
    lemma_trailing_space_bound(s);
    if s.len() > 0 && white_space(s.last()) {
        let rest = s.drop_last();
        lemma_trailing_space_ends(rest);
        lemma_trailing_space_bound(rest);
        assert forall|i: int| s.len() - trailing_space(s) <= i < s.len() implies white_space(
            #[trigger] s[i],
        ) by {
            if i < s.len() - 1 {
                assert(s[i] == rest[i]);
            }
        }
        if trailing_space(s) < s.len() {
            assert(s[s.len() - trailing_space(s) - 1] == rest[rest.len() - trailing_space(rest)
                - 1]);
        }
    }
}

/// A trimmed text is a part of the text it was made from, with white space
/// only before and after it, and neither begins nor ends with white space.
pub proof fn lemma_trimmed(s: Seq<char>)
    ensures
        leading_space(s) + trimmed(s).len() + trailing_space(trimmed_start(s)) == s.len(),
        trimmed(s) == s.subrange(
            leading_space(s) as int,
            s.len() - trailing_space(trimmed_start(s)),
        ),
        trimmed(s).len() > 0 ==> !white_space(trimmed(s).first()) && !white_space(
            trimmed(s).last(),
        ),
{
    let rest = trimmed_start(s);
    lemma_leading_space_bound(s);
    lemma_leading_space_ends(s);
    lemma_trailing_space_bound(rest);
    lemma_trailing_space_ends(rest);
}

/// Whether `s` holds nothing but white space. The empty text does.
pub open spec fn is_white(s: Seq<char>) -> bool {
    forall|i: int| 0 <= i < s.len() ==> white_space(#[trigger] s[i])
}

/// Whether `s` holds nothing but newline characters. The empty text does.
pub open spec fn is_blank(s: Seq<char>) -> bool {
    forall|i: int| 0 <= i < s.len() ==> s[i] == '\n'
}

/// A text of white space only is trimmed to nothing.
pub proof fn lemma_white_space_trims_to_nothing(s: Seq<char>)
    requires
        is_white(s),
    ensures
        trimmed(s).len() == 0,
{
    lemma_trimmed(s);
}

/// Removes the white space that `text` begins and ends with.
pub fn trim(text: &str) -> (r: &str)
    ensures
        r@ == trimmed(text@),
{
    let len: usize = text.unicode_len();
    let mut start: usize = 0;
    assert(text@.subrange(0, len as int) =~= text@);
    while start < len && is_whitespace(text.get_char(start))
        invariant
            start <= len == text@.len(),
            leading_space(text@) == start + leading_space(
                text@.subrange(start as int, len as int),
            ),
        decreases len - start,
    {
        assert(text@.subrange(start as int, len as int).drop_first() =~= text@.subrange(
            start + 1,
            len as int,
        ));
        start += 1;
    }
    let ghost rest = trimmed_start(text@);
    let mut end: usize = len;
    while end > start && is_whitespace(text.get_char(end - 1))
        invariant
            start <= end <= len == text@.len(),
            rest == text@.subrange(start as int, len as int),
            trailing_space(rest) == (len - end) + trailing_space(
                text@.subrange(start as int, end as int),
            ),
        decreases end,
    {
        assert(text@.subrange(start as int, end as int).drop_last() =~= text@.subrange(
            start as int,
            end - 1,
        ));
        end -= 1;
    }
    text.substring_char(start, end)
}

/// The lines of `s`: what stands between its newline characters. A newline
/// ends one line and begins the next, so a text with `n` newlines has `n + 1`
/// lines, some of them perhaps empty.
pub open spec fn lines(s: Seq<char>) -> Seq<Seq<char>>
    decreases s.len(),
{
    if s.len() == 0 {
        seq![Seq::empty()]
    } else {
        let before = lines(s.drop_last());
        if s.last() == '\n' {
            before.push(Seq::empty())
        } else {
            before.drop_last().push(before.last().push(s.last()))
        }
    }
}

/// The texts of `parts` with `separator` between each two.
pub open spec fn joined(parts: Seq<Seq<char>>, separator: char) -> Seq<char>
    decreases parts.len(),
{
    if parts.len() == 0 {
        Seq::empty()
    } else if parts.len() == 1 {
        parts[0]
    } else {
        joined(parts.drop_last(), separator) + seq![separator] + parts.last()
    }
}

/// The lines of a text are what the text holds between its newlines: there
/// is at least one line, no line holds a newline, and the lines with a
/// newline between each two are the text.
pub proof fn lemma_lines(s: Seq<char>)
    ensures
        lines(s).len() >= 1,
        forall|k: int, i: int|
            0 <= k < lines(s).len() && 0 <= i < lines(s)[k].len() ==> (#[trigger] lines(
                s,
            )[k][i]) != '\n',
        joined(lines(s), '\n') == s,
    decreases s.len(),
{
    if s.len() > 0 {
        let before = lines(s.drop_last());
        lemma_lines(s.drop_last());
        if s.last() == '\n' {
            // A new, empty line behind a newline.
            assert(lines(s).drop_last() =~= before);
        } else {
            // The last line grows by one character.
            assert(lines(s).drop_last() =~= before.drop_last());
            assert(joined(lines(s), '\n') =~= joined(before, '\n').push(s.last()));
        }
        assert(s.drop_last().push(s.last()) =~= s);
    }
}

/// Splits `text` at its newline characters. Each character is reached from
/// the start of the text, so the time grows with the square of the length:
/// this is for lists of names, not for long texts.
pub fn split_lines<'a>(text: &'a str) -> (r: Vec<&'a str>)
    ensures
        views(r@) == lines(text@),
{
    let len: usize = text.unicode_len();
    let mut out: Vec<&str> = Vec::new();
    let mut start: usize = 0;
    let mut i: usize = 0;
    assert(text@.subrange(0, 0) =~= Seq::<char>::empty());
    while i < len
        invariant
            start <= i <= len == text@.len(),
            lines(text@.subrange(0, i as int)) == views(out@).push(
                text@.subrange(start as int, i as int),
            ),
        decreases len - i,
    {
        let ghost current = text@.subrange(start as int, i as int);
        assert(text@.subrange(0, i + 1).drop_last() =~= text@.subrange(0, i as int));
        if text.get_char(i) == '\n' {
            out.push(text.substring_char(start, i));
            start = i + 1;
            assert(text@.subrange(start as int, i + 1) =~= Seq::<char>::empty());
        } else {
            assert(text@.subrange(start as int, i + 1) =~= current.push(text@[i as int]));
        }
        i += 1;
    }
    out.push(text.substring_char(start, len));
    assert(text@.subrange(0, len as int) =~= text@);
    out
}

/// Joins `parts` with one space between each two.
pub fn join(parts: &[String]) -> (r: String)
    ensures
        r@ == joined(views(parts@), ' '),
{
    let mut out = String::new();
    let mut i: usize = 0;
    proof {
        reveal_strlit(" ");
    }
    while i < parts.len()
        invariant
            i <= parts.len(),
            " "@ == seq![' '],
            out@ == joined(views(parts@).subrange(0, i as int), ' '),
        decreases parts.len() - i,
    {
        assert(views(parts@).subrange(0, i + 1).drop_last() =~= views(parts@).subrange(
            0,
            i as int,
        ));
        if i > 0 {
            out.append(" ");
        }
        out.append(parts[i].as_str());
        i += 1;
    }
    assert(views(parts@).subrange(0, parts.len() as int) =~= views(parts@));
    out
}

} // verus!
