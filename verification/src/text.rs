//! Text that the renderer derives: decimal numbers, section labels, page
//! titles and the way from a page back to the output root.

use vstd::prelude::*;

verus! {

/// The text of an optional string.
pub open spec fn text_view(text: Option<String>) -> Option<Seq<char>> {
    match text {
        Some(t) => Some(t@),
        None => None,
    }
}

/// The text of an optional reference to a string.
pub open spec fn text_ref_view(text: Option<&String>) -> Option<Seq<char>> {
    match text {
        Some(t) => Some(t@),
        None => None,
    }
}

/// The texts of a list of strings, in order.
pub open spec fn texts_view(texts: Seq<String>) -> Seq<Seq<char>> {
    texts.map_values(|t: String| t@)
}

/// The character of a decimal digit.
pub open spec fn digit_char(d: nat) -> char {
    if d == 0 {
        '0'
    } else if d == 1 {
        '1'
    } else if d == 2 {
        '2'
    } else if d == 3 {
        '3'
    } else if d == 4 {
        '4'
    } else if d == 5 {
        '5'
    } else if d == 6 {
        '6'
    } else if d == 7 {
        '7'
    } else if d == 8 {
        '8'
    } else {
        '9'
    }
}

/// A number in decimal, without leading zeros.
pub open spec fn decimal(n: nat) -> Seq<char>
    decreases n,
{
    if n < 10 {
        seq![digit_char(n)]
    } else {
        decimal(n / 10).push(digit_char(n % 10))
    }
}

/// A section number as a label: each component in decimal, each followed by
/// a dot.
pub open spec fn section_label(number: Seq<u32>) -> Seq<char>
    decreases number.len(),
{
    if number.len() == 0 {
        Seq::empty()
    } else {
        section_label(number.drop_last()) + decimal(number.last() as nat) + seq!['.']
    }
}

/// The title of a chapter's page: the chapter's name, after the book's title
/// and " - " where the book has a title.
pub open spec fn page_title(book_title: Option<Seq<char>>, chapter_name: Seq<char>) -> Seq<char> {
    match book_title {
        Some(title) => title + seq![' ', '-', ' '] + chapter_name,
        None => chapter_name,
    }
}

fn digit_str(d: u32) -> (s: &'static str)
    requires
        d < 10,
    ensures
        s@ == seq![digit_char(d as nat)],
{
    proof {
        reveal_strlit("0");
        reveal_strlit("1");
        reveal_strlit("2");
        reveal_strlit("3");
        reveal_strlit("4");
        reveal_strlit("5");
        reveal_strlit("6");
        reveal_strlit("7");
        reveal_strlit("8");
        reveal_strlit("9");
    }
    let s = if d == 0 {
        "0"
    } else if d == 1 {
        "1"
    } else if d == 2 {
        "2"
    } else if d == 3 {
        "3"
    } else if d == 4 {
        "4"
    } else if d == 5 {
        "5"
    } else if d == 6 {
        "6"
    } else if d == 7 {
        "7"
    } else if d == 8 {
        "8"
    } else {
        "9"
    };
    assert(s@ =~= seq![digit_char(d as nat)]);
    s
}

/// Writes a number in decimal.
pub fn decimal_string(n: u32) -> (s: String)
    ensures
        s@ == decimal(n as nat),
    decreases n,
{
    if n < 10 {
        String::from_str(digit_str(n))
    } else {
        let mut s = decimal_string(n / 10);
        s.append(digit_str(n % 10));
        assert(s@ =~= decimal(n as nat));
        s
    }
}

/// Writes a section number as a label.
pub fn section_string(number: &Vec<u32>) -> (s: String)
    ensures
        s@ == section_label(number@),
{
    let mut s = String::new();
    let mut i: usize = 0;
    assert(number@.take(0) =~= Seq::<u32>::empty());
    while i < number.len()
        invariant
            i <= number.len(),
            s@ == section_label(number@.take(i as int)),
        decreases number.len() - i,
    {
        let digits = decimal_string(number[i]);
        s.append(digits.as_str());
        s.append(".");
        proof {
            reveal_strlit(".");
            assert("."@ =~= seq!['.']);
            assert(number@.take(i + 1).drop_last() =~= number@.take(i as int));
            assert(number@.take(i + 1).last() == number@[i as int]);
        }
        i += 1;
    }
    assert(number@.take(number.len() as int) =~= number@);
    s
}

/// Writes the title of a chapter's page.
pub fn title_string(book_title: Option<&String>, chapter_name: &String) -> (s: String)
    ensures
        s@ == page_title(text_ref_view(book_title), chapter_name@),
{
    match book_title {
        Some(title) => {
            let mut s = title.clone();
            s.append(" - ");
            s.append(chapter_name.as_str());
            proof {
                reveal_strlit(" - ");
                assert(" - "@ =~= seq![' ', '-', ' ']);
            }
            s
        },
        None => chapter_name.clone(),
    }
}

/// The segments of a path: the text between its slashes. A path without a
/// slash is one segment; a path of `k` slashes has `k + 1` segments, some of
/// which may be empty.
pub open spec fn segments(path: Seq<char>) -> Seq<Seq<char>>
    decreases path.len(),
{
    if path.len() == 0 {
        seq![Seq::empty()]
    } else {
        let before = segments(path.drop_last());
        if path.last() == '/' {
            before.push(Seq::empty())
        } else {
            before.drop_last().push(before.last().push(path.last()))
        }
    }
}

/// A segment that is a component of the path: not empty and not ".".
pub open spec fn is_component(segment: Seq<char>) -> bool {
    segment.len() > 0 && !(segment.len() == 1 && segment[0] == '.')
}

/// A component that names a file or a directory: any but "..".
pub open spec fn is_name(segment: Seq<char>) -> bool {
    is_component(segment) && !(segment.len() == 2 && segment[0] == '.' && segment[1] == '.')
}

/// How many of the segments name a file or a directory.
pub open spec fn name_count(segs: Seq<Seq<char>>) -> nat
    decreases segs.len(),
{
    if segs.len() == 0 {
        0
    } else {
        name_count(segs.drop_last()) + if is_name(segs.last()) {
            1nat
        } else {
            0nat
        }
    }
}

/// How many directories are named before the last component of a path, given
/// the path's segments. Zero where the path has no component.
pub open spec fn depth(segs: Seq<Seq<char>>) -> nat
    decreases segs.len(),
{
    if segs.len() == 0 {
        0
    } else if is_component(segs.last()) {
        name_count(segs.drop_last())
    } else {
        depth(segs.drop_last())
    }
}

/// `n` steps up: "../" written `n` times.
pub open spec fn steps_up(n: nat) -> Seq<char>
    decreases n,
{
    if n == 0 {
        Seq::empty()
    } else {
        steps_up((n - 1) as nat) + seq!['.', '.', '/']
    }
}

/// The way from the page at `path` back to the root of the output: one step
/// up for each directory named before the path's last component.
pub open spec fn root_path(path: Seq<char>) -> Seq<char> {
    steps_up(depth(segments(path)))
}

#[derive(Clone, Copy, PartialEq, Eq, Structural)]
enum SegmentKind {
    Empty,
    Dot,
    DotDot,
    Name,
}

spec fn segment_kind(segment: Seq<char>) -> SegmentKind {
    if segment.len() == 0 {
        SegmentKind::Empty
    } else if segment.len() == 1 && segment[0] == '.' {
        SegmentKind::Dot
    } else if segment.len() == 2 && segment[0] == '.' && segment[1] == '.' {
        SegmentKind::DotDot
    } else {
        SegmentKind::Name
    }
}

/// Writes the way from the page at `path` back to the root of the output.
pub fn path_to_root(path: &str) -> (s: String)
    ensures
        s@ == root_path(path@),
{
    let n = path.unicode_len();
    // names among the segments that are closed by a slash
    let mut names: usize = 0;
    // the depth, should the open segment turn out not to be a component
    let mut fallback: usize = 0;
    let mut kind = SegmentKind::Empty;
    assert(path@.take(0) =~= Seq::<char>::empty());
    for c in it: path.chars()
        invariant
            it.seq() == path@,
            n == path@.len(),
            names <= it.index(),
            fallback <= it.index(),
            segments(path@.take(it.index() as int)).len() > 0,
            names == name_count(segments(path@.take(it.index() as int)).drop_last()),
            fallback == depth(segments(path@.take(it.index() as int)).drop_last()),
            kind == segment_kind(segments(path@.take(it.index() as int)).last()),
    {
        let ghost segs = segments(path@.take(it.index() as int));
        proof {
            assert(path@.take(it.index() + 1).drop_last() =~= path@.take(it.index() as int));
            assert(path@.take(it.index() + 1).last() == c);
        }
        if c == '/' {
            proof {
                assert(segs.push(Seq::empty()).drop_last() =~= segs);
            }
            match kind {
                SegmentKind::Name => {
                    fallback = names;
                    names = names + 1;
                },
                SegmentKind::DotDot => {
                    fallback = names;
                },
                _ => {},
            }
            kind = SegmentKind::Empty;
        } else {
            proof {
                assert(segs.drop_last().push(segs.last().push(c)).drop_last() =~= segs.drop_last());
            }
            kind =
            match kind {
                SegmentKind::Empty => if c == '.' {
                    SegmentKind::Dot
                } else {
                    SegmentKind::Name
                },
                SegmentKind::Dot => if c == '.' {
                    SegmentKind::DotDot
                } else {
                    SegmentKind::Name
                },
                _ => SegmentKind::Name,
            };
        }
    }
    assert(path@.take(n as int) =~= path@);
    let steps = match kind {
        SegmentKind::Name | SegmentKind::DotDot => names,
        _ => fallback,
    };
    let mut s = String::new();
    let mut j: usize = 0;
    while j < steps
        invariant
            j <= steps,
            s@ == steps_up(j as nat),
        decreases steps - j,
    {
        s.append("../");
        proof {
            reveal_strlit("../");
            assert("../"@ =~= seq!['.', '.', '/']);
        }
        j += 1;
    }
    s
}

/// A character as it stands in HTML text and attribute values: the five
/// characters that HTML reads as markup become references, any other stays.
pub open spec fn escaped_char(c: char) -> Seq<char> {
    if c == '&' {
        "&amp;"@
    } else if c == '<' {
        "&lt;"@
    } else if c == '>' {
        "&gt;"@
    } else if c == '"' {
        "&quot;"@
    } else if c == '\'' {
        "&#x27;"@
    } else {
        seq![c]
    }
}

/// A text as it stands in HTML, character by character.
pub open spec fn escaped(text: Seq<char>) -> Seq<char>
    decreases text.len(),
{
    if text.len() == 0 {
        Seq::empty()
    } else {
        escaped(text.drop_last()) + escaped_char(text.last())
    }
}

/// Appends to `out` a text as it stands in HTML.
pub fn push_escaped(out: &mut String, text: &str)
    ensures
        final(out)@ == old(out)@ + escaped(text@),
{
    let ghost start = out@;
    assert(text@.take(0) =~= Seq::<char>::empty());
    assert(start + escaped(text@.take(0)) =~= start);
    for c in it: text.chars()
        invariant
            it.seq() == text@,
            out@ == start + escaped(text@.take(it.index() as int)),
    {
        proof {
            assert(text@.take(it.index() + 1).drop_last() =~= text@.take(it.index() as int));
            assert(text@.take(it.index() + 1).last() == c);
        }
        if c == '&' {
            out.append("&amp;");
        } else if c == '<' {
            out.append("&lt;");
        } else if c == '>' {
            out.append("&gt;");
        } else if c == '"' {
            out.append("&quot;");
        } else if c == '\'' {
            out.append("&#x27;");
        } else {
            push_char(out, c);
        }
        assert(out@ =~= start + escaped(text@.take(it.index() + 1)));
    }
    assert(text@.take(text@.len() as int) =~= text@);
}

/// `String::push`: the text with the character at its end.
#[verifier::external_body]
fn push_char(out: &mut String, c: char)
    ensures
        final(out)@ == old(out)@.push(c),
{
    out.push(c);
}

} // verus!
