//! The text side of working with a repository: the names of tags, and how
//! the lines of a patch are written and marked.

use vstd::prelude::*;

verus! {

/// The prefix under which a repository keeps its tags.
pub open spec fn tag_prefix() -> Seq<char> {
    seq!['r', 'e', 'f', 's', '/', 't', 'a', 'g', 's', '/']
}

/// The full reference name of the tag `tag`.
pub fn tag_ref(tag: &str) -> (name: String)
    ensures
        name@ == tag_prefix() + tag@,
{
    proof {
        reveal_strlit("refs/tags/");
    }
    let mut name = "refs/tags/".to_owned();
    assert(name@ =~= tag_prefix());
    name.append(tag);
    name
}

/// How a line of a patch is marked when it is shown.
#[derive(Debug, Clone, Copy, PartialEq, Eq, Structural)]
pub enum LineTone {
    /// A line that the patch adds.
    Added,
    /// A line that the patch removes.
    Removed,
    /// The header of a file.
    FileHeader,
    /// The header of a hunk.
    HunkHeader,
    /// Any other line.
    Plain,
}

/// The mark that belongs to a line of the given origin.
pub open spec fn line_tone(origin: char) -> LineTone {
    if origin == '+' {
        LineTone::Added
    } else if origin == '-' {
        LineTone::Removed
    } else if origin == 'F' {
        LineTone::FileHeader
    } else if origin == 'H' {
        LineTone::HunkHeader
    } else {
        LineTone::Plain
    }
}

/// Picks the mark for a line by its origin.
pub fn line_color(origin: char) -> (tone: LineTone)
    ensures
        tone == line_tone(origin),
{
    match origin {
        '+' => LineTone::Added,
        '-' => LineTone::Removed,
        'F' => LineTone::FileHeader,
        'H' => LineTone::HunkHeader,
        _ => LineTone::Plain,
    }
}

/// Whether the origin of a line is written in front of it: it is for added,
/// removed and unchanged lines.
pub open spec fn shows_origin(origin: char) -> bool {
    origin == '+' || origin == '-' || origin == ' '
}

/// What is written in front of a line of the given origin.
pub open spec fn origin_mark(origin: char) -> Seq<char> {
    if shows_origin(origin) {
        seq![origin]
    } else {
        Seq::empty()
    }
}

/// The text written in front of a line of the given origin: the origin
/// itself, or nothing.
pub fn origin_text(origin: char) -> (mark: &'static str)
    ensures
        mark@ == origin_mark(origin),
{
    proof {
        reveal_strlit("+");
        reveal_strlit("-");
        reveal_strlit(" ");
        reveal_strlit("");
    }
    let mark = match origin {
        '+' => "+",
        '-' => "-",
        ' ' => " ",
        _ => "",
    };
    assert(mark@ =~= origin_mark(origin));
    mark
}

/// Adds one line of a patch to `text`: its origin where that is shown, then
/// its content as it is.
pub fn push_line(text: &mut String, origin: char, content: &str)
    ensures
        final(text)@ == old(text)@ + origin_mark(origin) + content@,
{
    text.append(origin_text(origin));
    text.append(content);
}

} // verus!
