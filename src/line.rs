use vstd::prelude::*;
use crate::level::Level;

verus! {

/// Width of the severity column of a formatted line.
pub const LABEL_WIDTH: usize = 5;

/// `n` spaces.
pub open spec fn spaces(n: nat) -> Seq<char> {
    Seq::new(n, |i: int| ' ')
}

/// `s` padded on the right with spaces up to `width` characters.
pub open spec fn pad_right(s: Seq<char>, width: nat) -> Seq<char> {
    if s.len() >= width {
        s
    } else {
        s + spaces((width - s.len()) as nat)
    }
}

/// The tag shown for an event: its target when non-empty, else the module
/// path, else nothing.
pub open spec fn tag_of(target: Seq<char>, module: Option<Seq<char>>) -> Seq<char> {
    if target.len() > 0 {
        target
    } else {
        match module {
            Some(m) => m,
            None => Seq::empty(),
        }
    }
}

/// The characters of an optional string.
pub open spec fn text_of(s: Option<&str>) -> Option<Seq<char>> {
    match s {
        Some(t) => Some(t@),
        None => None,
    }
}

/// The display line of an event: `LEVEL: [tag] message`, with the level
/// label padded to the column width.
pub open spec fn line_of(level: Level, tag: Seq<char>, message: Seq<char>) -> Seq<char> {
    pad_right(level.spec_label(), LABEL_WIDTH as nat) + seq![':', ' ', '['] + tag + seq![
        ']',
        ' ',
    ] + message
}

/// Pads `s` on the right with spaces up to `width` characters.
pub fn pad_to(s: &str, width: usize) -> (r: String)
    ensures
        r@ == pad_right(s@, width as nat),
{
    let mut r = String::from_str(s);
    let mut n: usize = s.unicode_len();
    while n < width
        invariant
            n as nat >= s@.len(),
            n <= width || n as nat == s@.len(),
            r@ == s@ + spaces((n - s@.len()) as nat),
        decreases width - n,
    {
        r.append(" ");
        proof {
            reveal_strlit(" ");
        }
        n = n + 1;
        assert(r@ =~= s@ + spaces((n - s@.len()) as nat));
    }
    proof {
        if s@.len() >= width {
            assert(r@ =~= s@);
        }
    }
    r
}

/// The tag shown for an event: `target` when non-empty, else the module path,
/// else the empty string.
pub fn resolve_tag(target: &str, module: Option<&str>) -> (r: String)
    ensures
        r@ == tag_of(target@, text_of(module)),
{
    if !target.is_empty() {
        String::from_str(target)
    } else {
        match module {
            Some(m) => String::from_str(m),
            None => String::new(),
        }
    }
}

/// Formats one display line from a level, a tag and a message.
pub fn format_line(level: Level, tag: &str, message: &str) -> (r: String)
    ensures
        r@ == line_of(level, tag@, message@),
{
    let label = level.label();
    let mut r = pad_to(label.as_str(), LABEL_WIDTH);
    r.append(": [");
    r.append(tag);
    r.append("] ");
    r.append(message);
    proof {
        reveal_strlit(": [");
        reveal_strlit("] ");
        assert(seq![':', ' ', '['] =~= ": ["@);
        assert(seq![']', ' '] =~= "] "@);
    }
    r
}

/// A formatted line holds the level's label, the tag and the message, in
/// that order and without overlap.
pub proof fn lemma_line_fields_in_order(level: Level, tag: Seq<char>, message: Seq<char>)
    ensures
        ({
            let line = line_of(level, tag, message);
            let label = level.spec_label();
            let t = LABEL_WIDTH as int + 3;
            let m = t + tag.len() + 2;
            &&& label.len() <= t
            &&& line.subrange(0, label.len() as int) == label
            &&& line.subrange(t, t + tag.len()) == tag
            &&& t + tag.len() <= m
            &&& m + message.len() == line.len()
            &&& line.subrange(m, line.len() as int) == message
        }),
{
    let line = line_of(level, tag, message);
    let label = level.spec_label();
    let padded = pad_right(label, LABEL_WIDTH as nat);
    assert(label.len() <= 5);
    assert(padded.len() == 5);
    assert(line.subrange(0, label.len() as int) =~= label);
    assert(line.subrange(8, 8 + tag.len() as int) =~= tag);
    assert(line.subrange(8 + tag.len() as int + 2, line.len() as int) =~= message);
}

} // verus!
