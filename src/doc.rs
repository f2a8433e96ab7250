//! Doc comments: free text from an item's metadata rendered as a `/** */`
//! block, indented, and left out altogether when the text is empty.

use vstd::prelude::*;
use crate::text::{push_char, same_chars};

verus! {

/// The documentation that the schema attaches to an item.
#[derive(Clone, Debug)]
pub struct Metadata {
    /// The item's description; empty where it has none.
    pub description: String,
    /// For an enum, the description of each member, keyed by the member's
    /// value in the source schema.
    pub enum_descriptions: Vec<(String, String)>,
}

impl Metadata {
    /// Metadata without any documentation.
    pub fn empty() -> (r: Metadata)
        ensures
            r.description@.len() == 0,
            r.enum_descriptions@.len() == 0,
    {
        Metadata { description: String::new(), enum_descriptions: Vec::new() }
    }
}

pub open spec fn spaces(n: nat) -> Seq<char> {
    Seq::new(n, |i: int| ' ')
}

/// The indentation of a block nested `indent` levels deep.
pub open spec fn indentation(indent: nat) -> Seq<char> {
    spaces(2 * indent)
}

/// The first `n` characters of `t`, each line break followed by `marker`.
pub open spec fn continued(t: Seq<char>, marker: Seq<char>, n: nat) -> Seq<char>
    decreases n,
{
    if n == 0 {
        Seq::empty()
    } else if t[n - 1] == '\n' {
        continued(t, marker, (n - 1) as nat) + seq!['\n'] + marker
    } else {
        continued(t, marker, (n - 1) as nat).push(t[n - 1])
    }
}

/// The comment block for `text`: an opening line, every line of the text
/// behind a ` * ` marker, and a closing line, all indented; nothing at all
/// for an empty text.
pub open spec fn doc_block(indent: nat, text: Seq<char>) -> Seq<char> {
    if text.len() == 0 {
        Seq::empty()
    } else {
        let pre = indentation(indent);
        let marker = pre + " * "@;
        pre + "/**\n"@ + marker + continued(text, marker, text.len()) + "\n"@ + pre + " */\n"@
    }
}

/// The description of an enum member by its source value: the text of the
/// first entry under that value, or empty.
pub open spec fn member_text(entries: Seq<(String, String)>, value: Seq<char>) -> Seq<char>
    decreases entries.len(),
{
    if entries.len() == 0 {
        Seq::empty()
    } else if entries[0].0@ == value {
        entries[0].1@
    } else {
        member_text(entries.drop_first(), value)
    }
}

fn push_spaces(out: &mut String, n: usize)
    ensures
        final(out)@ == old(out)@ + spaces(n as nat),
{
    let mut i: usize = 0;
    while i < n
        invariant
            i <= n,
            out@ == old(out)@ + spaces(i as nat),
        decreases n - i,
    {
        push_char(out, ' ');
        assert(out@ =~= old(out)@ + spaces((i + 1) as nat));
        i = i + 1;
    }
}

/// Renders `text` as a comment block nested `indent` levels deep.
pub fn doc(indent: usize, text: &str) -> (r: String)
    requires
        2 * indent <= usize::MAX,
    ensures
        r@ == doc_block(indent as nat, text@),
{
    let n = text.unicode_len();
    if n == 0 {
        return String::new();
    }
    let mut pre = String::new();
    push_spaces(&mut pre, 2 * indent);
    let mut marker = pre.clone();
    marker.append(" * ");
    let mut out = pre.clone();
    out.append("/**\n");
    out.append(marker.as_str());
    let ghost head = out@;
    let mut i: usize = 0;
    while i < n
        invariant
            n == text@.len(),
            i <= n,
            out@ == head + continued(text@, marker@, i as nat),
        decreases n - i,
    {
        let c = text.get_char(i);
        if c == '\n' {
            push_char(&mut out, '\n');
            out.append(marker.as_str());
        } else {
            push_char(&mut out, c);
        }
        assert(out@ =~= head + continued(text@, marker@, (i + 1) as nat));
        i = i + 1;
    }
    out.append("\n");
    out.append(pre.as_str());
    out.append(" */\n");
    assert(out@ =~= doc_block(indent as nat, text@));
    out
}

/// The description of the member whose source value is `value`.
pub fn member_description(entries: &Vec<(String, String)>, value: &str) -> (r: String)
    ensures
        r@ == member_text(entries@, value@),
{
    let mut i: usize = 0;
    assert(entries@.subrange(0, entries@.len() as int) =~= entries@);
    while i < entries.len()
        invariant
            i <= entries@.len(),
            member_text(entries@, value@) == member_text(entries@.subrange(i as int, entries@.len() as int), value@),
        decreases entries@.len() - i,
    {
        let ghost rest = entries@.subrange(i as int, entries@.len() as int);
        assert(rest.drop_first() =~= entries@.subrange(i + 1, entries@.len() as int));
        if same_chars(entries[i].0.as_str(), value) {
            return entries[i].1.clone();
        }
        i = i + 1;
    }
    String::new()
}

/// The comment block for an item's own description.
pub fn description(metadata: &Metadata, indent: usize) -> (r: String)
    requires
        2 * indent <= usize::MAX,
    ensures
        r@ == doc_block(indent as nat, metadata.description@),
{
    doc(indent, metadata.description.as_str())
}

/// The comment block for an enum member, found by its source value in the
/// enum's metadata.
pub fn enum_variant_description(metadata: &Metadata, indent: usize, value: &str) -> (r: String)
    requires
        2 * indent <= usize::MAX,
    ensures
        r@ == doc_block(indent as nat, member_text(metadata.enum_descriptions@, value@)),
{
    let text = member_description(&metadata.enum_descriptions, value);
    doc(indent, text.as_str())
}

} // verus!
