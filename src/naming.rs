//! The naming engine: from the fragments of an entity's place in the schema
//! (outermost first) to a proto identifier.
//!
//! Every kind is PascalCased. A type name combines all fragments, so nested
//! types that share a last fragment still differ; a field or enum member name
//! keeps only the last fragment, as its container scopes it. A candidate that
//! is a reserved word gets a trailing underscore.

use vstd::prelude::*;
use crate::text::{
    is_alnum, is_lower, is_upper, upper_of, lower_of, is_alnum_char, is_lower_char,
    is_upper_char, to_upper_char, to_lower_char, push_char, same_chars,
};

verus! {

/// Which naming convention applies.
#[derive(Clone, Copy, Debug, PartialEq, Eq, Structural)]
pub enum NameableKind {
    Type,
    EnumMember,
    Field,
}

/// A word starts at the beginning, after a character that is dropped, and
/// where an upper-case letter follows a lower-case one (`fooBar`).
pub open spec fn starts_word(s: Seq<char>, i: int) -> bool {
    i == 0 || !is_alnum(s[i - 1]) || (is_lower(s[i - 1]) && is_upper(s[i]))
}

/// What the character at `i` becomes: nothing if it is a separator, its upper
/// case if it starts a word, its lower case otherwise.
pub open spec fn pascal_piece(s: Seq<char>, i: int) -> Seq<char> {
    if !is_alnum(s[i]) {
        Seq::empty()
    } else if starts_word(s, i) {
        seq![upper_of(s[i])]
    } else {
        seq![lower_of(s[i])]
    }
}

pub open spec fn pascal_prefix(s: Seq<char>, n: nat) -> Seq<char>
    decreases n,
{
    if n == 0 {
        Seq::empty()
    } else {
        pascal_prefix(s, (n - 1) as nat) + pascal_piece(s, n - 1)
    }
}

/// PascalCase of one fragment.
pub open spec fn pascal(s: Seq<char>) -> Seq<char> {
    pascal_prefix(s, s.len())
}

/// The PascalCase forms of the first `n` fragments, concatenated.
pub open spec fn combined(parts: Seq<Seq<char>>, n: nat) -> Seq<char>
    decreases n,
{
    if n == 0 {
        Seq::empty()
    } else {
        combined(parts, (n - 1) as nat) + pascal(parts[n - 1])
    }
}

/// The words that no generated identifier may be. Besides the language's own
/// keywords and scalar type names, this holds the name of the wrapper message
/// that the emitter writes at the top of every file.
pub open spec fn reserved_words() -> Seq<Seq<char>> {
    seq![
        "syntax"@, "import"@, "weak"@, "public"@, "package"@, "option"@, "message"@,
        "enum"@, "service"@, "rpc"@, "returns"@, "stream"@, "repeated"@, "optional"@,
        "required"@, "reserved"@, "extensions"@, "extend"@, "oneof"@, "map"@, "to"@,
        "max"@, "group"@, "true"@, "false"@, "inf"@, "nan"@, "double"@, "float"@,
        "int32"@, "int64"@, "uint32"@, "uint64"@, "sint32"@, "sint64"@, "fixed32"@,
        "fixed64"@, "sfixed32"@, "sfixed64"@, "bool"@, "string"@, "bytes"@,
        "RootMessage"@,
    ]
}

pub open spec fn is_reserved(s: Seq<char>) -> bool {
    reserved_words().contains(s)
}

/// The keyword-avoiding step.
pub open spec fn avoid_reserved(s: Seq<char>) -> Seq<char> {
    if is_reserved(s) {
        s.push('_')
    } else {
        s
    }
}

/// The candidate before keyword avoidance.
pub open spec fn candidate(kind: NameableKind, parts: Seq<Seq<char>>) -> Seq<char> {
    match kind {
        NameableKind::Type => combined(parts, parts.len()),
        _ => pascal(parts.last()),
    }
}

/// The identifier for an entity of kind `kind` at the place `parts`.
pub open spec fn name_of(kind: NameableKind, parts: Seq<Seq<char>>) -> Seq<char> {
    avoid_reserved(candidate(kind, parts))
}

pub open spec fn views(parts: Seq<String>) -> Seq<Seq<char>> {
    parts.map_values(|p: String| p@)
}

/// Appends the PascalCase form of `s` to `out`.
pub fn push_pascal(out: &mut String, s: &str)
    ensures
        final(out)@ == old(out)@ + pascal(s@),
{
    let n = s.unicode_len();
    let mut i: usize = 0;
    let mut prev: char = ' ';
    while i < n
        invariant
            n == s@.len(),
            i <= n,
            i > 0 ==> prev == s@[i - 1],
            out@ == old(out)@ + pascal_prefix(s@, i as nat),
        decreases n - i,
    {
        let c = s.get_char(i);
        if is_alnum_char(c) {
            let start = i == 0 || !is_alnum_char(prev) || (is_lower_char(prev) && is_upper_char(c));
            if start {
                push_char(out, to_upper_char(c));
            } else {
                push_char(out, to_lower_char(c));
            }
        }
        assert(out@ =~= old(out)@ + pascal_prefix(s@, (i + 1) as nat));
        prev = c;
        i = i + 1;
    }
}

/// Whether `s` is a reserved word.
pub fn is_reserved_word(s: &str) -> (r: bool)
    ensures
        r == is_reserved(s@),
{
    let words: [&str; 43] = [
        "syntax", "import", "weak", "public", "package", "option", "message",
        "enum", "service", "rpc", "returns", "stream", "repeated", "optional",
        "required", "reserved", "extensions", "extend", "oneof", "map", "to",
        "max", "group", "true", "false", "inf", "nan", "double", "float",
        "int32", "int64", "uint32", "uint64", "sint32", "sint64", "fixed32",
        "fixed64", "sfixed32", "sfixed64", "bool", "string", "bytes",
        "RootMessage",
    ];
    let mut i: usize = 0;
    while i < 43
        invariant
            i <= 43,
            forall|j: int| 0 <= j < 43 ==> #[trigger] words[j]@ == reserved_words()[j],
            forall|j: int| 0 <= j < i ==> reserved_words()[j] != s@,
        decreases 43 - i,
    {
        if same_chars(s, words[i]) {
            assert(reserved_words()[i as int] == s@);
            return true;
        }
        i = i + 1;
    }
    assert(reserved_words().len() == 43);
    false
}

/// The identifier for an entity of kind `kind` whose place in the schema is
/// `parts`, outermost first. The same arguments always give the same name.
pub fn name(kind: NameableKind, parts: &[String]) -> (r: String)
    requires
        parts@.len() > 0,
    ensures
        r@ == name_of(kind, views(parts@)),
{
    let ghost ps = views(parts@);
    let mut out = String::new();
    match kind {
        NameableKind::Type => {
            let mut i: usize = 0;
            while i < parts.len()
                invariant
                    i <= parts@.len(),
                    ps == views(parts@),
                    out@ == combined(ps, i as nat),
                decreases parts@.len() - i,
            {
                push_pascal(&mut out, parts[i].as_str());
                i = i + 1;
            }
        },
        _ => {
            push_pascal(&mut out, parts[parts.len() - 1].as_str());
            assert(out@ =~= pascal(ps.last()));
        },
    }
    if is_reserved_word(out.as_str()) {
        push_char(&mut out, '_');
    }
    out
}

/// Naming is a function of its arguments: the same kind and the same
/// fragments always give the same identifier.
pub proof fn name_is_pure(kind: NameableKind, a: Seq<Seq<char>>, b: Seq<Seq<char>>)
    requires
        a == b,
    ensures
        name_of(kind, a) == name_of(kind, b),
{
}

/// A field or enum member name depends on the last fragment alone: the
/// ancestry before it is discarded.
pub proof fn tail_name_ignores_ancestry(kind: NameableKind, a: Seq<Seq<char>>, b: Seq<Seq<char>>)
    requires
        kind != NameableKind::Type,
        a.len() > 0,
        b.len() > 0,
        a.last() == b.last(),
    ensures
        name_of(kind, a) == name_of(kind, b),
        name_of(kind, a) == avoid_reserved(pascal(a.last())),
{
}

/// A type name is the PascalCase form of each fragment, in order: one more
/// fragment appends its own form to the candidate.
pub proof fn type_name_composes(parts: Seq<Seq<char>>, last: Seq<char>)
    ensures
        candidate(NameableKind::Type, parts.push(last))
            == candidate(NameableKind::Type, parts) + pascal(last),
{
    assert(parts.push(last).subrange(0, parts.len() as int) =~= parts);
    assert(parts.subrange(0, parts.len() as int) =~= parts);
    combined_prefix(parts.push(last), parts, parts.len());
}

proof fn combined_prefix(a: Seq<Seq<char>>, b: Seq<Seq<char>>, n: nat)
    requires
        n <= a.len(),
        n <= b.len(),
        a.subrange(0, n as int) == b.subrange(0, n as int),
    ensures
        combined(a, n) == combined(b, n),
    decreases n,
{
    if n > 0 {
        assert(a[n - 1] == a.subrange(0, n as int)[n - 1]);
        assert(b[n - 1] == b.subrange(0, n as int)[n - 1]);
        assert(a.subrange(0, n - 1) =~= a.subrange(0, n as int).subrange(0, n - 1));
        assert(b.subrange(0, n - 1) =~= b.subrange(0, n as int).subrange(0, n - 1));
        combined_prefix(a, b, (n - 1) as nat);
    }
}

/// A candidate that is a reserved word is never returned as it is.
pub proof fn reserved_words_are_avoided(kind: NameableKind, parts: Seq<Seq<char>>)
    requires
        is_reserved(candidate(kind, parts)),
    ensures
        name_of(kind, parts) != candidate(kind, parts),
{
    assert(name_of(kind, parts).len() == candidate(kind, parts).len() + 1);
}

} // verus!
