//! Emission of items into the single output file.
//!
//! The preamble opens a wrapper message, `RootMessage`, because proto3 wants
//! one well-known top-level message while any declaration of the schema may be
//! its root. Every message and enum is then declared nested inside it, and each
//! item named `Root` adds one field to it, numbered by a counter that the file
//! state carries. The postamble closes the wrapper.

use vstd::prelude::*;
use crate::text::{decimal, push_decimal, same_chars};
use crate::doc::{Metadata, doc_block, member_text, description, enum_variant_description};
use crate::expr::Unsupported;

verus! {

/// A field of a struct, with its name already resolved and its type already
/// lowered.
#[derive(Clone, Debug)]
pub struct Field {
    pub name: String,
    /// The name on the wire; it is what the proto field is called.
    pub json_name: String,
    pub optional: bool,
    /// The lowered type.
    pub type_: String,
    pub metadata: Metadata,
}

/// A member of an enum.
#[derive(Clone, Debug)]
pub struct EnumMember {
    pub name: String,
    /// The member's value in the source schema.
    pub json_value: String,
}

/// One item of the schema, in the order in which the file is written.
#[derive(Clone, Debug)]
pub enum Item {
    /// A declaration that needs no text of its own.
    Auxiliary,
    Preamble,
    Postamble,
    Alias { metadata: Metadata, name: String, type_: String },
    Enum { metadata: Metadata, name: String, members: Vec<EnumMember> },
    Struct { metadata: Metadata, name: String, has_additional: bool, fields: Vec<Field> },
    /// A tagged union; proto3 has no form for it.
    Discriminator { metadata: Metadata, name: String },
    /// One variant of a tagged union.
    DiscriminatorVariant { metadata: Metadata, name: String },
}

/// What the emitter carries from one item of a file to the next: how many
/// fields of the wrapper message have been numbered so far.
#[derive(Clone, Copy, Debug)]
pub struct FileState {
    last_field_number: usize,
}

impl View for FileState {
    type V = nat;

    closed spec fn view(&self) -> nat {
        self.last_field_number as nat
    }
}

impl FileState {
    /// The state at the start of a file: no field numbered yet.
    pub fn new() -> (r: FileState)
        ensures
            r@ == 0,
    {
        FileState { last_field_number: 0 }
    }

    /// The number given to the last field of the wrapper message, 0 if none.
    pub fn last_field_number(&self) -> (r: usize)
        ensures
            r == self@,
    {
        self.last_field_number
    }
}

impl Default for FileState {
    fn default() -> (r: FileState)
        ensures
            r@ == 0,
    {
        FileState::new()
    }
}

/// The name of the item that stands for the document's root.
pub open spec fn root_name() -> Seq<char> {
    "Root"@
}

/// Whether emitting `item` numbers a field of the wrapper message.
pub open spec fn adds_root_field(item: Item) -> bool {
    match item {
        Item::Alias { name, .. } => name@ == root_name(),
        Item::Enum { name, .. } => name@ == root_name(),
        Item::Struct { name, .. } => name@ == root_name(),
        _ => false,
    }
}

/// Whether `item` has a proto3 form.
pub open spec fn supported(item: Item) -> bool {
    match item {
        Item::Alias { name, .. } => name@ == root_name(),
        Item::Discriminator { .. } => false,
        Item::DiscriminatorVariant { .. } => false,
        _ => true,
    }
}

/// The counter after `item`, from `counter` before it.
pub open spec fn next_counter(item: Item, counter: nat) -> nat {
    if supported(item) && adds_root_field(item) {
        counter + 1
    } else {
        counter
    }
}

/// A field of the wrapper message: `<type> root = <tag>;`.
pub open spec fn root_line(type_: Seq<char>, tag: nat) -> Seq<char> {
    "\t"@ + type_ + " root = "@ + decimal(tag) + ";\n"@
}

/// The declaration of a struct's field under its wire name.
pub open spec fn field_decl(f: Field, tag: nat) -> Seq<char> {
    "\t"@ + f.type_@ + " "@ + f.json_name@ + " = "@ + decimal(tag) + ";\n"@
}

/// What stands before a declaration: a blank line where a documented entry
/// follows another, then the tab and the comment block.
pub open spec fn gap(index: nat, comment: Seq<char>) -> Seq<char> {
    (if index != 0 && comment.len() > 0 { "\n"@ } else { Seq::empty() }) + "\t"@ + comment
}

/// The text of the field at `index`: it is tagged `index + 1`.
pub open spec fn field_text(f: Field, index: nat) -> Seq<char> {
    gap(index, doc_block(1, f.metadata.description@)) + field_decl(f, index + 1)
}

/// The texts of the first `n` fields, in order.
pub open spec fn field_lines(fields: Seq<Field>, n: nat) -> Seq<char>
    decreases n,
{
    if n == 0 {
        Seq::empty()
    } else {
        field_lines(fields, (n - 1) as nat) + field_text(fields[n - 1], (n - 1) as nat)
    }
}

/// The declaration of an enum member, tagged with its position.
pub open spec fn member_decl(m: EnumMember, tag: nat) -> Seq<char> {
    "\t"@ + m.name@ + " = "@ + decimal(tag) + ";\n"@
}

/// The text of the member at `index`, documented from the enum's metadata by
/// the member's source value.
pub open spec fn member_text_at(meta: Metadata, m: EnumMember, index: nat) -> Seq<char> {
    gap(index, doc_block(2, member_text(meta.enum_descriptions@, m.json_value@))) + member_decl(m, index)
}

pub open spec fn member_lines(meta: Metadata, members: Seq<EnumMember>, n: nat) -> Seq<char>
    decreases n,
{
    if n == 0 {
        Seq::empty()
    } else {
        member_lines(meta, members, (n - 1) as nat) + member_text_at(meta, members[n - 1], (n - 1) as nat)
    }
}

/// The field that a root item adds to the wrapper message, if it is one.
pub open spec fn root_field(name: Seq<char>, counter: nat) -> Seq<char> {
    if name == root_name() {
        root_line(name, counter + 1)
    } else {
        Seq::empty()
    }
}

pub open spec fn banner() -> Seq<char> {
    "// Code generated by jtd-codegen for ProtoBuffers v0.1.0\nsyntax = \"proto3\";\n\nmessage RootMessage {\n"@
}

/// The text that `item` adds to the file when the counter stands at
/// `counter`, or `None` where the item has no proto3 form.
pub open spec fn emitted(item: Item, counter: nat) -> Option<Seq<char>> {
    match item {
        Item::Auxiliary => Some(Seq::empty()),
        Item::Preamble => Some(banner()),
        Item::Postamble => Some("}\n"@),
        Item::Alias { metadata, name, type_ } => if name@ == root_name() {
            Some("\t"@ + doc_block(1, metadata.description@) + type_@ + " root = "@ + decimal(counter + 1) + ";\n"@)
        } else {
            None
        },
        Item::Struct { metadata, name, fields, .. } => Some(
            "\n\t"@ + doc_block(1, metadata.description@) + "message "@ + name@ + " {\n"@
                + field_lines(fields@, fields@.len()) + "\t}\n"@ + root_field(name@, counter)
        ),
        Item::Enum { metadata, name, members } => Some(
            "\n\t"@ + doc_block(1, metadata.description@) + "enum "@ + name@ + " {\n"@
                + member_lines(metadata, members@, members@.len()) + "\t}\n"@ + root_field(name@, counter)
        ),
        Item::Discriminator { .. } => None,
        Item::DiscriminatorVariant { .. } => None,
    }
}

/// How an unsupported item is reported: its kind and its name.
pub open spec fn item_error(item: Item) -> Seq<char> {
    match item {
        Item::Alias { name, .. } => "Alias "@ + name@,
        Item::Discriminator { name, .. } => "Discriminator "@ + name@,
        Item::DiscriminatorVariant { name, .. } => "DiscriminatorVariant "@ + name@,
        _ => Seq::empty(),
    }
}

fn push_root_line(out: &mut String, type_: &str, tag: usize)
    ensures
        final(out)@ == old(out)@ + root_line(type_@, tag as nat),
{
    out.append("\t");
    out.append(type_);
    out.append(" root = ");
    push_decimal(out, tag);
    out.append(";\n");
    assert(final(out)@ =~= old(out)@ + root_line(type_@, tag as nat));
}

fn push_gap(out: &mut String, index: usize, comment: &str)
    ensures
        final(out)@ == old(out)@ + gap(index as nat, comment@),
{
    if index != 0 && comment.unicode_len() != 0 {
        out.append("\n");
    }
    out.append("\t");
    out.append(comment);
    assert(final(out)@ =~= old(out)@ + gap(index as nat, comment@));
}

fn push_field_decl(out: &mut String, f: &Field, tag: usize)
    ensures
        final(out)@ == old(out)@ + field_decl(*f, tag as nat),
{
    out.append("\t");
    out.append(f.type_.as_str());
    out.append(" ");
    out.append(f.json_name.as_str());
    out.append(" = ");
    push_decimal(out, tag);
    out.append(";\n");
    assert(final(out)@ =~= old(out)@ + field_decl(*f, tag as nat));
}

fn push_fields(out: &mut String, fields: &Vec<Field>)
    ensures
        final(out)@ == old(out)@ + field_lines(fields@, fields@.len()),
{
    let mut i: usize = 0;
    while i < fields.len()
        invariant
            i <= fields@.len(),
            out@ == old(out)@ + field_lines(fields@, i as nat),
        decreases fields@.len() - i,
    {
        let ghost before = out@;
        let f = &fields[i];
        let comment = description(&f.metadata, 1);
        push_gap(out, i, comment.as_str());
        push_field_decl(out, f, i + 1);
        assert(out@ == before + field_text(fields@[i as int], i as nat));
        assert(out@ =~= old(out)@ + field_lines(fields@, (i + 1) as nat));
        i = i + 1;
    }
}

fn push_members(out: &mut String, metadata: &Metadata, members: &Vec<EnumMember>)
    ensures
        final(out)@ == old(out)@ + member_lines(*metadata, members@, members@.len()),
{
    let mut i: usize = 0;
    while i < members.len()
        invariant
            i <= members@.len(),
            out@ == old(out)@ + member_lines(*metadata, members@, i as nat),
        decreases members@.len() - i,
    {
        let m = &members[i];
        let comment = enum_variant_description(metadata, 2, m.json_value.as_str());
        push_gap(out, i, comment.as_str());
        out.append("\t");
        out.append(m.name.as_str());
        out.append(" = ");
        push_decimal(out, i);
        out.append(";\n");
        assert(out@ =~= old(out)@ + member_lines(*metadata, members@, (i + 1) as nat));
        i = i + 1;
    }
}

/// Whether `name` is the root's name.
pub fn is_root(name: &str) -> (r: bool)
    ensures
        r == (name@ == root_name()),
{
    same_chars(name, "Root")
}

/// Opens a message or enum declaration: a blank line, the item's comment
/// block, and the keyword and name.
fn open_declaration(keyword: &str, metadata: &Metadata, name: &str) -> (r: String)
    ensures
        r@ == "\n\t"@ + doc_block(1, metadata.description@) + keyword@ + name@ + " {\n"@,
{
    let mut out = String::from_str("\n\t");
    let comment = description(metadata, 1);
    out.append(comment.as_str());
    out.append(keyword);
    out.append(name);
    out.append(" {\n");
    out
}

/// Closes a declaration, and adds the wrapper's field if it was the root.
fn close_declaration(out: &mut String, state: &mut FileState, name: &str)
    requires
        name@ == root_name() ==> old(state)@ < usize::MAX,
    ensures
        final(out)@ == old(out)@ + "\t}\n"@ + root_field(name@, old(state)@),
        final(state)@ == if name@ == root_name() { old(state)@ + 1 } else { old(state)@ },
{
    out.append("\t}\n");
    if is_root(name) {
        state.last_field_number = state.last_field_number + 1;
        push_root_line(out, name, state.last_field_number);
    }
    assert(final(out)@ =~= old(out)@ + "\t}\n"@ + root_field(name@, old(state)@));
}

/// Emits `item`: returns the text it adds to the file and advances the
/// counter for a root item. An item without a proto3 form is reported, with
/// no text and the state unchanged.
pub fn emit(state: &mut FileState, item: Item) -> (r: Result<String, Unsupported>)
    requires
        adds_root_field(item) ==> old(state)@ < usize::MAX,
    ensures
        r is Ok <==> supported(item),
        r is Ok ==> emitted(item, old(state)@) == Some(r->Ok_0@),
        r matches Err(Unsupported::Item(k)) ==> k@ == item_error(item),
        r is Err ==> r->Err_0 is Item,
        final(state)@ == next_counter(item, old(state)@),
{
    match item {
        Item::Auxiliary => Ok(String::new()),
        Item::Preamble => {
            let out = String::from_str(
                "// Code generated by jtd-codegen for ProtoBuffers v0.1.0\nsyntax = \"proto3\";\n\nmessage RootMessage {\n",
            );
            Ok(out)
        },
        Item::Postamble => Ok(String::from_str("}\n")),
        Item::Alias { metadata, name, type_ } => {
            if is_root(name.as_str()) {
                let mut out = String::from_str("\t");
                let comment = description(&metadata, 1);
                out.append(comment.as_str());
                state.last_field_number = state.last_field_number + 1;
                out.append(type_.as_str());
                out.append(" root = ");
                push_decimal(&mut out, state.last_field_number);
                out.append(";\n");
                Ok(out)
            } else {
                let mut k = String::from_str("Alias ");
                k.append(name.as_str());
                Err(Unsupported::Item(k))
            }
        },
        Item::Struct { metadata, name, fields, .. } => {
            let mut out = open_declaration("message ", &metadata, name.as_str());
            push_fields(&mut out, &fields);
            close_declaration(&mut out, state, name.as_str());
            Ok(out)
        },
        Item::Enum { metadata, name, members } => {
            let mut out = open_declaration("enum ", &metadata, name.as_str());
            push_members(&mut out, &metadata, &members);
            close_declaration(&mut out, state, name.as_str());
            Ok(out)
        },
        Item::Discriminator { name, .. } => {
            let mut k = String::from_str("Discriminator ");
            k.append(name.as_str());
            Err(Unsupported::Item(k))
        },
        Item::DiscriminatorVariant { name, .. } => {
            let mut k = String::from_str("DiscriminatorVariant ");
            k.append(name.as_str());
            Err(Unsupported::Item(k))
        },
    }
}

proof fn field_lines_prefix(fields: Seq<Field>, k: nat, n: nat)
    requires
        k <= n,
    ensures
        field_lines(fields, k).len() <= field_lines(fields, n).len(),
        field_lines(fields, n).subrange(0, field_lines(fields, k).len() as int) == field_lines(fields, k),
    decreases n,
{
    if k < n {
        field_lines_prefix(fields, k, (n - 1) as nat);
        let a = field_lines(fields, (n - 1) as nat);
        let b = field_text(fields[n - 1], (n - 1) as nat);
        assert((a + b).subrange(0, field_lines(fields, k).len() as int) =~= a.subrange(0, field_lines(fields, k).len() as int));
    } else {
        assert(field_lines(fields, n).subrange(0, field_lines(fields, n).len() as int) =~= field_lines(fields, n));
    }
}

/// Fields are tagged by their position: the text of a struct's fields begins
/// with those before field `i`, followed by field `i`'s declaration under its
/// wire name and the tag `i + 1`, whatever the names of the fields.
pub proof fn fields_tagged_in_order(fields: Seq<Field>, i: nat)
    requires
        i < fields.len(),
    ensures
        field_lines(fields, i + 1) == field_lines(fields, i)
            + gap(i, doc_block(1, fields[i as int].metadata.description@))
            + field_decl(fields[i as int], i + 1),
        field_lines(fields, fields.len()).subrange(0, field_lines(fields, i + 1).len() as int)
            == field_lines(fields, i + 1),
{
    field_lines_prefix(fields, i + 1, fields.len());
}

proof fn member_lines_prefix(meta: Metadata, members: Seq<EnumMember>, k: nat, n: nat)
    requires
        k <= n,
    ensures
        member_lines(meta, members, k).len() <= member_lines(meta, members, n).len(),
        member_lines(meta, members, n).subrange(0, member_lines(meta, members, k).len() as int)
            == member_lines(meta, members, k),
    decreases n,
{
    if k < n {
        member_lines_prefix(meta, members, k, (n - 1) as nat);
        let a = member_lines(meta, members, (n - 1) as nat);
        let b = member_text_at(meta, members[n - 1], (n - 1) as nat);
        assert((a + b).subrange(0, member_lines(meta, members, k).len() as int)
            =~= a.subrange(0, member_lines(meta, members, k).len() as int));
    } else {
        assert(member_lines(meta, members, n).subrange(0, member_lines(meta, members, n).len() as int)
            =~= member_lines(meta, members, n));
    }
}

/// Enum members are tagged by their position from 0, in declaration order:
/// member `i` follows those before it with the tag `i`, so the member at 0,
/// the proto3 default, always comes first.
pub proof fn members_tagged_in_order(meta: Metadata, members: Seq<EnumMember>, i: nat)
    requires
        i < members.len(),
    ensures
        member_lines(meta, members, i + 1) == member_lines(meta, members, i)
            + gap(i, doc_block(2, member_text(meta.enum_descriptions@, members[i as int].json_value@)))
            + member_decl(members[i as int], i),
        member_lines(meta, members, members.len()).subrange(0, member_lines(meta, members, i + 1).len() as int)
            == member_lines(meta, members, i + 1),
        i == 0 ==> member_lines(meta, members, 1) == gap(0, doc_block(2, member_text(meta.enum_descriptions@, members[0].json_value@)))
            + member_decl(members[0], 0),
{
    member_lines_prefix(meta, members, i + 1, members.len());
    if i == 0 {
        assert(member_lines(meta, members, 1) =~= member_lines(meta, members, 0) + member_text_at(meta, members[0], 0));
    }
}

/// The counter after emitting `items` one after another from `counter`.
pub open spec fn counter_after(items: Seq<Item>, counter: nat) -> nat
    decreases items.len(),
{
    if items.len() == 0 {
        counter
    } else {
        counter_after(items.drop_first(), next_counter(items[0], counter))
    }
}

/// How many of `items` add a field to the wrapper message.
pub open spec fn root_items(items: Seq<Item>) -> nat
    decreases items.len(),
{
    if items.len() == 0 {
        0
    } else {
        (if supported(items[0]) && adds_root_field(items[0]) { 1nat } else { 0nat })
            + root_items(items.drop_first())
    }
}

/// Each item moves the counter up by exactly one if it is a root item, and
/// leaves it alone otherwise: it never goes down or back to zero.
pub proof fn counter_steps(item: Item, counter: nat)
    ensures
        supported(item) && adds_root_field(item) ==> next_counter(item, counter) == counter + 1,
        !(supported(item) && adds_root_field(item)) ==> next_counter(item, counter) == counter,
        next_counter(item, counter) >= counter,
{
}

/// Over a run of items the counter grows by the number of root items among
/// them, and so never decreases.
pub proof fn counter_counts_root_items(items: Seq<Item>, counter: nat)
    ensures
        counter_after(items, counter) == counter + root_items(items),
        counter_after(items, counter) >= counter,
    decreases items.len(),
{
    if items.len() > 0 {
        counter_counts_root_items(items.drop_first(), next_counter(items[0], counter));
    }
}

} // verus!
