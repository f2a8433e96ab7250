//! The backend as the generator's driver sees it: its strategy, queried once,
//! and the naming, lowering and emission steps.

use vstd::prelude::*;
use crate::naming::{NameableKind, name, name_of, views};
use crate::expr::{Expr, Unsupported, lower, lowered, expression_error};
use crate::doc::Metadata;
use crate::item::{FileState, Item, emit, emitted, supported, adds_root_field, next_counter, item_error};

verus! {

/// How the output is split into files.
#[derive(Clone, Debug)]
pub enum FilePartitioning {
    /// One file for the whole schema, under this name.
    SingleFile(String),
    /// One file for each type.
    FilePerType,
}

/// Whether an enum member's name carries the enum's own place in the schema.
#[derive(Clone, Copy, Debug, PartialEq, Eq, Structural)]
pub enum EnumMemberNaming {
    Modularized,
    Unmodularized,
}

/// How optional properties of a struct are represented.
#[derive(Clone, Copy, Debug, PartialEq, Eq, Structural)]
pub enum OptionalPropertyHandling {
    /// The target's own notion of field presence covers them.
    NativeSupport,
    /// The driver wraps their types in a nullable.
    WrapWithNullable,
}

/// What the backend asks of the driver before generation starts.
#[derive(Clone, Debug)]
pub struct Strategy {
    pub file_partitioning: FilePartitioning,
    pub enum_member_naming: EnumMemberNaming,
    pub optional_property_handling: OptionalPropertyHandling,
    pub booleans_are_nullable: bool,
    pub int8s_are_nullable: bool,
    pub uint8s_are_nullable: bool,
    pub int16s_are_nullable: bool,
    pub uint16s_are_nullable: bool,
    pub int32s_are_nullable: bool,
    pub uint32s_are_nullable: bool,
    pub float32s_are_nullable: bool,
    pub float64s_are_nullable: bool,
    pub strings_are_nullable: bool,
    pub timestamps_are_nullable: bool,
    pub arrays_are_nullable: bool,
    pub dicts_are_nullable: bool,
    pub aliases_are_nullable: bool,
    pub enums_are_nullable: bool,
    pub structs_are_nullable: bool,
    pub discriminators_are_nullable: bool,
}

/// No kind of value is nullable by itself in proto3's encoding.
pub open spec fn nothing_nullable(s: Strategy) -> bool {
    &&& !s.booleans_are_nullable
    &&& !s.int8s_are_nullable
    &&& !s.uint8s_are_nullable
    &&& !s.int16s_are_nullable
    &&& !s.uint16s_are_nullable
    &&& !s.int32s_are_nullable
    &&& !s.uint32s_are_nullable
    &&& !s.float32s_are_nullable
    &&& !s.float64s_are_nullable
    &&& !s.strings_are_nullable
    &&& !s.timestamps_are_nullable
    &&& !s.arrays_are_nullable
    &&& !s.dicts_are_nullable
    &&& !s.aliases_are_nullable
    &&& !s.enums_are_nullable
    &&& !s.structs_are_nullable
    &&& !s.discriminators_are_nullable
}

/// The proto3 backend.
pub struct Target {}

impl Target {
    /// The backend; it keeps no state between calls.
    pub fn new() -> (r: Target) {
        Target {}
    }

    /// One file, `index.proto`; enum members named with their enum's place;
    /// optional properties left to proto3's field presence; nothing nullable.
    pub fn strategy(&self) -> (r: Strategy)
        ensures
            r.file_partitioning matches FilePartitioning::SingleFile(f) && f@ == "index.proto"@,
            r.enum_member_naming == EnumMemberNaming::Modularized,
            r.optional_property_handling == OptionalPropertyHandling::NativeSupport,
            nothing_nullable(r),
    {
        Strategy {
            file_partitioning: FilePartitioning::SingleFile(String::from_str("index.proto")),
            enum_member_naming: EnumMemberNaming::Modularized,
            optional_property_handling: OptionalPropertyHandling::NativeSupport,
            booleans_are_nullable: false,
            int8s_are_nullable: false,
            uint8s_are_nullable: false,
            int16s_are_nullable: false,
            uint16s_are_nullable: false,
            int32s_are_nullable: false,
            uint32s_are_nullable: false,
            float32s_are_nullable: false,
            float64s_are_nullable: false,
            strings_are_nullable: false,
            timestamps_are_nullable: false,
            arrays_are_nullable: false,
            dicts_are_nullable: false,
            aliases_are_nullable: false,
            enums_are_nullable: false,
            structs_are_nullable: false,
            discriminators_are_nullable: false,
        }
    }

    /// The identifier for an entity of kind `kind` at the place `parts`.
    pub fn name(&self, kind: NameableKind, parts: &[String]) -> (r: String)
        requires
            parts@.len() > 0,
        ensures
            r@ == name_of(kind, views(parts@)),
    {
        name(kind, parts)
    }

    /// Lowers an expression; the file state and the metadata play no part.
    pub fn expr(&self, state: &mut FileState, metadata: Metadata, expr: Expr) -> (r: Result<
        String,
        Unsupported,
    >)
        ensures
            *final(state) == *old(state),
            lowered(expr) is Some <==> r is Ok,
            r is Ok ==> r->Ok_0@ == lowered(expr)->0,
            r is Err ==> expression_error(expr, r->Err_0),
    {
        lower(expr)
    }

    /// Emits one item: the text it adds to the file, with the counter of root
    /// fields advanced for a root item; or the report of an unsupported item,
    /// with no text and the state unchanged.
    pub fn item(&self, state: &mut FileState, item: Item) -> (r: Result<String, Unsupported>)
        requires
            adds_root_field(item) ==> old(state)@ < usize::MAX,
        ensures
            r is Ok <==> supported(item),
            r is Ok ==> emitted(item, old(state)@) == Some(r->Ok_0@),
            r matches Err(Unsupported::Item(k)) ==> k@ == item_error(item),
            r is Err ==> r->Err_0 is Item,
            final(state)@ == next_counter(item, old(state)@),
    {
        emit(state, item)
    }
}

} // verus!
