//! Per-scope name resolution records.
//!
//! A scope (a module or a block) tracks which names are visible in it and what
//! each name resolves to in the type, value and macro namespaces, together
//! with a separate table of textually scoped ("legacy") macros.

pub mod ids;
pub mod per_ns;
pub mod name_map;
pub mod item_scope;
pub mod laws;

pub use crate::ids::{
    AdtId, BuiltinType, ConstId, EnumId, EnumVariantId, FunctionId, ImplId, MacroDefId, ModuleDefId,
    ModuleId, Name, StaticId, StructId, TraitId, TypeAliasId, UnionId,
};
pub use crate::item_scope::{BuiltinScope, BuiltinShadowMode, ItemScope};
pub use crate::name_map::NameMap;
pub use crate::per_ns::PerNs;
