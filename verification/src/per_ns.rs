//! The resolution of one name, namespace by namespace.

use vstd::prelude::*;
use vstd::std_specs::convert::FromSpecImpl;
use crate::ids::{AdtId, MacroDefId, ModuleDefId};

verus! {

/// What one name resolves to in each of the three namespaces. The slots are
/// independent: any subset of them may be bound at the same time.
#[derive(Clone, Copy, Debug, PartialEq, Eq, Structural)]
pub struct PerNs {
    pub types: Option<ModuleDefId>,
    pub values: Option<ModuleDefId>,
    pub macros: Option<MacroDefId>,
}

/// The record that an item occupies when it is declared: modules, enums,
/// traits, type aliases and builtin types live in the type namespace;
/// functions, constants and statics in the value namespace; structures,
/// unions and enum variants in both, under the same identifier.
pub open spec fn classify(def: ModuleDefId) -> PerNs {
    match def {
        ModuleDefId::ModuleId(_) => PerNs::spec_types(def),
        ModuleDefId::FunctionId(_) => PerNs::spec_values(def),
        ModuleDefId::AdtId(AdtId::StructId(_)) => PerNs::spec_both(def, def),
        ModuleDefId::AdtId(AdtId::UnionId(_)) => PerNs::spec_both(def, def),
        ModuleDefId::AdtId(AdtId::EnumId(_)) => PerNs::spec_types(def),
        ModuleDefId::EnumVariantId(_) => PerNs::spec_both(def, def),
        ModuleDefId::ConstId(_) => PerNs::spec_values(def),
        ModuleDefId::StaticId(_) => PerNs::spec_values(def),
        ModuleDefId::TraitId(_) => PerNs::spec_types(def),
        ModuleDefId::TypeAliasId(_) => PerNs::spec_types(def),
        ModuleDefId::BuiltinType(_) => PerNs::spec_types(def),
    }
}

impl PerNs {
    pub open spec fn spec_none() -> PerNs {
        PerNs { types: None, values: None, macros: None }
    }

    pub open spec fn spec_types(t: ModuleDefId) -> PerNs {
        PerNs { types: Some(t), values: None, macros: None }
    }

    pub open spec fn spec_values(v: ModuleDefId) -> PerNs {
        PerNs { types: None, values: Some(v), macros: None }
    }

    pub open spec fn spec_macros(m: MacroDefId) -> PerNs {
        PerNs { types: None, values: None, macros: Some(m) }
    }

    pub open spec fn spec_both(t: ModuleDefId, v: ModuleDefId) -> PerNs {
        PerNs { types: Some(t), values: Some(v), macros: None }
    }

    /// Whether no namespace is bound.
    pub open spec fn spec_is_none(&self) -> bool {
        self.types is None && self.values is None && self.macros is None
    }

    /// This record, with each namespace that it leaves unbound taken from
    /// `other`.
    pub open spec fn spec_or(self, other: PerNs) -> PerNs {
        PerNs {
            types: if self.types is Some { self.types } else { other.types },
            values: if self.values is Some { self.values } else { other.values },
            macros: if self.macros is Some { self.macros } else { other.macros },
        }
    }

    /// Whether `other` binds a namespace that this record leaves unbound.
    pub open spec fn gains_from(self, other: PerNs) -> bool {
        ||| self.types is None && other.types is Some
        ||| self.values is None && other.values is Some
        ||| self.macros is None && other.macros is Some
    }

    /// The record with no namespace bound.
    #[verifier::when_used_as_spec(spec_none)]
    pub fn none() -> (r: PerNs)
        ensures
            r == PerNs::spec_none(),
    {
        PerNs { types: None, values: None, macros: None }
    }

    /// The record that binds the type namespace alone.
    #[verifier::when_used_as_spec(spec_types)]
    pub fn types(t: ModuleDefId) -> (r: PerNs)
        ensures
            r == PerNs::spec_types(t),
    {
        PerNs { types: Some(t), values: None, macros: None }
    }

    /// The record that binds the value namespace alone.
    #[verifier::when_used_as_spec(spec_values)]
    pub fn values(v: ModuleDefId) -> (r: PerNs)
        ensures
            r == PerNs::spec_values(v),
    {
        PerNs { types: None, values: Some(v), macros: None }
    }

    /// The record that binds the macro namespace alone.
    #[verifier::when_used_as_spec(spec_macros)]
    pub fn macros(m: MacroDefId) -> (r: PerNs)
        ensures
            r == PerNs::spec_macros(m),
    {
        PerNs { types: None, values: None, macros: Some(m) }
    }

    /// The record that binds the type and the value namespace at once.
    #[verifier::when_used_as_spec(spec_both)]
    pub fn both(t: ModuleDefId, v: ModuleDefId) -> (r: PerNs)
        ensures
            r == PerNs::spec_both(t, v),
    {
        PerNs { types: Some(t), values: Some(v), macros: None }
    }

    /// Whether no namespace is bound.
    #[verifier::when_used_as_spec(spec_is_none)]
    pub fn is_none(&self) -> (b: bool)
        ensures
            b == self.spec_is_none(),
    {
        self.types.is_none() && self.values.is_none() && self.macros.is_none()
    }

    /// This record, with each namespace that it leaves unbound taken from
    /// `other`.
    #[verifier::when_used_as_spec(spec_or)]
    pub fn or(self, other: PerNs) -> (r: PerNs)
        ensures
            r == self.spec_or(other),
    {
        PerNs {
            types: if self.types.is_some() { self.types } else { other.types },
            values: if self.values.is_some() { self.values } else { other.values },
            macros: if self.macros.is_some() { self.macros } else { other.macros },
        }
    }

    /// The binding in the type namespace, if there is one.
    pub fn take_types(self) -> (r: Option<ModuleDefId>)
        ensures
            r == self.types,
    {
        self.types
    }

    /// The binding in the value namespace, if there is one.
    pub fn take_values(self) -> (r: Option<ModuleDefId>)
        ensures
            r == self.values,
    {
        self.values
    }

    /// The binding in the macro namespace, if there is one.
    pub fn take_macros(self) -> (r: Option<MacroDefId>)
        ensures
            r == self.macros,
    {
        self.macros
    }
}

impl Default for PerNs {
    fn default() -> (r: PerNs)
        ensures
            r == PerNs::spec_none(),
    {
        PerNs::none()
    }
}

impl From<ModuleDefId> for PerNs {
    /// The record that `def` occupies when it is declared.
    fn from(def: ModuleDefId) -> (r: PerNs) {
        match def {
            ModuleDefId::ModuleId(_) => PerNs::types(def),
            ModuleDefId::FunctionId(_) => PerNs::values(def),
            ModuleDefId::AdtId(adt) => match adt {
                AdtId::StructId(_) | AdtId::UnionId(_) => PerNs::both(def, def),
                AdtId::EnumId(_) => PerNs::types(def),
            },
            ModuleDefId::EnumVariantId(_) => PerNs::both(def, def),
            ModuleDefId::ConstId(_) | ModuleDefId::StaticId(_) => PerNs::values(def),
            ModuleDefId::TraitId(_) => PerNs::types(def),
            ModuleDefId::TypeAliasId(_) => PerNs::types(def),
            ModuleDefId::BuiltinType(_) => PerNs::types(def),
        }
    }
}

impl FromSpecImpl<ModuleDefId> for PerNs {
    open spec fn obeys_from_spec() -> bool {
        true
    }

    open spec fn from_spec(def: ModuleDefId) -> PerNs {
        classify(def)
    }
}

} // verus!
