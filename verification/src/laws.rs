//! Laws of the scope operations, stated over the view of a scope.

use vstd::prelude::*;
use crate::ids::{AdtId, BuiltinType, ImplId, MacroDefId, ModuleDefId, ModuleId, Name};
use crate::item_scope::{builtin_table, lookup, BuiltinShadowMode, ItemScopeView};
use crate::per_ns::{classify, PerNs};

verus! {

/// Merging is idempotent: after a candidate was merged into a name, merging
/// the same candidate into the same name again reports no change and leaves
/// the scope as it is.
pub proof fn push_res_is_idempotent(scope: ItemScopeView, name: Name, def: PerNs)
    ensures
        !scope.push_res(name, def).push_res_changes(name, def),
        scope.push_res(name, def).push_res(name, def) == scope.push_res(name, def),
{
    let once = scope.push_res(name, def);
    assert(once.bound(name) == scope.bound(name).spec_or(def));
    assert(once.push_res(name, def).visible =~= once.visible);
}

/// A candidate that offers a namespace which the name has not bound yet is
/// reported as a change when it is merged first, and as none when it is
/// merged again.
pub proof fn push_res_changes_once(scope: ItemScopeView, name: Name, def: PerNs)
    requires
        scope.bound(name).gains_from(def),
    ensures
        scope.push_res_changes(name, def),
        !scope.push_res(name, def).push_res_changes(name, def),
{
    push_res_is_idempotent(scope, name, def);
}

/// A candidate that offers nothing for a namespace which the name has not
/// bound yet changes nothing: the scope stays as it is, and a name that it
/// did not know stays unknown.
pub proof fn push_res_without_gain_is_no_change(scope: ItemScopeView, name: Name, def: PerNs)
    requires
        !scope.bound(name).gains_from(def),
    ensures
        !scope.push_res_changes(name, def),
        scope.push_res(name, def) == scope,
{
}

/// A merge reports a change exactly when it changes the scope.
pub proof fn push_res_reports_every_change(scope: ItemScopeView, name: Name, def: PerNs)
    ensures
        scope.push_res_changes(name, def) <==> scope.push_res(name, def) != scope,
{
    if scope.bound(name).gains_from(def) {
        let after = scope.push_res(name, def);
        assert(after.visible.contains_key(name));
        assert(after.visible[name] == scope.bound(name).spec_or(def));
        if scope.visible.contains_key(name) {
            assert(scope.visible[name] != after.visible[name]);
        }
    }
}

/// The first binding wins: a namespace of a name that is bound stays bound to
/// the same definition whatever candidate is merged, and a change is reported
/// only where another namespace of the name gets bound.
pub proof fn push_res_keeps_bound_slots(scope: ItemScopeView, name: Name, def: PerNs)
    ensures
        scope.bound(name).types is Some ==> {
            &&& scope.push_res(name, def).bound(name).types == scope.bound(name).types
            &&& scope.push_res_changes(name, def) == ({
                ||| scope.bound(name).values is None && def.values is Some
                ||| scope.bound(name).macros is None && def.macros is Some
            })
        },
        scope.bound(name).values is Some ==> {
            &&& scope.push_res(name, def).bound(name).values == scope.bound(name).values
            &&& scope.push_res_changes(name, def) == ({
                ||| scope.bound(name).types is None && def.types is Some
                ||| scope.bound(name).macros is None && def.macros is Some
            })
        },
        scope.bound(name).macros is Some ==> {
            &&& scope.push_res(name, def).bound(name).macros == scope.bound(name).macros
            &&& scope.push_res_changes(name, def) == ({
                ||| scope.bound(name).types is None && def.types is Some
                ||| scope.bound(name).values is None && def.values is Some
            })
        },
{
}

/// Merging into one name touches no other name, and touches neither the
/// declarations, nor the implementation blocks, nor the legacy macros.
pub proof fn push_res_is_local(scope: ItemScopeView, name: Name, def: PerNs, other: Name)
    requires
        other != name,
    ensures
        scope.push_res(name, def).bound(other) == scope.bound(other),
        scope.push_res(name, def).visible.contains_key(other) == scope.visible.contains_key(other),
        scope.push_res(name, def).declarations == scope.declarations,
        scope.push_res(name, def).impls == scope.impls,
        scope.push_res(name, def).legacy_macros == scope.legacy_macros,
{
}

/// Two candidates merged into one name in turn: each namespace ends up with
/// the first of the bindings that the scope, the first candidate and the
/// second candidate hold for it, in this order.
pub proof fn push_res_first_offer_wins(scope: ItemScopeView, name: Name, first: PerNs, second: PerNs)
    ensures
        scope.push_res(name, first).push_res(name, second).bound(name) == scope.bound(
            name,
        ).spec_or(first).spec_or(second),
        scope.push_res(name, first).push_res(name, second) == scope.push_res(
            name,
            first.spec_or(second),
        ),
{
    let one = scope.push_res(name, first);
    assert(one.bound(name) == scope.bound(name).spec_or(first));
    assert(one.push_res(name, second).visible =~= scope.push_res(
        name,
        first.spec_or(second),
    ).visible);
}

/// Where a scope binds a name to a module, in the type namespace and in no
/// other, and a builtin type has the same name: a lookup that prefers
/// builtin types gives the builtin record, and one that prefers modules gives
/// the module's.
pub proof fn module_shadows_by_mode(
    scope: ItemScopeView,
    builtins: Map<Name, PerNs>,
    name: Name,
    module: ModuleId,
)
    requires
        scope.visible.contains_key(name),
        scope.visible[name] == PerNs::spec_types(ModuleDefId::ModuleId(module)),
        builtins.contains_key(name),
    ensures
        scope.get(builtins, name, BuiltinShadowMode::Other) == Some(builtins[name]),
        scope.get(builtins, name, BuiltinShadowMode::Module) == Some(scope.visible[name]),
{
}

/// Away from a module with the name of a builtin type the two lookups agree:
/// the scope's own record where it has one, the builtin record else.
pub proof fn lookup_prefers_own_record(
    scope: ItemScopeView,
    builtins: Map<Name, PerNs>,
    name: Name,
    shadow: BuiltinShadowMode,
)
    requires
        !(scope.names_module(name) && builtins.contains_key(name)),
    ensures
        scope.visible.contains_key(name) ==> scope.get(builtins, name, shadow) == Some(
            scope.visible[name],
        ),
        !scope.visible.contains_key(name) ==> scope.get(builtins, name, shadow) == lookup(
            builtins,
            name,
        ),
{
}

/// Every kind of item has its namespaces: modules, enums, traits, type
/// aliases and builtin types bind the type namespace alone; functions,
/// constants and statics the value namespace alone; structures, unions and
/// enum variants both. No item binds the macro namespace, and a namespace
/// that an item binds is bound to the item itself.
pub proof fn classification_covers_every_kind(def: ModuleDefId)
    ensures
        classify(def).macros is None,
        classify(def).types is Some || classify(def).values is Some,
        classify(def).types is Some ==> classify(def).types == Some(def),
        classify(def).values is Some ==> classify(def).values == Some(def),
        classify(def).types is Some <==> !(def is FunctionId || def is ConstId || def is StaticId),
        classify(def).values is Some <==> ({
            ||| def is FunctionId
            ||| def is ConstId
            ||| def is StaticId
            ||| def is EnumVariantId
            ||| def matches ModuleDefId::AdtId(AdtId::StructId(_))
            ||| def matches ModuleDefId::AdtId(AdtId::UnionId(_))
        }),
{
}

/// The last write wins among legacy macros: after two macros were defined
/// under one name, the name gives the second.
pub proof fn legacy_macro_last_write_wins(
    scope: ItemScopeView,
    name: Name,
    first: MacroDefId,
    second: MacroDefId,
)
    ensures
        scope.define_legacy_macro(name, first).define_legacy_macro(name, second).get_legacy_macro(
            name,
        ) == Some(second),
        scope.define_legacy_macro(name, first).define_legacy_macro(name, second)
            == scope.define_legacy_macro(name, second),
{
    assert(scope.define_legacy_macro(name, first).define_legacy_macro(name, second).legacy_macros
        =~= scope.define_legacy_macro(name, second).legacy_macros);
}

/// Declaring an item or an implementation block changes nothing that a
/// lookup sees: the declaration is put at the end of its list, and the
/// visible names and the legacy macros stay as they are.
pub proof fn declarations_do_not_resolve(
    scope: ItemScopeView,
    def: ModuleDefId,
    imp: ImplId,
    builtins: Map<Name, PerNs>,
    name: Name,
    shadow: BuiltinShadowMode,
)
    ensures
        scope.define_def(def).get(builtins, name, shadow) == scope.get(builtins, name, shadow),
        scope.define_def(def).visible == scope.visible,
        scope.define_def(def).legacy_macros == scope.legacy_macros,
        scope.define_def(def).impls == scope.impls,
        scope.define_def(def).declarations.len() == scope.declarations.len() + 1,
        scope.define_def(def).declarations.last() == def,
        scope.define_impl(imp).get(builtins, name, shadow) == scope.get(builtins, name, shadow),
        scope.define_impl(imp).visible == scope.visible,
        scope.define_impl(imp).legacy_macros == scope.legacy_macros,
        scope.define_impl(imp).declarations == scope.declarations,
        scope.define_impl(imp).impls.len() == scope.impls.len() + 1,
        scope.define_impl(imp).impls.last() == imp,
{
}

/// The table of a catalog binds the names of the catalog and no others, each
/// in the type namespace alone, to a builtin type that the catalog gives for
/// the name.
pub proof fn builtin_table_binds_catalog(catalog: Seq<(Name, BuiltinType)>, name: Name)
    ensures
        builtin_table(catalog).contains_key(name) <==> exists|i: int|
            0 <= i < catalog.len() && (#[trigger] catalog[i]).0 == name,
        builtin_table(catalog).contains_key(name) ==> exists|i: int|
            0 <= i < catalog.len() && (#[trigger] catalog[i]).0 == name && builtin_table(
                catalog,
            )[name] == PerNs::spec_types(ModuleDefId::BuiltinType(catalog[i].1)),
    decreases catalog.len(),
{
    if catalog.len() > 0 {
        let rest = catalog.drop_last();
        builtin_table_binds_catalog(rest, name);
        let last = catalog.len() - 1;
        if catalog[last].0 == name {
        } else if builtin_table(rest).contains_key(name) {
            let i = choose|i: int|
                0 <= i < rest.len() && (#[trigger] rest[i]).0 == name && builtin_table(rest)[name]
                    == PerNs::spec_types(ModuleDefId::BuiltinType(rest[i].1));
            assert(catalog[i] == rest[i]);
        } else {
            assert forall|i: int| 0 <= i < catalog.len() implies (#[trigger] catalog[i]).0
                != name by {
                if i < last {
                    assert(catalog[i] == rest[i]);
                }
            }
        }
    }
}

} // verus!
