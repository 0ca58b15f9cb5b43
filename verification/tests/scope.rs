use item_scope::{
    AdtId, BuiltinScope, BuiltinShadowMode, BuiltinType, ConstId, EnumId, EnumVariantId,
    FunctionId, ImplId, ItemScope, MacroDefId, ModuleDefId, ModuleId, Name, NameMap, PerNs,
    StaticId, StructId, TraitId, TypeAliasId, UnionId,
};

const FOO: Name = Name { id: 100 };
const BAR: Name = Name { id: 101 };
const I32: Name = Name { id: 1 };
const BOOL: Name = Name { id: 2 };
const STR: Name = Name { id: 3 };

fn builtins() -> BuiltinScope {
    BuiltinScope::new(&[(I32, BuiltinType(10)), (BOOL, BuiltinType(11)), (STR, BuiltinType(12))])
}

fn builtin_record(ty: u32) -> PerNs {
    PerNs::types(ModuleDefId::BuiltinType(BuiltinType(ty)))
}

fn struct_def(id: u32) -> ModuleDefId {
    ModuleDefId::AdtId(AdtId::StructId(StructId(id)))
}

fn fn_def(id: u32) -> ModuleDefId {
    ModuleDefId::FunctionId(FunctionId(id))
}

fn module_def(id: u32) -> ModuleDefId {
    ModuleDefId::ModuleId(ModuleId(id))
}

fn sorted<T: Clone>(v: &[(Name, T)]) -> Vec<(Name, T)> {
    let mut out = v.to_vec();
    out.sort_by_key(|p| p.0.id);
    out
}

#[test]
fn per_ns_constructors_bind_their_namespaces() {
    let t = struct_def(1);
    let v = fn_def(2);
    let m = MacroDefId(3);
    assert_eq!(PerNs::none(), PerNs { types: None, values: None, macros: None });
    assert_eq!(PerNs::types(t), PerNs { types: Some(t), values: None, macros: None });
    assert_eq!(PerNs::values(v), PerNs { types: None, values: Some(v), macros: None });
    assert_eq!(PerNs::macros(m), PerNs { types: None, values: None, macros: Some(m) });
    assert_eq!(PerNs::both(t, v), PerNs { types: Some(t), values: Some(v), macros: None });
    assert_eq!(PerNs::default(), PerNs::none());
}

#[test]
fn per_ns_accessors_give_each_slot() {
    let t = struct_def(1);
    let v = fn_def(2);
    let m = MacroDefId(3);
    let all = PerNs { types: Some(t), values: Some(v), macros: Some(m) };
    assert_eq!(all.take_types(), Some(t));
    assert_eq!(all.take_values(), Some(v));
    assert_eq!(all.take_macros(), Some(m));
    assert_eq!(PerNs::none().take_types(), None);
    assert_eq!(PerNs::none().take_values(), None);
    assert_eq!(PerNs::none().take_macros(), None);
    assert!(PerNs::none().is_none());
    assert!(!PerNs::macros(m).is_none());
    assert!(!PerNs::types(t).is_none());
    assert!(!PerNs::values(v).is_none());
}

#[test]
fn per_ns_or_keeps_what_is_bound() {
    let a = PerNs::types(struct_def(1));
    let b = PerNs { types: Some(module_def(9)), values: Some(fn_def(2)), macros: Some(MacroDefId(5)) };
    assert_eq!(
        a.or(b),
        PerNs { types: Some(struct_def(1)), values: Some(fn_def(2)), macros: Some(MacroDefId(5)) }
    );
    assert_eq!(b.or(a), b);
    assert_eq!(PerNs::none().or(a), a);
    assert_eq!(a.or(PerNs::none()), a);
}

#[test]
fn classification_of_every_kind() {
    let type_only = [
        ModuleDefId::ModuleId(ModuleId(1)),
        ModuleDefId::AdtId(AdtId::EnumId(EnumId(2))),
        ModuleDefId::TraitId(TraitId(3)),
        ModuleDefId::TypeAliasId(TypeAliasId(4)),
        ModuleDefId::BuiltinType(BuiltinType(5)),
    ];
    for def in type_only {
        assert_eq!(PerNs::from(def), PerNs { types: Some(def), values: None, macros: None });
    }
    let value_only = [
        ModuleDefId::FunctionId(FunctionId(6)),
        ModuleDefId::ConstId(ConstId(7)),
        ModuleDefId::StaticId(StaticId(8)),
    ];
    for def in value_only {
        assert_eq!(PerNs::from(def), PerNs { types: None, values: Some(def), macros: None });
    }
    let both = [
        ModuleDefId::AdtId(AdtId::StructId(StructId(9))),
        ModuleDefId::AdtId(AdtId::UnionId(UnionId(10))),
        ModuleDefId::EnumVariantId(EnumVariantId(11)),
    ];
    for def in both {
        assert_eq!(PerNs::from(def), PerNs { types: Some(def), values: Some(def), macros: None });
    }
}

#[test]
fn structure_occupies_type_and_value() {
    let def = struct_def(42);
    let record: PerNs = def.into();
    assert_eq!(record.take_types(), Some(def));
    assert_eq!(record.take_values(), Some(def));
    assert_eq!(record.take_macros(), None);
}

#[test]
fn name_keeps_its_handle() {
    assert_eq!(Name::new(7), Name { id: 7 });
    assert_eq!(Name::new(7).id(), 7);
    assert_ne!(Name::new(7), Name::new(8));
}

#[test]
fn name_map_get_and_insert() {
    let mut m: NameMap<u32> = NameMap::new();
    assert_eq!(m.get(&FOO), None);
    assert_eq!(m.insert(FOO, 1), None);
    assert_eq!(m.get(&FOO), Some(&1));
    assert_eq!(m.get(&BAR), None);
    assert_eq!(m.insert(FOO, 2), Some(1));
    assert_eq!(m.get(&FOO), Some(&2));
    assert_eq!(m.insert(BAR, 3), None);
    assert_eq!(sorted(&m.entries()), vec![(FOO, 2), (BAR, 3)]);
}

#[test]
fn name_map_entries_of_empty_table() {
    let m: NameMap<u32> = NameMap::new();
    assert_eq!(m.entries(), vec![]);
}

#[test]
fn name_map_clone_is_independent() {
    let mut m: NameMap<u32> = NameMap::new();
    m.insert(FOO, 1);
    let copy = m.clone();
    m.insert(FOO, 2);
    m.insert(BAR, 3);
    assert_eq!(copy.entries(), vec![(FOO, 1)]);
    assert_eq!(copy.get(&BAR), None);
}

#[test]
fn builtin_scope_binds_catalog_in_type_namespace() {
    let b = builtins();
    assert_eq!(b.get(&I32), Some(&builtin_record(10)));
    assert_eq!(b.get(&BOOL), Some(&builtin_record(11)));
    assert_eq!(b.get(&STR), Some(&builtin_record(12)));
    assert_eq!(b.get(&FOO), None);
    assert_eq!(
        sorted(&b.entries()),
        vec![(I32, builtin_record(10)), (BOOL, builtin_record(11)), (STR, builtin_record(12))]
    );
}

#[test]
fn builtin_scope_last_pair_of_a_name_wins() {
    let b = BuiltinScope::new(&[(I32, BuiltinType(10)), (I32, BuiltinType(20))]);
    assert_eq!(b.get(&I32), Some(&builtin_record(20)));
    assert_eq!(b.entries(), vec![(I32, builtin_record(20))]);
}

#[test]
fn builtin_scope_of_empty_catalog() {
    let b = BuiltinScope::new(&[]);
    assert_eq!(b.get(&I32), None);
    assert_eq!(b.entries(), vec![]);
}

#[test]
fn new_scope_is_empty() {
    let s = ItemScope::new();
    let b = BuiltinScope::new(&[]);
    assert_eq!(s.entries(&b), vec![]);
    assert_eq!(s.declarations(), vec![]);
    assert_eq!(s.impls(), vec![]);
    assert_eq!(s.macros(), vec![]);
    assert_eq!(s.legacy_macros(), vec![]);
    assert_eq!(s.traits(), vec![]);
    assert_eq!(s.collect_resolutions(), vec![]);
    assert_eq!(s.get(&b, &FOO, BuiltinShadowMode::Module), None);
    assert_eq!(s.get(&b, &FOO, BuiltinShadowMode::Other), None);
    assert_eq!(s.get_legacy_macro(&FOO), None);
    let d = ItemScope::default();
    assert_eq!(d.collect_resolutions(), vec![]);
    assert_eq!(d.declarations(), vec![]);
}

#[test]
fn push_res_twice_reports_change_once() {
    let mut s = ItemScope::new();
    let cand = PerNs::both(struct_def(1), struct_def(1));
    assert!(s.push_res(FOO, &cand));
    assert!(!s.push_res(FOO, &cand));
    assert_eq!(s.collect_resolutions(), vec![(FOO, cand)]);
}

#[test]
fn push_res_of_empty_candidate_changes_nothing() {
    let mut s = ItemScope::new();
    let b = builtins();
    assert!(!s.push_res(FOO, &PerNs::none()));
    assert_eq!(s.collect_resolutions(), vec![]);
    assert_eq!(s.get(&b, &FOO, BuiltinShadowMode::Module), None);
    assert_eq!(s.get(&b, &FOO, BuiltinShadowMode::Other), None);
    assert_eq!(s, ItemScope::new());
}

#[test]
fn push_res_of_empty_candidate_does_not_hide_a_builtin() {
    let mut s = ItemScope::new();
    let b = builtins();
    assert!(!s.push_res(I32, &PerNs::none()));
    assert_eq!(s.entries(&b).len(), 3);
    assert_eq!(s.get(&b, &I32, BuiltinShadowMode::Module), Some(&builtin_record(10)));
    assert_eq!(s.get(&b, &I32, BuiltinShadowMode::Other), Some(&builtin_record(10)));
}

#[test]
fn push_res_without_gain_leaves_the_scope_as_it_is() {
    let mut s = ItemScope::new();
    s.push_res(FOO, &PerNs::both(struct_def(1), struct_def(1)));
    let before = s.collect_resolutions();
    assert!(!s.push_res(FOO, &PerNs::types(module_def(2))));
    assert!(!s.push_res(FOO, &PerNs::both(struct_def(3), fn_def(4))));
    assert!(!s.push_res(FOO, &PerNs::none()));
    assert_eq!(s.collect_resolutions(), before);
    assert_eq!(before, vec![(FOO, PerNs::both(struct_def(1), struct_def(1)))]);
}

#[test]
fn push_res_first_binding_wins() {
    let mut s = ItemScope::new();
    let b = builtins();
    assert!(s.push_res(FOO, &PerNs::types(struct_def(1))));
    assert!(!s.push_res(FOO, &PerNs::types(struct_def(2))));
    assert_eq!(
        s.get(&b, &FOO, BuiltinShadowMode::Module),
        Some(&PerNs::types(struct_def(1)))
    );
    assert!(s.push_res(FOO, &PerNs::both(struct_def(3), struct_def(3))));
    assert_eq!(
        s.get(&b, &FOO, BuiltinShadowMode::Module),
        Some(&PerNs::both(struct_def(1), struct_def(3)))
    );
    assert!(s.push_res(FOO, &PerNs::macros(MacroDefId(4))));
    assert!(!s.push_res(
        FOO,
        &PerNs { types: Some(fn_def(7)), values: Some(fn_def(7)), macros: Some(MacroDefId(8)) }
    ));
    assert_eq!(
        s.get(&b, &FOO, BuiltinShadowMode::Module),
        Some(&PerNs {
            types: Some(struct_def(1)),
            values: Some(struct_def(3)),
            macros: Some(MacroDefId(4)),
        })
    );
}

#[test]
fn type_and_value_of_one_name_coexist() {
    let mut s = ItemScope::new();
    let b = builtins();
    assert!(s.push_res(FOO, &PerNs::types(struct_def(1))));
    assert!(s.push_res(FOO, &PerNs::values(fn_def(2))));
    let expected = PerNs { types: Some(struct_def(1)), values: Some(fn_def(2)), macros: None };
    assert_eq!(s.get(&b, &FOO, BuiltinShadowMode::Module), Some(&expected));
    assert_eq!(s.get(&b, &FOO, BuiltinShadowMode::Other), Some(&expected));
}

#[test]
fn second_value_for_one_name_is_ignored() {
    let mut s = ItemScope::new();
    let b = builtins();
    assert!(s.push_res(BAR, &PerNs::values(fn_def(1))));
    assert!(!s.push_res(BAR, &PerNs::values(fn_def(2))));
    let got = s.get(&b, &BAR, BuiltinShadowMode::Module).copied();
    assert_eq!(got.and_then(|p| p.take_values()), Some(fn_def(1)));
    assert_eq!(got, Some(PerNs::values(fn_def(1))));
}

#[test]
fn push_res_leaves_other_names_alone() {
    let mut s = ItemScope::new();
    let b = builtins();
    s.push_res(FOO, &PerNs::types(struct_def(1)));
    s.push_res(BAR, &PerNs::values(fn_def(2)));
    assert_eq!(s.get(&b, &FOO, BuiltinShadowMode::Module), Some(&PerNs::types(struct_def(1))));
    assert_eq!(s.get(&b, &BAR, BuiltinShadowMode::Module), Some(&PerNs::values(fn_def(2))));
    assert_eq!(
        sorted(&s.collect_resolutions()),
        vec![(FOO, PerNs::types(struct_def(1))), (BAR, PerNs::values(fn_def(2)))]
    );
}

#[test]
fn module_named_like_builtin_follows_shadow_mode() {
    let mut s = ItemScope::new();
    let b = builtins();
    s.push_res(I32, &PerNs::types(module_def(5)));
    assert_eq!(s.get(&b, &I32, BuiltinShadowMode::Other), Some(&builtin_record(10)));
    assert_eq!(s.get(&b, &I32, BuiltinShadowMode::Module), Some(&PerNs::types(module_def(5))));
}

#[test]
fn module_without_builtin_of_its_name_is_found_in_both_modes() {
    let mut s = ItemScope::new();
    let b = builtins();
    s.push_res(FOO, &PerNs::types(module_def(5)));
    assert_eq!(s.get(&b, &FOO, BuiltinShadowMode::Other), Some(&PerNs::types(module_def(5))));
    assert_eq!(s.get(&b, &FOO, BuiltinShadowMode::Module), Some(&PerNs::types(module_def(5))));
}

#[test]
fn type_named_like_builtin_wins_in_both_modes() {
    let mut s = ItemScope::new();
    let b = builtins();
    s.push_res(I32, &PerNs::types(struct_def(5)));
    assert_eq!(s.get(&b, &I32, BuiltinShadowMode::Other), Some(&PerNs::types(struct_def(5))));
    assert_eq!(s.get(&b, &I32, BuiltinShadowMode::Module), Some(&PerNs::types(struct_def(5))));
    let mut v = ItemScope::new();
    v.push_res(BOOL, &PerNs::values(fn_def(6)));
    assert_eq!(v.get(&b, &BOOL, BuiltinShadowMode::Other), Some(&PerNs::values(fn_def(6))));
}

#[test]
fn unknown_name_falls_back_to_builtin() {
    let s = ItemScope::new();
    let b = builtins();
    assert_eq!(s.get(&b, &BOOL, BuiltinShadowMode::Module), Some(&builtin_record(11)));
    assert_eq!(s.get(&b, &BOOL, BuiltinShadowMode::Other), Some(&builtin_record(11)));
    assert_eq!(s.get(&b, &FOO, BuiltinShadowMode::Module), None);
    assert_eq!(s.get(&b, &FOO, BuiltinShadowMode::Other), None);
}

#[test]
fn entries_lists_shadowed_builtin_twice() {
    let mut s = ItemScope::new();
    let b = BuiltinScope::new(&[(I32, BuiltinType(10))]);
    s.push_res(I32, &PerNs::types(struct_def(1)));
    let all = s.entries(&b);
    assert_eq!(all, vec![(I32, PerNs::types(struct_def(1))), (I32, builtin_record(10))]);
    assert_eq!(all.iter().filter(|p| p.0 == I32).count(), 2);
}

#[test]
fn entries_lists_own_names_before_builtins() {
    let mut s = ItemScope::new();
    let b = builtins();
    s.push_res(FOO, &PerNs::types(struct_def(1)));
    s.push_res(BAR, &PerNs::values(fn_def(2)));
    let all = s.entries(&b);
    assert_eq!(all.len(), 5);
    assert_eq!(
        sorted(&all[..2]),
        vec![(FOO, PerNs::types(struct_def(1))), (BAR, PerNs::values(fn_def(2)))]
    );
    assert_eq!(
        sorted(&all[2..]),
        vec![(I32, builtin_record(10)), (BOOL, builtin_record(11)), (STR, builtin_record(12))]
    );
    assert_eq!(s.entries(&b).len(), 5);
}

#[test]
fn declarations_keep_their_order() {
    let mut s = ItemScope::new();
    s.define_def(fn_def(3));
    s.define_def(struct_def(1));
    s.define_def(fn_def(3));
    s.define_def(module_def(2));
    assert_eq!(s.declarations(), vec![fn_def(3), struct_def(1), fn_def(3), module_def(2)]);
    assert_eq!(s.declarations(), vec![fn_def(3), struct_def(1), fn_def(3), module_def(2)]);
    assert_eq!(s.collect_resolutions(), vec![]);
    let b = builtins();
    assert_eq!(s.get(&b, &FOO, BuiltinShadowMode::Module), None);
}

#[test]
fn impls_keep_their_order() {
    let mut s = ItemScope::new();
    s.define_impl(ImplId(7));
    s.define_impl(ImplId(5));
    s.define_impl(ImplId(6));
    assert_eq!(s.impls(), vec![ImplId(7), ImplId(5), ImplId(6)]);
    assert_eq!(s.impls().len(), 3);
    assert_eq!(s.declarations(), vec![]);
}

#[test]
fn legacy_macro_last_write_wins() {
    let mut s = ItemScope::new();
    s.define_legacy_macro(FOO, MacroDefId(1));
    assert_eq!(s.get_legacy_macro(&FOO), Some(MacroDefId(1)));
    s.define_legacy_macro(FOO, MacroDefId(2));
    assert_eq!(s.get_legacy_macro(&FOO), Some(MacroDefId(2)));
    assert_eq!(s.get_legacy_macro(&BAR), None);
    assert_eq!(s.legacy_macros(), vec![(FOO, MacroDefId(2))]);
}

#[test]
fn legacy_macros_are_apart_from_visible_names() {
    let mut s = ItemScope::new();
    let b = builtins();
    s.define_legacy_macro(FOO, MacroDefId(1));
    s.push_res(BAR, &PerNs::macros(MacroDefId(2)));
    assert_eq!(s.get(&b, &FOO, BuiltinShadowMode::Module), None);
    assert_eq!(s.macros(), vec![(BAR, MacroDefId(2))]);
    assert_eq!(s.legacy_macros(), vec![(FOO, MacroDefId(1))]);
    assert_eq!(s.get_legacy_macro(&BAR), None);
}

#[test]
fn macros_lists_names_with_a_macro() {
    let mut s = ItemScope::new();
    s.push_res(FOO, &PerNs::macros(MacroDefId(1)));
    s.push_res(BAR, &PerNs::types(struct_def(2)));
    s.push_res(I32, &PerNs { types: Some(struct_def(3)), values: None, macros: Some(MacroDefId(4)) });
    assert_eq!(sorted(&s.macros()), vec![(I32, MacroDefId(4)), (FOO, MacroDefId(1))]);
}

#[test]
fn traits_lists_trait_bindings() {
    let mut s = ItemScope::new();
    s.push_res(FOO, &PerNs::types(ModuleDefId::TraitId(TraitId(1))));
    s.push_res(BAR, &PerNs::types(struct_def(2)));
    s.push_res(I32, &PerNs::values(ModuleDefId::TraitId(TraitId(3))));
    s.push_res(BOOL, &PerNs::types(ModuleDefId::TraitId(TraitId(4))));
    s.push_res(STR, &PerNs::types(ModuleDefId::TraitId(TraitId(1))));
    let mut got = s.traits();
    got.sort_by_key(|t| t.0);
    assert_eq!(got, vec![TraitId(1), TraitId(1), TraitId(4)]);
}

#[test]
fn snapshots_are_independent_copies() {
    let mut s = ItemScope::new();
    s.push_res(FOO, &PerNs::types(struct_def(1)));
    s.define_legacy_macro(BAR, MacroDefId(2));
    let resolutions = s.collect_resolutions();
    let legacy = s.collect_legacy_macros();
    s.push_res(FOO, &PerNs::values(fn_def(3)));
    s.define_legacy_macro(BAR, MacroDefId(4));
    s.define_legacy_macro(FOO, MacroDefId(5));
    assert_eq!(resolutions, vec![(FOO, PerNs::types(struct_def(1)))]);
    assert_eq!(legacy.entries(), vec![(BAR, MacroDefId(2))]);
    assert_eq!(legacy.get(&FOO), None);
}

#[test]
fn snapshot_feeds_another_scope() {
    let mut from = ItemScope::new();
    from.push_res(FOO, &PerNs::types(struct_def(1)));
    from.push_res(BAR, &PerNs::values(fn_def(2)));
    let mut to = ItemScope::new();
    to.push_res(FOO, &PerNs::types(struct_def(9)));
    let mut changed = false;
    for (name, res) in from.collect_resolutions() {
        changed |= to.push_res(name, &res);
    }
    assert!(changed);
    let mut again = false;
    for (name, res) in from.collect_resolutions() {
        again |= to.push_res(name, &res);
    }
    assert!(!again);
    assert_eq!(
        sorted(&to.collect_resolutions()),
        vec![(FOO, PerNs::types(struct_def(9))), (BAR, PerNs::values(fn_def(2)))]
    );
}

#[test]
fn scopes_with_the_same_content_are_equal() {
    let mut a = ItemScope::new();
    let mut b = ItemScope::new();
    assert_eq!(a, b);
    a.push_res(FOO, &PerNs::types(struct_def(1)));
    a.push_res(BAR, &PerNs::values(fn_def(2)));
    assert_ne!(a, b);
    b.push_res(BAR, &PerNs::values(fn_def(2)));
    b.push_res(FOO, &PerNs::types(struct_def(1)));
    assert_eq!(a, b);
    a.define_def(fn_def(2));
    assert_ne!(a, b);
    b.define_def(fn_def(2));
    a.define_legacy_macro(FOO, MacroDefId(3));
    b.define_legacy_macro(FOO, MacroDefId(3));
    a.define_impl(ImplId(4));
    b.define_impl(ImplId(4));
    assert_eq!(a, b);
    assert_eq!(a.collect_legacy_macros(), b.collect_legacy_macros());
}

#[test]
fn merging_in_either_order_binds_distinct_namespaces_alike() {
    let b = builtins();
    let mut one = ItemScope::new();
    one.push_res(FOO, &PerNs::types(struct_def(1)));
    one.push_res(FOO, &PerNs::values(fn_def(2)));
    let mut other = ItemScope::new();
    other.push_res(FOO, &PerNs::values(fn_def(2)));
    other.push_res(FOO, &PerNs::types(struct_def(1)));
    assert_eq!(
        one.get(&b, &FOO, BuiltinShadowMode::Module),
        other.get(&b, &FOO, BuiltinShadowMode::Module)
    );
    assert_eq!(one, other);
}
