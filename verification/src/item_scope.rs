//! The names that are defined or visible in one scope.
//!
//! A scope is a module or a block. Legacy macros are kept apart from the
//! other names: they are reached through the methods that name them, and all
//! other methods resolve types, values and module scoped macros only.

use vstd::prelude::*;
use crate::ids::{BuiltinType, ImplId, MacroDefId, ModuleDefId, Name, TraitId};
use crate::name_map::{lemma_selection_lists, lists, selected, selection, NameMap};
use crate::per_ns::PerNs;

verus! {

/// Which of the two wins where a module has the name of a builtin type.
#[derive(Clone, Copy, Debug, PartialEq, Eq, Structural)]
pub enum BuiltinShadowMode {
    /// Prefer the module.
    Module,
    /// Prefer the builtin type.
    Other,
}

/// The value bound to `name` in `m`, if there is one.
pub open spec fn lookup<V>(m: Map<Name, V>, name: Name) -> Option<V> {
    if m.contains_key(name) {
        Some(m[name])
    } else {
        None
    }
}

/// The table that a catalog of builtin types stands for: each name bound, in
/// the type namespace, to the builtin type of the last pair that names it.
pub open spec fn builtin_table(catalog: Seq<(Name, BuiltinType)>) -> Map<Name, PerNs>
    decreases catalog.len(),
{
    if catalog.len() == 0 {
        Map::empty()
    } else {
        builtin_table(catalog.drop_last()).insert(
            catalog.last().0,
            PerNs::spec_types(ModuleDefId::BuiltinType(catalog.last().1)),
        )
    }
}

/// The module scoped macros among the visible names: each name whose macro
/// namespace is bound, with the macro that it is bound to.
pub open spec fn module_macros(visible: Map<Name, PerNs>) -> Map<Name, MacroDefId> {
    Map::new(
        |n: Name| visible.contains_key(n) && visible[n].macros is Some,
        |n: Name| visible[n].macros->0,
    )
}

/// The traits among the visible names: each name whose type namespace is
/// bound to a trait, with that trait.
pub open spec fn visible_traits(visible: Map<Name, PerNs>) -> Map<Name, TraitId> {
    Map::new(
        |n: Name| visible.contains_key(n) && visible[n].types matches Some(ModuleDefId::TraitId(_)),
        |n: Name|
            match visible[n].types {
                Some(ModuleDefId::TraitId(t)) => t,
                _ => arbitrary(),
            },
    )
}

/// The trait that a record binds in the type namespace, if it binds one.
pub open spec fn trait_of(p: PerNs) -> Option<TraitId> {
    match p.types {
        Some(ModuleDefId::TraitId(t)) => Some(t),
        _ => None,
    }
}

/// The second halves of the pairs of `s`, in their order.
pub open spec fn seconds<A, B>(s: Seq<(A, B)>) -> Seq<B> {
    Seq::new(s.len(), |i: int| s[i].1)
}

/// The read-only table of the builtin types, by name.
#[derive(Debug, PartialEq, Eq)]
pub struct BuiltinScope {
    table: NameMap<PerNs>,
}

impl View for BuiltinScope {
    type V = Map<Name, PerNs>;

    closed spec fn view(&self) -> Map<Name, PerNs> {
        self.table@
    }
}

impl BuiltinScope {
    /// The table that `catalog` stands for.
    pub fn new(catalog: &[(Name, BuiltinType)]) -> (scope: BuiltinScope)
        ensures
            scope@ == builtin_table(catalog@),
    {
        let mut table: NameMap<PerNs> = NameMap::new();
        let mut i: usize = 0;
        while i < catalog.len()
            invariant
                i <= catalog.len(),
                table@ == builtin_table(catalog@.take(i as int)),
            decreases catalog.len() - i,
        {
            let (name, ty) = catalog[i];
            table.insert(name, PerNs::types(ModuleDefId::BuiltinType(ty)));
            proof {
                assert(catalog@.take(i + 1).drop_last() =~= catalog@.take(i as int));
            }
            i += 1;
        }
        proof {
            assert(catalog@.take(catalog@.len() as int) =~= catalog@);
        }
        BuiltinScope { table }
    }

    /// The record of the builtin type called `name`, if there is one.
    pub fn get(&self, name: &Name) -> (r: Option<&PerNs>)
        ensures
            match r {
                Some(p) => lookup(self@, *name) == Some(*p),
                None => lookup(self@, *name) is None,
            },
    {
        self.table.get(name)
    }

    /// The builtin types with their names, each once, in no particular order.
    pub fn entries(&self) -> (out: Vec<(Name, PerNs)>)
        ensures
            lists(out@, self@),
    {
        self.table.entries()
    }
}

/// What a scope holds, as plain mathematics.
pub ghost struct ItemScopeView {
    /// The names that can be resolved from the scope, legacy macros apart.
    pub visible: Map<Name, PerNs>,
    /// The items declared in the scope, in the order of their declaration.
    pub declarations: Seq<ModuleDefId>,
    /// The implementation blocks of the scope, in the order of their
    /// declaration.
    pub impls: Seq<ImplId>,
    /// The macros in textual scope, at most one for each name.
    pub legacy_macros: Map<Name, MacroDefId>,
}

impl ItemScopeView {
    /// The scope in which nothing is declared or visible.
    pub open spec fn empty() -> ItemScopeView {
        ItemScopeView {
            visible: Map::empty(),
            declarations: Seq::empty(),
            impls: Seq::empty(),
            legacy_macros: Map::empty(),
        }
    }

    /// The record of `name` in the scope itself; the empty record where the
    /// scope does not know the name.
    pub open spec fn bound(self, name: Name) -> PerNs {
        if self.visible.contains_key(name) {
            self.visible[name]
        } else {
            PerNs::spec_none()
        }
    }

    /// The scope after `def` was declared in it.
    pub open spec fn define_def(self, def: ModuleDefId) -> ItemScopeView {
        ItemScopeView { declarations: self.declarations.push(def), ..self }
    }

    /// The scope after the implementation block `imp` was declared in it.
    pub open spec fn define_impl(self, imp: ImplId) -> ItemScopeView {
        ItemScopeView { impls: self.impls.push(imp), ..self }
    }

    /// The scope after `mac` took the legacy macro slot of `name`.
    pub open spec fn define_legacy_macro(self, name: Name, mac: MacroDefId) -> ItemScopeView {
        ItemScopeView { legacy_macros: self.legacy_macros.insert(name, mac), ..self }
    }

    /// The scope after the candidate `def` was merged into the record of
    /// `name`: each namespace that was bound stays as it was, each other one
    /// takes what the candidate offers. Where the candidate offers nothing
    /// for a namespace that is not bound, the scope stays as it is, and a
    /// name that it did not know stays unknown.
    pub open spec fn push_res(self, name: Name, def: PerNs) -> ItemScopeView {
        if self.bound(name).gains_from(def) {
            ItemScopeView {
                visible: self.visible.insert(name, self.bound(name).spec_or(def)),
                ..self
            }
        } else {
            self
        }
    }

    /// Whether merging the candidate `def` into the record of `name` binds a
    /// namespace that was not bound.
    pub open spec fn push_res_changes(self, name: Name, def: PerNs) -> bool {
        self.bound(name).gains_from(def)
    }

    /// The legacy macro called `name`, if there is one.
    pub open spec fn get_legacy_macro(self, name: Name) -> Option<MacroDefId> {
        lookup(self.legacy_macros, name)
    }

    /// Whether the scope binds `name`, in the type namespace, to a module.
    pub open spec fn names_module(self, name: Name) -> bool {
        self.visible.contains_key(name) && self.visible[name].types matches Some(
            ModuleDefId::ModuleId(_),
        )
    }

    /// What `name` resolves to from the scope, with `builtins` behind it. The
    /// scope's own record wins over the builtin one, but for a module under
    /// `BuiltinShadowMode::Other`, where the builtin record wins.
    pub open spec fn get(
        self,
        builtins: Map<Name, PerNs>,
        name: Name,
        shadow: BuiltinShadowMode,
    ) -> Option<PerNs> {
        if shadow == BuiltinShadowMode::Other && self.names_module(name) && builtins.contains_key(
            name,
        ) {
            Some(builtins[name])
        } else if self.visible.contains_key(name) {
            Some(self.visible[name])
        } else {
            lookup(builtins, name)
        }
    }
}

/// Whether `s` is a listing of `own` followed by a listing of `builtins`. A
/// name that both bind comes twice.
pub open spec fn lists_both(
    s: Seq<(Name, PerNs)>,
    own: Map<Name, PerNs>,
    builtins: Map<Name, PerNs>,
) -> bool {
    exists|k: int|
        0 <= k <= s.len() && lists(#[trigger] s.subrange(0, k), own) && lists(
            s.subrange(k, s.len() as int),
            builtins,
        )
}

/// The items of `v`, copied out in their order.
fn copy_all<T: Copy>(v: &Vec<T>) -> (out: Vec<T>)
    ensures
        out@ == v@,
{
    let mut out: Vec<T> = Vec::new();
    let mut i: usize = 0;
    while i < v.len()
        invariant
            i <= v.len(),
            out@ == v@.take(i as int),
        decreases v.len() - i,
    {
        out.push(v[i]);
        proof {
            assert(out@ =~= v@.take(i + 1));
        }
        i += 1;
    }
    proof {
        assert(v@.take(v@.len() as int) =~= v@);
    }
    out
}

/// The names defined or visible in one module or block.
#[derive(Debug, PartialEq, Eq)]
pub struct ItemScope {
    visible: NameMap<PerNs>,
    defs: Vec<ModuleDefId>,
    impls: Vec<ImplId>,
    /// Macros visible in the scope by textual order. A macro called by a bare
    /// name is looked for here first and among the visible names after that;
    /// one called by a path is looked for among the visible names only.
    /// Shadowing inside one scope is not tracked: the macro defined last
    /// under a name holds the slot.
    legacy_macros: NameMap<MacroDefId>,
}

impl View for ItemScope {
    type V = ItemScopeView;

    closed spec fn view(&self) -> ItemScopeView {
        ItemScopeView {
            visible: self.visible@,
            declarations: self.defs@,
            impls: self.impls@,
            legacy_macros: self.legacy_macros@,
        }
    }
}

impl ItemScope {
    /// The scope in which nothing is declared or visible.
    pub fn new() -> (scope: ItemScope)
        ensures
            scope@ == ItemScopeView::empty(),
    {
        ItemScope {
            visible: NameMap::new(),
            defs: Vec::new(),
            impls: Vec::new(),
            legacy_macros: NameMap::new(),
        }
    }

    /// The visible names with their records, then the builtin types with
    /// theirs. Nothing is merged: a visible name that is also the name of a
    /// builtin type comes twice.
    pub fn entries(&self, builtins: &BuiltinScope) -> (out: Vec<(Name, PerNs)>)
        ensures
            lists_both(out@, self@.visible, builtins@),
    {
        let mut out = self.visible.entries();
        let ghost own = out@;
        let mut rest = builtins.entries();
        let ghost tail = rest@;
        out.append(&mut rest);
        proof {
            assert(out@.subrange(0, own.len() as int) =~= own);
            assert(out@.subrange(own.len() as int, out@.len() as int) =~= tail);
        }
        out
    }

    /// The items declared in the scope, in the order of their declaration.
    pub fn declarations(&self) -> (out: Vec<ModuleDefId>)
        ensures
            out@ == self@.declarations,
    {
        copy_all(&self.defs)
    }

    /// The implementation blocks of the scope, in the order of their
    /// declaration.
    pub fn impls(&self) -> (out: Vec<ImplId>)
        ensures
            out@ == self@.impls,
    {
        copy_all(&self.impls)
    }

    /// The module scoped macros: the visible names whose macro namespace is
    /// bound, each once with its macro, in no particular order. Legacy macros
    /// are left out.
    pub fn macros(&self) -> (out: Vec<(Name, MacroDefId)>)
        ensures
            lists(out@, module_macros(self@.visible)),
    {
        let all = self.visible.entries();
        let ghost keep = |p: PerNs| p.macros;
        let mut out: Vec<(Name, MacroDefId)> = Vec::new();
        let mut i: usize = 0;
        while i < all.len()
            invariant
                i <= all.len(),
                keep == |p: PerNs| p.macros,
                out@ == selection(all@.take(i as int), keep),
            decreases all.len() - i,
        {
            proof {
                assert(all@.take(i + 1).drop_last() =~= all@.take(i as int));
            }
            if let Some(m) = all[i].1.take_macros() {
                out.push((all[i].0, m));
            }
            i += 1;
        }
        proof {
            assert(all@.take(all@.len() as int) =~= all@);
            lemma_selection_lists(all@, self@.visible, keep);
            assert(selected(self@.visible, keep) =~= module_macros(self@.visible));
        }
        out
    }

    /// The legacy macros that are in textual scope at the end of the scope,
    /// each name once, in no particular order.
    pub fn legacy_macros(&self) -> (out: Vec<(Name, MacroDefId)>)
        ensures
            lists(out@, self@.legacy_macros),
    {
        self.legacy_macros.entries()
    }

    /// What `name` resolves to from this scope, with the builtin types behind
    /// it. Legacy macros are not looked at.
    pub fn get<'a>(
        &'a self,
        builtins: &'a BuiltinScope,
        name: &Name,
        shadow: BuiltinShadowMode,
    ) -> (r: Option<&'a PerNs>)
        ensures
            match r {
                Some(p) => self@.get(builtins@, *name, shadow) == Some(*p),
                None => self@.get(builtins@, *name, shadow) is None,
            },
    {
        let item = self.visible.get(name);
        match shadow {
            BuiltinShadowMode::Module => {},
            BuiltinShadowMode::Other => {
                if let Some(def) = item {
                    if let Some(ModuleDefId::ModuleId(_)) = def.take_types() {
                        let builtin = builtins.get(name);
                        return if builtin.is_some() {
                            builtin
                        } else {
                            item
                        };
                    }
                }
            },
        }
        if item.is_some() {
            item
        } else {
            builtins.get(name)
        }
    }

    /// The traits in scope: for each visible name whose type namespace is
    /// bound to a trait, that trait, in no particular order. A trait that is
    /// visible under two names comes twice.
    pub fn traits(&self) -> (out: Vec<TraitId>)
        ensures
            exists|s: Seq<(Name, TraitId)>| #[trigger]
                lists(s, visible_traits(self@.visible)) && out@ == seconds(s),
    {
        let all = self.visible.entries();
        let ghost keep = |p: PerNs| trait_of(p);
        let mut out: Vec<TraitId> = Vec::new();
        let mut i: usize = 0;
        while i < all.len()
            invariant
                i <= all.len(),
                keep == |p: PerNs| trait_of(p),
                out@ == seconds(selection(all@.take(i as int), keep)),
            decreases all.len() - i,
        {
            proof {
                assert(all@.take(i + 1).drop_last() =~= all@.take(i as int));
            }
            if let Some(ModuleDefId::TraitId(tr)) = all[i].1.take_types() {
                out.push(tr);
                proof {
                    assert(out@ =~= seconds(selection(all@.take(i + 1), keep)));
                }
            }
            i += 1;
        }
        proof {
            assert(all@.take(all@.len() as int) =~= all@);
            lemma_selection_lists(all@, self@.visible, keep);
            assert(selected(self@.visible, keep) =~= visible_traits(self@.visible));
        }
        out
    }

    /// Records that `def` is declared in this scope. What is visible does not
    /// change.
    pub fn define_def(&mut self, def: ModuleDefId)
        ensures
            final(self)@ == old(self)@.define_def(def),
    {
        self.defs.push(def)
    }

    /// The legacy macro called `name`, if there is one.
    pub fn get_legacy_macro(&self, name: &Name) -> (r: Option<MacroDefId>)
        ensures
            r == self@.get_legacy_macro(*name),
    {
        match self.legacy_macros.get(name) {
            Some(mac) => Some(*mac),
            None => None,
        }
    }

    /// Records that the implementation block `imp` is declared in this scope.
    pub fn define_impl(&mut self, imp: ImplId)
        ensures
            final(self)@ == old(self)@.define_impl(imp),
    {
        self.impls.push(imp)
    }

    /// Gives the legacy macro slot of `name` to `mac`, whatever held it.
    pub fn define_legacy_macro(&mut self, name: Name, mac: MacroDefId)
        ensures
            final(self)@ == old(self)@.define_legacy_macro(name, mac),
    {
        self.legacy_macros.insert(name, mac);
    }

    /// Merges the candidate `def` into the record of `name`: a namespace that
    /// is bound keeps its binding, one that is not takes the candidate's.
    /// Returns whether a namespace was bound by this; where none was, the
    /// scope is left as it is.
    pub fn push_res(&mut self, name: Name, def: &PerNs) -> (changed: bool)
        ensures
            final(self)@ == old(self)@.push_res(name, *def),
            changed == old(self)@.push_res_changes(name, *def),
    {
        let existing = match self.visible.get(&name) {
            Some(found) => *found,
            None => PerNs::none(),
        };
        let mut changed = false;
        if existing.types.is_none() && def.types.is_some() {
            changed = true;
        }
        if existing.values.is_none() && def.values.is_some() {
            changed = true;
        }
        if existing.macros.is_none() && def.macros.is_some() {
            changed = true;
        }
        if changed {
            self.visible.insert(name, existing.or(*def));
        }
        changed
    }

    /// The visible names with their records, copied out: each name once, in
    /// no particular order.
    pub fn collect_resolutions(&self) -> (out: Vec<(Name, PerNs)>)
        ensures
            lists(out@, self@.visible),
    {
        self.visible.entries()
    }

    /// The legacy macros, copied out.
    pub fn collect_legacy_macros(&self) -> (out: NameMap<MacroDefId>)
        ensures
            out@ == self@.legacy_macros,
    {
        self.legacy_macros.clone()
    }
}

impl Default for ItemScope {
    fn default() -> (scope: ItemScope)
        ensures
            scope@ == ItemScopeView::empty(),
    {
        ItemScope::new()
    }
}

} // verus!
