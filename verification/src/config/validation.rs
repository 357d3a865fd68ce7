//! Validation of the custom modules of a configuration.

use vstd::prelude::*;
use crate::config::{Config, CustomModuleDef};
use crate::config::modules::{ModuleDef, ModuleName, Modules};
use crate::text::concat3;

verus! {

/// Errors found when validating a [`Config`].
#[derive(Debug, Clone, PartialEq, Eq)]
pub enum ConfigValidationError {
    /// Two custom modules share this name.
    DuplicateCustomModule { name: String },
    /// The layout names a custom module that is not defined.
    MissingCustomModule { name: String },
}

impl ConfigValidationError {
    /// The human readable description of the error.
    pub fn to_string(&self) -> (s: String)
        ensures
            s@ == match *self {
                ConfigValidationError::DuplicateCustomModule { name } =>
                    "duplicate custom module definition for '"@ + name@ + "'"@,
                ConfigValidationError::MissingCustomModule { name } => "custom module '"@ + name@
                    + "' referenced in layout but not defined"@,
            },
    {
        match self {
            ConfigValidationError::DuplicateCustomModule { name } => concat3(
                "duplicate custom module definition for '",
                name.as_str(),
                "'",
            ),
            ConfigValidationError::MissingCustomModule { name } => concat3(
                "custom module '",
                name.as_str(),
                "' referenced in layout but not defined",
            ),
        }
    }
}

/// The names of the custom module definitions, in order.
pub open spec fn custom_names(defs: Seq<CustomModuleDef>) -> Seq<Seq<char>> {
    defs.map_values(|d: CustomModuleDef| d.name@)
}

/// The custom module names that a list of modules refers to, in order.
pub open spec fn name_refs(names: Seq<ModuleName>) -> Seq<Seq<char>>
    decreases names.len(),
{
    if names.len() == 0 {
        Seq::empty()
    } else {
        let r = name_refs(names.drop_last());
        match names.last() {
            ModuleName::Custom(n) => r.push(n@),
            _ => r,
        }
    }
}

/// The custom module names that a layout entry refers to.
pub open spec fn def_refs(d: ModuleDef) -> Seq<Seq<char>> {
    match d {
        ModuleDef::Single(m) => name_refs(seq![m]),
        ModuleDef::Group(g) => name_refs(g@),
    }
}

/// The custom module names that a list of layout entries refers to, in order.
pub open spec fn defs_refs(defs: Seq<ModuleDef>) -> Seq<Seq<char>>
    decreases defs.len(),
{
    if defs.len() == 0 {
        Seq::empty()
    } else {
        defs_refs(defs.drop_last()) + def_refs(defs.last())
    }
}

/// The custom module names that the layout refers to: left, center, then
/// right region, each in order.
pub open spec fn layout_refs(m: Modules) -> Seq<Seq<char>> {
    defs_refs(m.left@) + defs_refs(m.center@) + defs_refs(m.right@)
}

/// The default layout names no custom module.
pub proof fn lemma_default_layout_refs(m: Modules)
    requires
        crate::config::modules::is_default_layout(m),
    ensures
        layout_refs(m).len() == 0,
{
    let g = match m.right@[0] {
        ModuleDef::Group(g) => g@,
        _ => Seq::empty(),
    };
    reveal_with_fuel(name_refs, 5);
    assert(name_refs(g).len() == 0) by {
        assert(g.drop_last() =~= seq![ModuleName::Clock, ModuleName::Privacy, ModuleName::Battery]);
        assert(g.drop_last().drop_last() =~= seq![ModuleName::Clock, ModuleName::Privacy]);
        assert(g.drop_last().drop_last().drop_last() =~= seq![ModuleName::Clock]);
        assert(g.drop_last().drop_last().drop_last().drop_last() =~= Seq::<ModuleName>::empty());
    }
    assert(name_refs(seq![ModuleName::Workspaces]).len() == 0) by {
        assert(seq![ModuleName::Workspaces].drop_last() =~= Seq::<ModuleName>::empty());
    }
    assert(name_refs(seq![ModuleName::WindowTitle]).len() == 0) by {
        assert(seq![ModuleName::WindowTitle].drop_last() =~= Seq::<ModuleName>::empty());
    }
    reveal_with_fuel(defs_refs, 2);
    assert(m.left@.drop_last() =~= Seq::<ModuleDef>::empty());
    assert(m.center@.drop_last() =~= Seq::<ModuleDef>::empty());
    assert(m.right@.drop_last() =~= Seq::<ModuleDef>::empty());
}

/// Whether module `m` is the custom module named `n`.
pub open spec fn is_custom_named(m: ModuleName, n: Seq<char>) -> bool {
    m matches ModuleName::Custom(s) && s@ == n
}

/// Whether layout entry `e` names the custom module `n`: as a single module
/// or as any member of a group.
pub open spec fn entry_names_custom(e: ModuleDef, n: Seq<char>) -> bool {
    match e {
        ModuleDef::Single(m) => is_custom_named(m, n),
        ModuleDef::Group(g) => exists|j: int| 0 <= j < g@.len() && is_custom_named(g@[j], n),
    }
}

/// Whether any entry of a region names the custom module `n`.
pub open spec fn region_names_custom(region: Seq<ModuleDef>, n: Seq<char>) -> bool {
    exists|i: int| 0 <= i < region.len() && entry_names_custom(region[i], n)
}

/// Whether the layout names the custom module `n` anywhere: in the left,
/// center or right region, alone or inside a group.
pub open spec fn layout_names_custom(m: Modules, n: Seq<char>) -> bool {
    ||| region_names_custom(m.left@, n)
    ||| region_names_custom(m.center@, n)
    ||| region_names_custom(m.right@, n)
}

proof fn lemma_name_refs_contains(g: Seq<ModuleName>, n: Seq<char>)
    ensures
        name_refs(g).contains(n) <==> exists|j: int| 0 <= j < g.len() && is_custom_named(g[j], n),
    decreases g.len(),
{
    if g.len() > 0 {
        let init = g.drop_last();
        lemma_name_refs_contains(init, n);
        let r = name_refs(init);
        if exists|j: int| 0 <= j < g.len() && is_custom_named(g[j], n) {
            let j = choose|j: int| 0 <= j < g.len() && is_custom_named(g[j], n);
            if j < g.len() - 1 {
                assert(init[j] == g[j]);
                let k = choose|k: int| 0 <= k < r.len() && r[k] == n;
                match g.last() {
                    ModuleName::Custom(x) => assert(name_refs(g)[k] == n),
                    _ => assert(name_refs(g)[k] == n),
                }
            } else {
                match g.last() {
                    ModuleName::Custom(x) => assert(name_refs(g)[r.len() as int] == n),
                    _ => {},
                }
            }
        }
        if name_refs(g).contains(n) {
            let k = choose|k: int| 0 <= k < name_refs(g).len() && name_refs(g)[k] == n;
            match g.last() {
                ModuleName::Custom(x) => {
                    if k < r.len() {
                        assert(r[k] == n);
                        let j = choose|j: int| 0 <= j < init.len() && is_custom_named(init[j], n);
                        assert(g[j] == init[j]);
                    } else {
                        assert(is_custom_named(g[g.len() - 1], n));
                    }
                },
                _ => {
                    assert(r[k] == n);
                    let j = choose|j: int| 0 <= j < init.len() && is_custom_named(init[j], n);
                    assert(g[j] == init[j]);
                },
            }
        }
    }
}

proof fn lemma_def_refs_contains(e: ModuleDef, n: Seq<char>)
    ensures
        def_refs(e).contains(n) <==> entry_names_custom(e, n),
{
    match e {
        ModuleDef::Single(m) => {
            lemma_name_refs_contains(seq![m], n);
            if is_custom_named(m, n) {
                assert(is_custom_named(seq![m][0], n));
            }
        },
        ModuleDef::Group(g) => {
            lemma_name_refs_contains(g@, n);
        },
    }
}

proof fn lemma_defs_refs_contains(defs: Seq<ModuleDef>, n: Seq<char>)
    ensures
        defs_refs(defs).contains(n) <==> region_names_custom(defs, n),
    decreases defs.len(),
{
    if defs.len() > 0 {
        let init = defs.drop_last();
        lemma_defs_refs_contains(init, n);
        lemma_def_refs_contains(defs.last(), n);
        let a = defs_refs(init);
        let b = def_refs(defs.last());
        assert(defs_refs(defs) == a + b);
        if region_names_custom(defs, n) {
            let i = choose|i: int| 0 <= i < defs.len() && entry_names_custom(defs[i], n);
            if i < defs.len() - 1 {
                assert(init[i] == defs[i]);
                let k = choose|k: int| 0 <= k < a.len() && a[k] == n;
                assert((a + b)[k] == n);
            } else {
                let k = choose|k: int| 0 <= k < b.len() && b[k] == n;
                assert((a + b)[a.len() + k] == n);
            }
        }
        if defs_refs(defs).contains(n) {
            let k = choose|k: int| 0 <= k < (a + b).len() && (a + b)[k] == n;
            if k < a.len() {
                assert(a[k] == n);
                let i = choose|i: int| 0 <= i < init.len() && entry_names_custom(init[i], n);
                assert(defs[i] == init[i]);
            } else {
                assert(b[k - a.len()] == n);
                assert(entry_names_custom(defs[defs.len() - 1], n));
            }
        }
    }
}

/// The custom module names that the layout refers to are exactly those that
/// it names somewhere: as a single entry or inside a group, in any region.
pub proof fn lemma_layout_refs_are_named_customs(m: Modules, n: Seq<char>)
    ensures
        layout_refs(m).contains(n) <==> layout_names_custom(m, n),
{
    let l = defs_refs(m.left@);
    let c = defs_refs(m.center@);
    let r = defs_refs(m.right@);
    lemma_defs_refs_contains(m.left@, n);
    lemma_defs_refs_contains(m.center@, n);
    lemma_defs_refs_contains(m.right@, n);
    let all = l + c + r;
    assert(layout_refs(m) == all);
    if l.contains(n) {
        let k = choose|k: int| 0 <= k < l.len() && l[k] == n;
        assert(all[k] == n);
    }
    if c.contains(n) {
        let k = choose|k: int| 0 <= k < c.len() && c[k] == n;
        assert(all[l.len() + k] == n);
    }
    if r.contains(n) {
        let k = choose|k: int| 0 <= k < r.len() && r[k] == n;
        assert(all[l.len() + c.len() + k] == n);
    }
    if all.contains(n) {
        let k = choose|k: int| 0 <= k < all.len() && all[k] == n;
        if k < l.len() {
            assert(l[k] == n);
        } else if k < l.len() + c.len() {
            assert(c[k - l.len()] == n);
        } else {
            assert(r[k - l.len() - c.len()] == n);
        }
    }
}

/// Whether a configuration passes validation: its custom module names are
/// distinct and every custom module that the layout refers to is defined.
pub open spec fn custom_modules_valid(c: Config) -> bool {
    let names = custom_names(c.custom_modules@);
    let refs = layout_refs(c.modules);
    all_distinct(names) && forall|k: int| 0 <= k < refs.len() ==> names.contains(refs[k])
}

/// A configuration that passes validation defines every custom module that
/// its layout names, whether alone or inside a group, in any region; and a
/// custom module reported missing is one that the layout names and no
/// definition carries.
pub proof fn lemma_valid_layout_defines_named_customs(c: Config, n: Seq<char>)
    ensures
        custom_modules_valid(c) && layout_names_custom(c.modules, n) ==> custom_names(
            c.custom_modules@,
        ).contains(n),
        layout_refs(c.modules).contains(n) ==> layout_names_custom(c.modules, n),
{
    lemma_layout_refs_are_named_customs(c.modules, n);
    if custom_modules_valid(c) && layout_names_custom(c.modules, n) {
        let refs = layout_refs(c.modules);
        let k = choose|k: int| 0 <= k < refs.len() && refs[k] == n;
        assert(custom_names(c.custom_modules@).contains(refs[k]));
    }
}

/// Whether no name occurs twice in `names`.
pub open spec fn all_distinct(names: Seq<Seq<char>>) -> bool {
    forall|i: int, j: int| 0 <= i < j < names.len() ==> names[i] != names[j]
}

/// Whether `k` is the first position of `names` whose name occurred before.
pub open spec fn first_repeat(names: Seq<Seq<char>>, k: int) -> bool {
    &&& 0 <= k < names.len()
    &&& names.take(k).contains(names[k])
    &&& all_distinct(names.take(k))
}

/// Whether `k` is the first position of `refs` whose name is not in `names`.
pub open spec fn first_missing(refs: Seq<Seq<char>>, names: Seq<Seq<char>>, k: int) -> bool {
    &&& 0 <= k < refs.len()
    &&& !names.contains(refs[k])
    &&& forall|j: int| 0 <= j < k ==> names.contains(refs[j])
}

/// The references of a prefix of a module list are a prefix of its
/// references.
proof fn lemma_name_refs_prefix(s: Seq<ModuleName>, i: int)
    requires
        0 <= i <= s.len(),
    ensures
        name_refs(s) =~= name_refs(s.take(i)) + name_refs(s).skip(name_refs(s.take(i)).len() as int),
        name_refs(s.take(i)).len() <= name_refs(s).len(),
    decreases s.len() - i,
{
    if i == s.len() {
        assert(s.take(i) =~= s);
    } else {
        lemma_name_refs_prefix(s, i + 1);
        assert(s.take(i + 1).drop_last() =~= s.take(i));
    }
}

/// The references of a prefix of a layout list are a prefix of its
/// references.
proof fn lemma_defs_refs_prefix(s: Seq<ModuleDef>, i: int)
    requires
        0 <= i <= s.len(),
    ensures
        defs_refs(s) =~= defs_refs(s.take(i)) + defs_refs(s).skip(defs_refs(s.take(i)).len() as int),
        defs_refs(s.take(i)).len() <= defs_refs(s).len(),
    decreases s.len() - i,
{
    if i == s.len() {
        assert(s.take(i) =~= s);
    } else {
        lemma_defs_refs_prefix(s, i + 1);
        assert(s.take(i + 1).drop_last() =~= s.take(i));
    }
}

/// Whether `seen` holds `name`.
fn holds_name(seen: &Vec<String>, name: &String) -> (b: bool)
    ensures
        b == exists|k: int| 0 <= k < seen@.len() && seen@[k]@ == name@,
{
    let mut i: usize = 0;
    while i < seen.len()
        invariant
            i <= seen.len(),
            forall|k: int| 0 <= k < i ==> seen@[k]@ != name@,
        decreases seen.len() - i,
    {
        if seen[i] == *name {
            return true;
        }
        i = i + 1;
    }
    false
}

/// Checks the custom references of a list of modules against `names`.
fn check_names(group: &Vec<ModuleName>, seen: &Vec<String>, names: Ghost<Seq<Seq<char>>>) -> (r:
    Result<(), ConfigValidationError>)
    requires
        seen@.len() == names@.len(),
        forall|k: int| 0 <= k < seen@.len() ==> seen@[k]@ == names@[k],
    ensures
        match r {
            Ok(()) => forall|k: int|
                0 <= k < name_refs(group@).len() ==> names@.contains(name_refs(group@)[k]),
            Err(ConfigValidationError::MissingCustomModule { name }) => exists|k: int|
                first_missing(name_refs(group@), names@, k) && name@ == name_refs(group@)[k],
            Err(_) => false,
        },
{
    let mut i: usize = 0;
    while i < group.len()
        invariant
            i <= group@.len(),
            seen@.len() == names@.len(),
            forall|k: int| 0 <= k < seen@.len() ==> seen@[k]@ == names@[k],
            forall|k: int|
                0 <= k < name_refs(group@.take(i as int)).len() ==> names@.contains(
                    name_refs(group@.take(i as int))[k],
                ),
        decreases group.len() - i,
    {
        proof {
            assert(group@.take(i + 1).drop_last() =~= group@.take(i as int));
            lemma_name_refs_prefix(group@, i + 1);
        }
        let ghost pre = name_refs(group@.take(i as int));
        match &group[i] {
            ModuleName::Custom(name) => {
                let present = holds_name(seen, name);
                proof {
                    if present {
                        let k = choose|k: int| 0 <= k < seen@.len() && seen@[k]@ == name@;
                        assert(names@[k] == name@);
                    } else {
                        assert forall|k: int| 0 <= k < names@.len() implies names@[k] != name@ by {
                            assert(seen@[k]@ == names@[k]);
                        }
                    }
                }
                assert(name_refs(group@.take(i + 1)) == pre.push(name@));
                if !present {
                    let ghost k = pre.len() as int;
                    assert(name_refs(group@)[k] == name@);
                    assert forall|j: int| 0 <= j < k implies names@.contains(name_refs(group@)[j]) by {
                        assert(name_refs(group@)[j] == pre[j]);
                    }
                    assert(first_missing(name_refs(group@), names@, k));
                    return Err(ConfigValidationError::MissingCustomModule { name: name.clone() });
                }
                let ghost nx = name_refs(group@.take(i + 1));
                assert forall|k: int| 0 <= k < nx.len() implies names@.contains(nx[k]) by {
                    if k < pre.len() {
                        assert(nx[k] == pre[k]);
                    }
                }
            },
            _ => {
                assert(name_refs(group@.take(i + 1)) == pre);
            },
        }
        i = i + 1;
    }
    assert(group@.take(group@.len() as int) =~= group@);
    Ok(())
}

/// Checks one custom module reference against `names`.
fn check_name(name: &String, seen: &Vec<String>, names: Ghost<Seq<Seq<char>>>) -> (r: Result<
    (),
    ConfigValidationError,
>)
    requires
        seen@.len() == names@.len(),
        forall|k: int| 0 <= k < seen@.len() ==> seen@[k]@ == names@[k],
    ensures
        match r {
            Ok(()) => names@.contains(name@),
            Err(ConfigValidationError::MissingCustomModule { name: n }) => !names@.contains(name@)
                && n@ == name@,
            Err(_) => false,
        },
{
    let present = holds_name(seen, name);
    proof {
        if present {
            let k = choose|k: int| 0 <= k < seen@.len() && seen@[k]@ == name@;
            assert(names@[k] == name@);
        } else {
            assert forall|k: int| 0 <= k < names@.len() implies names@[k] != name@ by {
                assert(seen@[k]@ == names@[k]);
            }
        }
    }
    if present {
        Ok(())
    } else {
        Err(ConfigValidationError::MissingCustomModule { name: name.clone() })
    }
}

/// Checks the custom references of a list of layout entries against `names`.
fn check_defs(defs: &Vec<ModuleDef>, seen: &Vec<String>, names: Ghost<Seq<Seq<char>>>) -> (r:
    Result<(), ConfigValidationError>)
    requires
        seen@.len() == names@.len(),
        forall|k: int| 0 <= k < seen@.len() ==> seen@[k]@ == names@[k],
    ensures
        match r {
            Ok(()) => forall|k: int|
                0 <= k < defs_refs(defs@).len() ==> names@.contains(defs_refs(defs@)[k]),
            Err(ConfigValidationError::MissingCustomModule { name }) => exists|k: int|
                first_missing(defs_refs(defs@), names@, k) && name@ == defs_refs(defs@)[k],
            Err(_) => false,
        },
{
    let mut i: usize = 0;
    while i < defs.len()
        invariant
            i <= defs@.len(),
            seen@.len() == names@.len(),
            forall|k: int| 0 <= k < seen@.len() ==> seen@[k]@ == names@[k],
            forall|k: int|
                0 <= k < defs_refs(defs@.take(i as int)).len() ==> names@.contains(
                    defs_refs(defs@.take(i as int))[k],
                ),
        decreases defs.len() - i,
    {
        let ghost pre = defs_refs(defs@.take(i as int));
        let ghost here = def_refs(defs@[i as int]);
        proof {
            assert(defs@.take(i + 1).drop_last() =~= defs@.take(i as int));
            lemma_defs_refs_prefix(defs@, i + 1);
            assert(defs_refs(defs@.take(i + 1)) == pre + here);
        }
        let checked = match &defs[i] {
            ModuleDef::Single(m) => {
                proof {
                    assert(seq![*m].drop_last() =~= Seq::<ModuleName>::empty());
                    assert(name_refs(Seq::<ModuleName>::empty()) == Seq::<Seq<char>>::empty());
                    assert(seq![*m].last() == *m);
                    assert(here == name_refs(seq![*m]));
                }
                match m {
                    ModuleName::Custom(name) => {
                        let c = check_name(name, seen, names);
                        proof {
                            assert(here =~= seq![name@]);
                        }
                        match c {
                            Ok(()) => Ok(()),
                            Err(e) => {
                                assert(first_missing(here, names@, 0));
                                Err(e)
                            },
                        }
                    },
                    _ => {
                        assert(here.len() == 0);
                        Ok(())
                    },
                }
            },
            ModuleDef::Group(g) => check_names(g, seen, names),
        };
        match checked {
            Ok(()) => {
                let ghost nx = defs_refs(defs@.take(i + 1));
                assert forall|k: int| 0 <= k < nx.len() implies names@.contains(nx[k]) by {
                    if k >= pre.len() {
                        assert(nx[k] == here[k - pre.len()]);
                    } else {
                        assert(nx[k] == pre[k]);
                    }
                }
            },
            Err(e) => {
                proof {
                    let k = choose|k: int|
                        first_missing(here, names@, k) && (e->MissingCustomModule_name)@ == here[k];
                    let all = defs_refs(defs@);
                    let idx = pre.len() + k;
                    assert(all[idx] == here[k]);
                    assert forall|j: int| 0 <= j < idx implies names@.contains(all[j]) by {
                        if j < pre.len() {
                            assert(all[j] == pre[j]);
                        } else {
                            assert(all[j] == here[j - pre.len()]);
                        }
                    }
                    assert(first_missing(all, names@, idx));
                }
                return Err(e);
            },
        }
        i = i + 1;
    }
    assert(defs@.take(defs@.len() as int) =~= defs@);
    Ok(())
}

impl Config {
    /// Validates the custom modules: their names must be distinct, and every
    /// custom module that the layout names must be defined. The first
    /// repeated definition is reported first; otherwise the first undefined
    /// reference in layout order (left, center, right).
    pub fn validate(&self) -> (r: Result<(), ConfigValidationError>)
        ensures
            r is Ok ==> forall|n: Seq<char>|
                layout_names_custom(self.modules, n) ==> #[trigger] custom_names(
                    self.custom_modules@,
                ).contains(n),
            r matches Err(ConfigValidationError::MissingCustomModule { name }) ==> {
                &&& layout_names_custom(self.modules, name@)
                &&& !custom_names(self.custom_modules@).contains(name@)
            },
            r is Ok <==> custom_modules_valid(*self),
            ({
                let names = custom_names(self.custom_modules@);
                let refs = layout_refs(self.modules);
                match r {
                    Ok(()) => all_distinct(names) && forall|k: int|
                        0 <= k < refs.len() ==> names.contains(refs[k]),
                    Err(ConfigValidationError::DuplicateCustomModule { name }) => exists|k: int|
                        first_repeat(names, k) && name@ == names[k],
                    Err(ConfigValidationError::MissingCustomModule { name }) => all_distinct(names)
                        && exists|k: int| first_missing(refs, names, k) && name@ == refs[k],
                }
            }),
    {
        let r = self.check_custom_modules();
        let ghost result = r;
        proof {
            let names = custom_names(self.custom_modules@);
            let refs = layout_refs(self.modules);
            match result {
                Ok(()) => {
                    assert forall|n: Seq<char>|
                        layout_names_custom(self.modules, n) implies #[trigger] names.contains(n) by {
                        lemma_valid_layout_defines_named_customs(*self, n);
                    }
                },
                Err(ConfigValidationError::DuplicateCustomModule { name }) => {
                    let k = choose|k: int| first_repeat(names, k) && name@ == names[k];
                    let j = choose|j: int| 0 <= j < names.take(k).len() && names.take(k)[j] == names[k];
                    assert(names[j] == names[k]);
                },
                Err(ConfigValidationError::MissingCustomModule { name }) => {
                    let k = choose|k: int| first_missing(refs, names, k) && name@ == refs[k];
                    assert(refs.contains(refs[k]));
                    lemma_layout_refs_are_named_customs(self.modules, name@);
                },
            }
        }
        r
    }

    /// The checks of [`Config::validate`], in order: first the definitions,
    /// then the layout, region by region.
    fn check_custom_modules(&self) -> (r: Result<(), ConfigValidationError>)
        ensures
            ({
                let names = custom_names(self.custom_modules@);
                let refs = layout_refs(self.modules);
                match r {
                    Ok(()) => all_distinct(names) && forall|k: int|
                        0 <= k < refs.len() ==> names.contains(refs[k]),
                    Err(ConfigValidationError::DuplicateCustomModule { name }) => exists|k: int|
                        first_repeat(names, k) && name@ == names[k],
                    Err(ConfigValidationError::MissingCustomModule { name }) => all_distinct(names)
                        && exists|k: int| first_missing(refs, names, k) && name@ == refs[k],
                }
            }),
    {
        let ghost names = custom_names(self.custom_modules@);
        let mut seen: Vec<String> = Vec::new();
        let mut i: usize = 0;
        while i < self.custom_modules.len()
            invariant
                i <= self.custom_modules@.len(),
                names == custom_names(self.custom_modules@),
                names.len() == self.custom_modules@.len(),
                seen@.len() == i,
                forall|k: int| 0 <= k < i ==> seen@[k]@ == names[k],
                all_distinct(names.take(i as int)),
            decreases self.custom_modules.len() - i,
        {
            let name = &self.custom_modules[i].name;
            assert(names[i as int] == name@);
            if holds_name(&seen, name) {
                proof {
                    let k = choose|k: int| 0 <= k < seen@.len() && seen@[k]@ == name@;
                    assert(names.take(i as int)[k] == names[i as int]);
                    assert(first_repeat(names, i as int));
                }
                return Err(ConfigValidationError::DuplicateCustomModule { name: name.clone() });
            }
            seen.push(name.clone());
            proof {
                let nt = names.take(i + 1);
                assert forall|a: int, b: int| 0 <= a < b < nt.len() implies nt[a] != nt[b] by {
                    if b == i {
                        assert(seen@[a]@ == names[a]);
                    } else {
                        assert(names.take(i as int)[a] == names[a]);
                        assert(names.take(i as int)[b] == names[b]);
                    }
                }
            }
            i = i + 1;
        }
        assert(names.take(names.len() as int) =~= names);
        let ghost left = defs_refs(self.modules.left@);
        let ghost center = defs_refs(self.modules.center@);
        let ghost right = defs_refs(self.modules.right@);
        let ghost refs = layout_refs(self.modules);
        assert(refs == left + center + right);
        match check_defs(&self.modules.left, &seen, Ghost(names)) {
            Ok(()) => {},
            Err(e) => {
                proof {
                    let k = choose|k: int| first_missing(left, names, k) && (e->MissingCustomModule_name)@ == left[k];
                    assert(refs[k] == left[k]);
                    assert forall|j: int| 0 <= j < k implies names.contains(refs[j]) by {
                        assert(refs[j] == left[j]);
                    }
                    assert(first_missing(refs, names, k));
                }
                return Err(e);
            },
        }
        match check_defs(&self.modules.center, &seen, Ghost(names)) {
            Ok(()) => {},
            Err(e) => {
                proof {
                    let k = choose|k: int| first_missing(center, names, k) && (e->MissingCustomModule_name)@ == center[k];
                    let idx = left.len() + k;
                    assert(refs[idx] == center[k]);
                    assert forall|j: int| 0 <= j < idx implies names.contains(refs[j]) by {
                        if j < left.len() {
                            assert(refs[j] == left[j]);
                        } else {
                            assert(refs[j] == center[j - left.len()]);
                        }
                    }
                    assert(first_missing(refs, names, idx));
                }
                return Err(e);
            },
        }
        match check_defs(&self.modules.right, &seen, Ghost(names)) {
            Ok(()) => {},
            Err(e) => {
                proof {
                    let k = choose|k: int| first_missing(right, names, k) && (e->MissingCustomModule_name)@ == right[k];
                    let idx = left.len() + center.len() + k;
                    assert(refs[idx] == right[k]);
                    assert forall|j: int| 0 <= j < idx implies names.contains(refs[j]) by {
                        if j < left.len() {
                            assert(refs[j] == left[j]);
                        } else if j < left.len() + center.len() {
                            assert(refs[j] == center[j - left.len()]);
                        } else {
                            assert(refs[j] == right[j - left.len() - center.len()]);
                        }
                    }
                    assert(first_missing(refs, names, idx));
                }
                return Err(e);
            },
        }
        assert forall|k: int| 0 <= k < refs.len() implies names.contains(refs[k]) by {
            if k < left.len() {
                assert(refs[k] == left[k]);
            } else if k < left.len() + center.len() {
                assert(refs[k] == center[k - left.len()]);
            } else {
                assert(refs[k] == right[k - left.len() - center.len()]);
            }
        }
        Ok(())
    }
}

} // verus!
