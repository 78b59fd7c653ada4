//! Tool permissions: which callers may use which tools.

use vstd::prelude::*;
use crate::str_map::{StrMap, key_pos, lookup};
use crate::text::{owned, str_eq};

verus! {

/// Tool permission definition.
#[derive(Debug)]
pub struct ToolPermission {
    /// Tool name.
    pub tool_name: String,
    /// Allowed callers.
    pub allowed_callers: Vec<String>,
    /// Maximum invocations per minute.
    pub max_invocations_per_minute: u32,
}

/// What a permission says: tool, callers and rate limit.
pub struct ToolPermissionView {
    pub tool_name: Seq<char>,
    pub allowed_callers: Seq<Seq<char>>,
    pub max_invocations_per_minute: u32,
}

impl View for ToolPermission {
    type V = ToolPermissionView;

    open spec fn view(&self) -> ToolPermissionView {
        ToolPermissionView {
            tool_name: self.tool_name@,
            allowed_callers: self.allowed_callers@.map_values(|c: String| c@),
            max_invocations_per_minute: self.max_invocations_per_minute,
        }
    }
}

/// The callers named by a permission.
pub open spec fn callers_of(p: ToolPermissionView) -> Seq<Seq<char>> {
    p.allowed_callers
}

/// The views of a list of permissions.
pub open spec fn perm_views(v: Seq<ToolPermission>) -> Seq<ToolPermissionView> {
    v.map_values(|p: ToolPermission| p@)
}

impl Clone for ToolPermission {
    fn clone(&self) -> (r: Self)
        ensures
            r@ == self@,
    {
        let callers = self.allowed_callers.clone();
        assert(callers@.map_values(|c: String| c@) =~= self.allowed_callers@.map_values(
            |c: String| c@,
        ));
        ToolPermission {
            tool_name: self.tool_name.clone(),
            allowed_callers: callers,
            max_invocations_per_minute: self.max_invocations_per_minute,
        }
    }
}

/// Permission lists by tool name after granting `p`: appended to the list
/// for its tool, which is created if the tool had none.
pub open spec fn granted(
    kv: Seq<(Seq<char>, Seq<ToolPermissionView>)>,
    p: ToolPermissionView,
) -> Seq<(Seq<char>, Seq<ToolPermissionView>)> {
    match key_pos(kv, p.tool_name) {
        Some(i) => kv.update(i, (kv[i].0, kv[i].1.push(p))),
        None => kv.push((p.tool_name, seq![p])),
    }
}

/// The permissions kept when `caller` is revoked: those that do not name it.
pub open spec fn without_caller(perms: Seq<ToolPermissionView>, caller: Seq<char>) -> Seq<
    ToolPermissionView,
> {
    perms.filter(|p: ToolPermissionView| !callers_of(p).contains(caller))
}

/// After a caller is revoked, no permission kept for the tool names it.
pub proof fn lemma_revoked_caller_absent(perms: Seq<ToolPermissionView>, caller: Seq<char>)
    ensures
        forall|i: int|
            0 <= i < without_caller(perms, caller).len() ==> !callers_of(
                #[trigger] without_caller(perms, caller)[i],
            ).contains(caller),
{
    assert forall|i: int| 0 <= i < without_caller(perms, caller).len() implies !callers_of(
        #[trigger] without_caller(perms, caller)[i],
    ).contains(caller) by {
        perms.lemma_filter_pred(|p: ToolPermissionView| !callers_of(p).contains(caller), i);
    }
}

/// Tool permission store.
pub struct ToolPermissionStore {
    /// Permissions by tool name.
    pub permissions: StrMap<Vec<ToolPermission>>,
}

/// The permission lists of a store, by tool name.
pub open spec fn perm_lists(s: ToolPermissionStore) -> Seq<(Seq<char>, Seq<ToolPermissionView>)> {
    lists_of(s.permissions@)
}

/// Keys with the views of their permission lists.
pub open spec fn lists_of(kv: Seq<(Seq<char>, Vec<ToolPermission>)>) -> Seq<
    (Seq<char>, Seq<ToolPermissionView>),
> {
    kv.map_values(|e: (Seq<char>, Vec<ToolPermission>)| (e.0, perm_views(e.1@)))
}

fn clone_perms(v: &Vec<ToolPermission>) -> (r: Vec<ToolPermission>)
    ensures
        perm_views(r@) == perm_views(v@),
{
    let mut r: Vec<ToolPermission> = Vec::new();
    let mut i: usize = 0;
    while i < v.len()
        invariant
            i <= v.len(),
            perm_views(r@) == perm_views(v@.take(i as int)),
        decreases v.len() - i,
    {
        let ghost before = perm_views(r@);
        r.push(v[i].clone());
        assert(perm_views(r@) =~= before.push(v@[i as int]@));
        assert(perm_views(v@.take(i + 1)) =~= perm_views(v@.take(i as int)).push(v@[i as int]@));
        i += 1;
    }
    assert(v@.take(v@.len() as int) =~= v@);
    r
}

fn caller_listed(p: &ToolPermission, caller: &str) -> (b: bool)
    ensures
        b == callers_of(p@).contains(caller@),
{
    let mut i: usize = 0;
    while i < p.allowed_callers.len()
        invariant
            i <= p.allowed_callers@.len(),
            forall|j: int| 0 <= j < i ==> p.allowed_callers@[j]@ != caller@,
        decreases p.allowed_callers@.len() - i,
    {
        if str_eq(p.allowed_callers[i].as_str(), caller) {
            assert(callers_of(p@)[i as int] == caller@);
            return true;
        }
        i += 1;
    }
    proof {
        if callers_of(p@).contains(caller@) {
            let k = choose|k: int| 0 <= k < callers_of(p@).len() && callers_of(p@)[k] == caller@;
            assert(p.allowed_callers@[k]@ == caller@);
        }
    }
    false
}

impl ToolPermissionStore {
    /// An empty store.
    pub fn new() -> (s: Self)
        ensures
            perm_lists(s).len() == 0,
    {
        let s = ToolPermissionStore { permissions: StrMap::new() };
        assert(perm_lists(s) =~= Seq::<(Seq<char>, Seq<ToolPermissionView>)>::empty());
        s
    }

    /// Grant a permission: it is added to the list for its tool.
    pub fn grant(&mut self, p: ToolPermission)
        ensures
            perm_lists(*final(self)) == granted(perm_lists(*old(self)), p@),
    {
        let ghost before = perm_lists(*self);
        let ghost pv = p@;
        match self.permissions.position(p.tool_name.as_str()) {
            Some(i) => {
                proof {
                    lemma_key_pos_lists(self.permissions@, p.tool_name@);
                }
                let ghost kv0 = self.permissions@;
                let mut list = clone_perms(self.permissions.value_at(i));
                let ghost l0 = perm_views(list@);
                list.push(p);
                assert(perm_views(list@) =~= l0.push(pv));
                self.permissions.replace_value(i, list);
                assert(before[i as int] == (kv0[i as int].0, perm_views(kv0[i as int].1@)));
                assert(perm_lists(*self) =~= granted(before, pv));
            },
            None => {
                proof {
                    lemma_key_pos_lists(self.permissions@, p.tool_name@);
                }
                let key = p.tool_name.clone();
                let mut list: Vec<ToolPermission> = Vec::new();
                list.push(p);
                let ghost lv = perm_views(list@);
                self.permissions.insert(key, list);
                assert(lv =~= seq![pv]);
                assert(perm_lists(*self) =~= granted(before, pv));
            },
        }
    }

    /// Revoke a permission for a caller: the tool keeps only the
    /// permissions that do not name the caller.
    pub fn revoke(&mut self, tool_name: &str, caller: &str)
        ensures
            perm_lists(*final(self)) == match key_pos(perm_lists(*old(self)), tool_name@) {
                Some(i) => perm_lists(*old(self)).update(
                    i,
                    (perm_lists(*old(self))[i].0, without_caller(perm_lists(*old(self))[i].1, caller@)),
                ),
                None => perm_lists(*old(self)),
            },
    {
        let ghost before = perm_lists(*self);
        proof {
            lemma_key_pos_lists(self.permissions@, tool_name@);
        }
        match self.permissions.position(tool_name) {
            Some(i) => {
                let perms = self.permissions.value_at(i);
                let mut kept: Vec<ToolPermission> = Vec::new();
                let mut k: usize = 0;
                while k < perms.len()
                    invariant
                        k <= perms@.len(),
                        perm_views(kept@) == without_caller(perm_views(perms@.take(k as int)), caller@),
                    decreases perms@.len() - k,
                {
                    let ghost before_kept = perm_views(kept@);
                    proof {
                        assert(perm_views(perms@.take(k + 1)).drop_last() =~= perm_views(perms@.take(k as int)));
                        assert(perm_views(perms@.take(k + 1)).last() == perms@[k as int]@);
                        reveal_with_fuel(Seq::filter, 1);
                    }
                    if !caller_listed(&perms[k], caller) {
                        kept.push(perms[k].clone());
                        assert(perm_views(kept@) =~= before_kept.push(perms@[k as int]@));
                    }
                    k += 1;
                }
                assert(perms@.take(perms@.len() as int) =~= perms@);
                self.permissions.replace_value(i, kept);
                assert(perm_lists(*self) =~= before.update(
                    i as int,
                    (before[i as int].0, without_caller(before[i as int].1, caller@)),
                ));
            },
            None => {},
        }
    }
}

/// Looking a key up in the store and in its lists gives the same position.
pub proof fn lemma_key_pos_lists(a: Seq<(Seq<char>, Vec<ToolPermission>)>, k: Seq<char>)
    ensures
        key_pos(a, k) == key_pos(lists_of(a), k),
    decreases a.len(),
{
    let b = lists_of(a);
    if a.len() > 0 {
        assert(b.drop_first() =~= lists_of(a.drop_first()));
        lemma_key_pos_lists(a.drop_first(), k);
    }
}

/// Check if a caller is authorized for a tool. No permission store is
/// consulted yet: every caller is authorized for every tool.
pub fn is_authorized(tool: &str, caller: &str) -> (r: bool)
    ensures
        r,
{
    true
}

/// Exercise the permission contracts: grant "caller1" the tool "test-tool",
/// count the permissions granted for it, revoke the caller and ask whether
/// it is authorized. Returns `(1, true)`.
pub fn reference_tool_permissions_contracts() -> (r: (usize, bool))
    ensures
        r == (1usize, true),
{
    let mut store = ToolPermissionStore::new();
    let mut callers: Vec<String> = Vec::new();
    callers.push(owned("caller1"));
    let permission = ToolPermission {
        tool_name: owned("test-tool"),
        allowed_callers: callers,
        max_invocations_per_minute: 100,
    };
    store.grant(permission);
    proof {
        reveal_with_fuel(key_pos, 1);
        lemma_key_pos_lists(store.permissions@, "test-tool"@);
    }
    let ghost kv = store.permissions@;
    assert(perm_lists(store).len() == 1);
    assert(kv.len() == 1);
    assert(lists_of(kv)[0] == kv.map_values(|e: (Seq<char>, Vec<ToolPermission>)| (e.0, perm_views(e.1@)))[0]);
    assert(perm_views(kv[0].1@).len() == 1);
    let granted_count = match store.permissions.get("test-tool") {
        Some(p) => p.len(),
        None => 0,
    };
    assert(granted_count == 1);
    store.revoke("test-tool", "caller1");
    let authorized = is_authorized("test-tool", "caller1");
    (granted_count, authorized)
}

} // verus!
