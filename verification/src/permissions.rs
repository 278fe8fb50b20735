//! Which CRUD actions the server may perform, globally and per resource.
use vstd::prelude::*;

use crate::text::{
    chars_of, ends_with, has_prefix, has_suffix, lowercase, starts_with, str_eq, strip_prefix,
    to_lowercase, trim, trimmed,
};

verus! {

/// The kind of CRUD action a tool performs.
#[derive(Clone, Copy, Debug, PartialEq, Eq, Structural)]
pub enum Action {
    Read,
    Create,
    Update,
    Delete,
}

/// The lowercase word that names an action (`"read"`, `"create"`, ...).
pub open spec fn action_word(a: Action) -> Seq<char> {
    match a {
        Action::Read => "read"@,
        Action::Create => "create"@,
        Action::Update => "update"@,
        Action::Delete => "delete"@,
    }
}

impl Action {
    /// The action's name as text.
    pub fn to_string(&self) -> (r: String)
        ensures
            r@ == action_word(*self),
    {
        match self {
            Action::Read => String::from_str("read"),
            Action::Create => String::from_str("create"),
            Action::Update => String::from_str("update"),
            Action::Delete => String::from_str("delete"),
        }
    }
}

/// The abstract state of a permission set.
pub struct PermissionsView {
    pub create: bool,
    pub update: bool,
    pub delete: bool,
    /// Keys of the form `"<resource>-<action>"` that are switched off.
    pub disabled: Set<Seq<char>>,
    pub secret_decode: bool,
    pub apply_manifest: bool,
}

/// Controls which CRUD actions are allowed, globally and per-resource.
///
/// Read is always allowed and cannot be disabled.
#[derive(Clone, Debug)]
pub struct ActionPermissions {
    global_create_enabled: bool,
    global_update_enabled: bool,
    global_delete_enabled: bool,
    /// Per-resource overrides: each key (e.g. `"deployment-delete"`) is disabled.
    resource_overrides: Vec<String>,
    /// When `false`, the `decode: true` parameter in `get_secret` is ignored
    /// and secret values are never returned.
    pub secret_decode_enabled: bool,
    /// When `false`, the `apply_manifest` tool is blocked regardless of other
    /// permission settings.
    pub apply_manifest_enabled: bool,
}

/// The views of a sequence of strings.
pub open spec fn string_views(v: Seq<String>) -> Seq<Seq<char>> {
    v.map_values(|s: String| s@)
}

impl View for ActionPermissions {
    type V = PermissionsView;

    closed spec fn view(&self) -> PermissionsView {
        PermissionsView {
            create: self.global_create_enabled,
            update: self.global_update_enabled,
            delete: self.global_delete_enabled,
            disabled: string_views(self.resource_overrides@).to_set(),
            secret_decode: self.secret_decode_enabled,
            apply_manifest: self.apply_manifest_enabled,
        }
    }
}

/// The override key stored for one `disable_actions` entry.
pub open spec fn override_key(entry: Seq<char>) -> Seq<char> {
    lowercase(trimmed(entry))
}

/// The keys that a list of `disable_actions` entries switches off: every
/// entry that is not blank once trimmed, trimmed and lowercased.
pub open spec fn requested_overrides(entries: Seq<Seq<char>>) -> Set<Seq<char>> {
    Set::new(
        |k: Seq<char>|
            exists|i: int|
                #![trigger entries[i]]
                0 <= i < entries.len() && trimmed(entries[i]).len() > 0 && k == override_key(
                    entries[i],
                ),
    )
}

/// The key looked up for `action` on `resource`: `"<lowercase resource>-<action>"`.
pub open spec fn lookup_key(resource: Seq<char>, a: Action) -> Seq<char> {
    lowercase(resource) + "-"@ + action_word(a)
}

/// Whether `action` is allowed on `resource`: read always; otherwise a
/// per-resource override wins over the global flag.
pub open spec fn action_allowed(p: PermissionsView, resource: Seq<char>, a: Action) -> bool {
    match a {
        Action::Read => true,
        _ => if p.disabled.contains(lookup_key(resource, a)) {
            false
        } else {
            match a {
                Action::Create => p.create,
                Action::Update => p.update,
                _ => p.delete,
            }
        },
    }
}

/// Tool-name prefixes that mark an update.
pub open spec fn is_update_tool_name(t: Seq<char>) -> bool {
    ||| has_prefix(t, "update_"@)
    ||| has_prefix(t, "scale_"@)
    ||| has_prefix(t, "restart_"@)
    ||| has_prefix(t, "rollback_"@)
    ||| has_prefix(t, "approve_"@)
    ||| has_prefix(t, "deny_"@)
    ||| has_prefix(t, "cordon_"@)
    ||| has_prefix(t, "uncordon_"@)
    ||| has_prefix(t, "drain_"@)
}

/// The CRUD action a tool performs, judged from its name alone.
pub open spec fn tool_action(t: Seq<char>) -> Action {
    if t == "can_i"@ || t == "whoami"@ || t == "list_my_permissions"@ || t
        == "get_resource_yaml"@ {
        Action::Read
    } else if t == "apply_manifest"@ {
        Action::Create
    } else if has_suffix(t, "_logs"@) || has_suffix(t, "_metrics"@) {
        Action::Read
    } else if has_prefix(t, "list_"@) || has_prefix(t, "get_"@) {
        Action::Read
    } else if has_prefix(t, "create_"@) {
        Action::Create
    } else if is_update_tool_name(t) {
        Action::Update
    } else if has_prefix(t, "delete_"@) || has_prefix(t, "evict_"@) {
        Action::Delete
    } else {
        Action::Read
    }
}

/// `t` without `p` when `t` begins with `p`, and otherwise `rest`.
pub open spec fn strip_or(t: Seq<char>, p: Seq<char>, rest: Seq<char>) -> Seq<char> {
    if has_prefix(t, p) {
        t.skip(p.len() as int)
    } else {
        rest
    }
}

/// The resource a tool acts on: its name without the first matching action
/// prefix, tried in a fixed order; the whole name when none matches.
pub open spec fn tool_resource(t: Seq<char>) -> Seq<char> {
    strip_or(t, "list_"@, strip_or(t, "get_"@, strip_or(t, "create_"@, strip_or(t, "update_"@,
    strip_or(t, "delete_"@, strip_or(t, "scale_"@, strip_or(t, "restart_"@, strip_or(t,
    "rollback_"@, strip_or(t, "approve_"@, strip_or(t, "deny_"@, strip_or(t, "cordon_"@,
    strip_or(t, "uncordon_"@, strip_or(t, "drain_"@, strip_or(t, "evict_"@, t))))))))))))))
}

/// Whether a tool may be called: `apply_manifest` needs its own flag; every
/// tool needs its action allowed on its resource.
pub open spec fn tool_allowed(p: PermissionsView, t: Seq<char>) -> bool {
    if t == "apply_manifest"@ && !p.apply_manifest {
        false
    } else {
        action_allowed(p, tool_resource(t), tool_action(t))
    }
}

impl ActionPermissions {
    /// No override key is stored twice.
    pub closed spec fn wf(&self) -> bool {
        string_views(self.resource_overrides@).no_duplicates()
    }

    /// Whether `get_secret` may return decoded secret values.
    pub fn is_secret_decode_enabled(&self) -> (r: bool)
        ensures
            r == self@.secret_decode,
    {
        self.secret_decode_enabled
    }

    /// Whether the `apply_manifest` tool may run at all.
    pub fn is_apply_manifest_enabled(&self) -> (r: bool)
        ensures
            r == self@.apply_manifest,
    {
        self.apply_manifest_enabled
    }

    fn has_override(&self, key: &String) -> (r: bool)
        ensures
            r == self@.disabled.contains(key@),
    {
        let n = self.resource_overrides.len();
        for i in 0..n
            invariant
                n == self.resource_overrides.len(),
                forall|j: int| 0 <= j < i ==> self.resource_overrides@[j]@ != key@,
        {
            if self.resource_overrides[i] == *key {
                assert(string_views(self.resource_overrides@)[i as int] == key@);
                return true;
            }
        }
        assert(!string_views(self.resource_overrides@).contains(key@));
        false
    }

    /// Build permissions from CLI / env flags.
    ///
    /// * `disable_create` / `disable_update` / `disable_delete` — global kill-switches.
    /// * `disable_actions` — per-resource entries like `"deployment-delete"`, `"pod-create"`.
    pub fn new(
        disable_create: bool,
        disable_update: bool,
        disable_delete: bool,
        disable_actions: Vec<String>,
        secret_decode_enabled: bool,
        apply_manifest_enabled: bool,
    ) -> (p: Self)
        ensures
            p.wf(),
            p@.create == !disable_create,
            p@.update == !disable_update,
            p@.delete == !disable_delete,
            p@.disabled == requested_overrides(string_views(disable_actions@)),
            p@.secret_decode == secret_decode_enabled,
            p@.apply_manifest == apply_manifest_enabled,
    {
        let mut p = ActionPermissions {
            global_create_enabled: !disable_create,
            global_update_enabled: !disable_update,
            global_delete_enabled: !disable_delete,
            resource_overrides: Vec::new(),
            secret_decode_enabled,
            apply_manifest_enabled,
        };
        let ghost entries = string_views(disable_actions@);
        proof {
            assert(string_views(p.resource_overrides@).to_set() =~= requested_overrides(
                entries.take(0),
            ));
        }
        let n = disable_actions.len();
        for i in 0..n
            invariant
                n == disable_actions.len(),
                entries == string_views(disable_actions@),
                p.wf(),
                p@.create == !disable_create,
                p@.update == !disable_update,
                p@.delete == !disable_delete,
                p@.secret_decode == secret_decode_enabled,
                p@.apply_manifest == apply_manifest_enabled,
                p@.disabled == requested_overrides(entries.take(i as int)),
        {
            let entry = trim(disable_actions[i].as_str());
            let ghost before = entries.take(i as int);
            let ghost next = entries.take(i + 1);
            proof {
                assert(entries.take(i + 1) =~= before.push(entries[i as int]));
                assert(entries[i as int] == disable_actions@[i as int]@);
            }
            let ghost old_disabled = p@.disabled;
            if !entry.is_empty() {
                let key = to_lowercase(entry);
                if !p.has_override(&key) {
                    let ghost old_keys = string_views(p.resource_overrides@);
                    p.resource_overrides.push(key);
                    proof {
                        assert(string_views(p.resource_overrides@) =~= old_keys.push(key@));
                        assert(old_keys.push(key@).no_duplicates());
                        assert(string_views(p.resource_overrides@)[old_keys.len() as int] == key@);
                        assert forall|x: Seq<char>| old_keys.contains(x) implies string_views(
                            p.resource_overrides@,
                        ).contains(x) by {
                            let m = choose|m: int| 0 <= m < old_keys.len() && old_keys[m] == x;
                            assert(string_views(p.resource_overrides@)[m] == x);
                        }
                    }
                }
                assert(p@.disabled.contains(key@));
                proof {
                    assert(p@.disabled =~= requested_overrides(entries.take(i + 1))) by {
                        assert forall|k: Seq<char>|
                            requested_overrides(entries.take(i + 1)).contains(k) implies
                            p@.disabled.contains(k) by {
                            let j = choose|j: int|
                                #![trigger next[j]]
                                0 <= j < next.len() && trimmed(
                                    next[j],
                                ).len() > 0 && k == override_key(next[j]);
                            if j < i {
                                assert(before[j] == next[j]);
                                assert(requested_overrides(before).contains(k));
                                assert(old_disabled.contains(k));
                            } else {
                                assert(k == key@);
                            }
                        }
                        assert forall|k: Seq<char>| p@.disabled.contains(k) implies requested_overrides(
                            entries.take(i + 1),
                        ).contains(k) by {
                            if k != key@ {
                                assert(requested_overrides(before).contains(k));
                                let j = choose|j: int|
                                    #![trigger before[j]]
                                    0 <= j < before.len() && trimmed(before[j]).len() > 0 && k
                                        == override_key(before[j]);
                                assert(next[j] == before[j]);
                            } else {
                                assert(next[i as int] == entries[i as int]);
                            }
                        }
                    }
                }
            } else {
                proof {
                    assert(p@.disabled =~= requested_overrides(entries.take(i + 1))) by {
                        assert forall|k: Seq<char>|
                            requested_overrides(entries.take(i + 1)).contains(k) implies
                            p@.disabled.contains(k) by {
                            let j = choose|j: int|
                                #![trigger next[j]]
                                0 <= j < next.len() && trimmed(
                                    next[j],
                                ).len() > 0 && k == override_key(next[j]);
                            assert(j != i);
                            assert(before[j] == next[j]);
                            assert(requested_overrides(before).contains(k));
                        }
                        assert forall|k: Seq<char>| p@.disabled.contains(k) implies requested_overrides(
                            entries.take(i + 1),
                        ).contains(k) by {
                            assert(requested_overrides(before).contains(k));
                            let j = choose|j: int|
                                #![trigger before[j]]
                                0 <= j < before.len() && trimmed(before[j]).len() > 0 && k
                                    == override_key(before[j]);
                            assert(next[j] == before[j]);
                        }
                    }
                }
            }
        }
        proof {
            assert(entries.take(n as int) =~= entries);
        }
        p
    }

    /// Check whether `action` is allowed for `resource`.
    ///
    /// Read is always allowed.  For other actions the per-resource override
    /// takes precedence over the global flag.
    pub fn is_action_allowed(&self, resource: &str, action: &Action) -> (r: bool)
        ensures
            r == action_allowed(self@, resource@, *action),
    {
        match action {
            Action::Read => true,
            _ => {
                let mut key = to_lowercase(resource);
                key.append("-");
                let word = action.to_string();
                key.append(word.as_str());
                if self.has_override(&key) {
                    return false;
                }
                match action {
                    Action::Create => self.global_create_enabled,
                    Action::Update => self.global_update_enabled,
                    _ => self.global_delete_enabled,
                }
            },
        }
    }

    /// Map a tool name (e.g. `"create_deployment"`) to the CRUD action it
    /// performs.
    pub fn action_for_tool(tool_name: &str) -> (r: Action)
        ensures
            r == tool_action(tool_name@),
    {
        if str_eq(tool_name, "can_i") || str_eq(tool_name, "whoami") || str_eq(
            tool_name,
            "list_my_permissions",
        ) || str_eq(tool_name, "get_resource_yaml") {
            return Action::Read;
        }
        if str_eq(tool_name, "apply_manifest") {
            return Action::Create;
        }
        if ends_with(tool_name, "_logs") || ends_with(tool_name, "_metrics") {
            return Action::Read;
        }
        if starts_with(tool_name, "list_") || starts_with(tool_name, "get_") {
            return Action::Read;
        }
        if starts_with(tool_name, "create_") {
            return Action::Create;
        }
        if starts_with(tool_name, "update_") || starts_with(tool_name, "scale_") || starts_with(
            tool_name,
            "restart_",
        ) || starts_with(tool_name, "rollback_") || starts_with(tool_name, "approve_")
            || starts_with(tool_name, "deny_") || starts_with(tool_name, "cordon_")
            || starts_with(tool_name, "uncordon_") || starts_with(tool_name, "drain_") {
            return Action::Update;
        }
        if starts_with(tool_name, "delete_") || starts_with(tool_name, "evict_") {
            return Action::Delete;
        }
        Action::Read
    }

    /// Convenience: is a given tool allowed under current permissions?
    pub fn is_tool_allowed(&self, tool_name: &str) -> (r: bool)
        ensures
            r == tool_allowed(self@, tool_name@),
    {
        if str_eq(tool_name, "apply_manifest") && !self.apply_manifest_enabled {
            return false;
        }
        let action = Self::action_for_tool(tool_name);
        let resource = Self::resource_from_tool(tool_name);
        self.is_action_allowed(resource.as_str(), &action)
    }

    /// Best-effort resource extraction from a tool name.
    ///
    /// `"create_deployment"` → `"deployment"`, `"scale_deployment"` → `"deployment"`,
    /// `"list_pods"` → `"pods"`; a name without an action prefix is returned whole.
    pub fn resource_from_tool(tool_name: &str) -> (r: String)
        ensures
            r@ == tool_resource(tool_name@),
    {
        let rest = if let Some(r) = strip_prefix(tool_name, "list_") {
            r
        } else if let Some(r) = strip_prefix(tool_name, "get_") {
            r
        } else if let Some(r) = strip_prefix(tool_name, "create_") {
            r
        } else if let Some(r) = strip_prefix(tool_name, "update_") {
            r
        } else if let Some(r) = strip_prefix(tool_name, "delete_") {
            r
        } else if let Some(r) = strip_prefix(tool_name, "scale_") {
            r
        } else if let Some(r) = strip_prefix(tool_name, "restart_") {
            r
        } else if let Some(r) = strip_prefix(tool_name, "rollback_") {
            r
        } else if let Some(r) = strip_prefix(tool_name, "approve_") {
            r
        } else if let Some(r) = strip_prefix(tool_name, "deny_") {
            r
        } else if let Some(r) = strip_prefix(tool_name, "cordon_") {
            r
        } else if let Some(r) = strip_prefix(tool_name, "uncordon_") {
            r
        } else if let Some(r) = strip_prefix(tool_name, "drain_") {
            r
        } else if let Some(r) = strip_prefix(tool_name, "evict_") {
            r
        } else {
            tool_name
        };
        String::from_str(rest)
    }
}

impl Default for ActionPermissions {
    /// All actions enabled, no overrides, secret decode enabled, apply_manifest enabled.
    fn default() -> (p: Self)
        ensures
            p.wf(),
            p@.create,
            p@.update,
            p@.delete,
            p@.disabled == Set::<Seq<char>>::empty(),
            p@.secret_decode,
            p@.apply_manifest,
    {
        let p = ActionPermissions {
            global_create_enabled: true,
            global_update_enabled: true,
            global_delete_enabled: true,
            resource_overrides: Vec::new(),
            secret_decode_enabled: true,
            apply_manifest_enabled: true,
        };
        proof {
            assert(string_views(p.resource_overrides@).to_set() =~= Set::<Seq<char>>::empty());
        }
        p
    }
}


/// Read is always allowed, on every resource and under every configuration.
pub proof fn lemma_read_always_allowed(p: PermissionsView, resource: Seq<char>)
    ensures
        action_allowed(p, resource, Action::Read),
{
}

/// A per-resource override wins: a disabled `"<resource>-<action>"` key blocks
/// that action even where the global flag allows it.
pub proof fn lemma_override_wins(p: PermissionsView, resource: Seq<char>, a: Action)
    requires
        a != Action::Read,
        p.disabled.contains(lookup_key(resource, a)),
    ensures
        !action_allowed(p, resource, a),
{
}

/// Without an override for the key, the global flag of the action decides.
pub proof fn lemma_global_flag_decides(p: PermissionsView, resource: Seq<char>, a: Action)
    requires
        !p.disabled.contains(lookup_key(resource, a)),
    ensures
        action_allowed(p, resource, a) == match a {
            Action::Read => true,
            Action::Create => p.create,
            Action::Update => p.update,
            Action::Delete => p.delete,
        },
{
}

/// Resource names are compared case-insensitively: two names with the same
/// lowercase form get the same answer.
pub proof fn lemma_resource_case_insensitive(
    p: PermissionsView,
    r1: Seq<char>,
    r2: Seq<char>,
    a: Action,
)
    requires
        lowercase(r1) == lowercase(r2),
    ensures
        action_allowed(p, r1, a) == action_allowed(p, r2, a),
{
}

/// A tool whose action is read is allowed under every configuration.
pub proof fn lemma_read_tools_always_allowed(p: PermissionsView, t: Seq<char>)
    requires
        tool_action(t) == Action::Read,
    ensures
        tool_allowed(p, t),
{
    reveal_strlit("apply_manifest");
    reveal_strlit("can_i");
    reveal_strlit("whoami");
    reveal_strlit("list_my_permissions");
    reveal_strlit("get_resource_yaml");
    if t == "apply_manifest"@ {
        assert(t.len() != "can_i"@.len());
        assert(t.len() != "whoami"@.len());
        assert(t.len() != "list_my_permissions"@.len());
        assert(t.len() != "get_resource_yaml"@.len());
    }
}

/// With the create flag off, no create tool is allowed (`apply_manifest` included).
pub proof fn lemma_create_off_blocks_create_tools(p: PermissionsView, t: Seq<char>)
    requires
        !p.create,
        tool_action(t) == Action::Create,
    ensures
        !tool_allowed(p, t),
{
}

/// With the update flag off, no update tool is allowed.
pub proof fn lemma_update_off_blocks_update_tools(p: PermissionsView, t: Seq<char>)
    requires
        !p.update,
        tool_action(t) == Action::Update,
    ensures
        !tool_allowed(p, t),
{
}

/// With the delete flag off, no delete tool is allowed.
pub proof fn lemma_delete_off_blocks_delete_tools(p: PermissionsView, t: Seq<char>)
    requires
        !p.delete,
        tool_action(t) == Action::Delete,
    ensures
        !tool_allowed(p, t),
{
}

/// With all three global flags off, only read tools are allowed.
pub proof fn lemma_read_only_mode(p: PermissionsView, t: Seq<char>)
    requires
        !p.create,
        !p.update,
        !p.delete,
        tool_allowed(p, t),
    ensures
        tool_action(t) == Action::Read,
{
}

/// With its flag off, `apply_manifest` is blocked whatever else is allowed.
pub proof fn lemma_apply_manifest_needs_flag(p: PermissionsView)
    requires
        !p.apply_manifest,
    ensures
        !tool_allowed(p, "apply_manifest"@),
{
}

/// With every flag on and no override, every tool is allowed.
pub proof fn lemma_everything_allowed_by_default(p: PermissionsView, t: Seq<char>)
    requires
        p.create,
        p.update,
        p.delete,
        p.apply_manifest,
        p.disabled == Set::<Seq<char>>::empty(),
    ensures
        tool_allowed(p, t),
{
}

/// A `disable_actions` entry that is blank once trimmed switches nothing off.
pub proof fn lemma_blank_entry_ignored(entries: Seq<Seq<char>>, extra: Seq<char>)
    requires
        trimmed(extra).len() == 0,
    ensures
        requested_overrides(entries.push(extra)) == requested_overrides(entries),
{
    let more = entries.push(extra);
    assert forall|k: Seq<char>| requested_overrides(more).contains(k) implies requested_overrides(
        entries,
    ).contains(k) by {
        let j = choose|j: int|
            #![trigger more[j]]
            0 <= j < more.len() && trimmed(more[j]).len() > 0 && k == override_key(more[j]);
        assert(j < entries.len());
        assert(entries[j] == more[j]);
    }
    assert forall|k: Seq<char>| requested_overrides(entries).contains(k) implies requested_overrides(
        more,
    ).contains(k) by {
        let j = choose|j: int|
            #![trigger entries[j]]
            0 <= j < entries.len() && trimmed(entries[j]).len() > 0 && k == override_key(
                entries[j],
            );
        assert(more[j] == entries[j]);
    }
    assert(requested_overrides(more) =~= requested_overrides(entries));
}

/// A `disable_actions` list whose entries are all blank once trimmed (empty,
/// or white space only) switches nothing off.
pub proof fn lemma_blank_entries_switch_nothing_off(entries: Seq<Seq<char>>)
    requires
        forall|i: int| 0 <= i < entries.len() ==> #[trigger] trimmed(entries[i]).len() == 0,
    ensures
        requested_overrides(entries) == Set::<Seq<char>>::empty(),
{
    assert(requested_overrides(entries) =~= Set::<Seq<char>>::empty());
}

/// The action prefixes of tool names, in the order they are tried.
pub open spec fn action_prefixes() -> Seq<Seq<char>> {
    seq![
        "list_"@,
        "get_"@,
        "create_"@,
        "update_"@,
        "delete_"@,
        "scale_"@,
        "restart_"@,
        "rollback_"@,
        "approve_"@,
        "deny_"@,
        "cordon_"@,
        "uncordon_"@,
        "drain_"@,
        "evict_"@,
    ]
}

/// A word followed by one `_`, with no other `_` in it.
pub open spec fn is_underscored_word(p: Seq<char>) -> bool {
    &&& p.len() >= 2
    &&& p.last() == '_'
    &&& forall|i: int| 0 <= i < p.len() - 1 ==> p[i] != '_'
}

/// Of two different underscored words, neither begins a name that starts with the other.
proof fn lemma_words_exclusive(p: Seq<char>, q: Seq<char>, r: Seq<char>)
    requires
        is_underscored_word(p),
        is_underscored_word(q),
        p != q,
    ensures
        !has_prefix(q + r, p),
{
    let t = q + r;
    if has_prefix(t, p) {
        if p.len() <= q.len() {
            assert(t[p.len() - 1] == p[p.len() - 1]);
            assert(t[p.len() - 1] == q[p.len() - 1]);
            assert(p.len() == q.len());
            assert(p =~= q) by {
                assert forall|i: int| 0 <= i < p.len() implies p[i] == q[i] by {
                    assert(t.subrange(0, p.len() as int)[i] == t[i]);
                }
            }
        } else {
            assert(t.subrange(0, p.len() as int)[q.len() - 1] == t[q.len() - 1]);
            assert(p[q.len() - 1] == '_');
        }
    }
}

proof fn lemma_prefixes_underscored()
    ensures
        forall|k: int| 0 <= k < action_prefixes().len() ==> is_underscored_word(
            #[trigger] action_prefixes()[k],
        ),
        forall|j: int, k: int|
            0 <= j < k < action_prefixes().len() ==> #[trigger] action_prefixes()[j]
                != #[trigger] action_prefixes()[k],
{
    reveal_strlit("list_");
    reveal_strlit("get_");
    reveal_strlit("create_");
    reveal_strlit("update_");
    reveal_strlit("delete_");
    reveal_strlit("scale_");
    reveal_strlit("restart_");
    reveal_strlit("rollback_");
    reveal_strlit("approve_");
    reveal_strlit("deny_");
    reveal_strlit("cordon_");
    reveal_strlit("uncordon_");
    reveal_strlit("drain_");
    reveal_strlit("evict_");
    assert forall|j: int, k: int|
        0 <= j < k < action_prefixes().len() implies #[trigger] action_prefixes()[j]
            != #[trigger] action_prefixes()[k] by {
        let a = action_prefixes()[j];
        let b = action_prefixes()[k];
        if a.len() == b.len() {
            assert(a[0] != b[0] || a[1] != b[1]);
        }
    }
}

/// A tool named by an action prefix and a resource acts on that resource:
/// for every prefix `p` of the list and every `r`, the resource of `p + r`
/// is `r` (`update_deployment` acts on `deployment`).
pub proof fn lemma_tool_resource_after_prefix(k: int, r: Seq<char>)
    requires
        0 <= k < action_prefixes().len(),
    ensures
        tool_resource(action_prefixes()[k] + r) == r,
{
    lemma_prefixes_underscored();
    let p = action_prefixes()[k];
    let t = p + r;
    assert(has_prefix(t, p)) by {
        assert(t.subrange(0, p.len() as int) =~= p);
    }
    assert(t.skip(p.len() as int) =~= r);
    assert forall|j: int| 0 <= j < action_prefixes().len() && j != k implies !has_prefix(
        t,
        #[trigger] action_prefixes()[j],
    ) by {
        lemma_words_exclusive(action_prefixes()[j], p, r);
    }
    assert(!has_prefix(t, action_prefixes()[0]) || k == 0);
    assert(!has_prefix(t, action_prefixes()[1]) || k == 1);
    assert(!has_prefix(t, action_prefixes()[2]) || k == 2);
    assert(!has_prefix(t, action_prefixes()[3]) || k == 3);
    assert(!has_prefix(t, action_prefixes()[4]) || k == 4);
    assert(!has_prefix(t, action_prefixes()[5]) || k == 5);
    assert(!has_prefix(t, action_prefixes()[6]) || k == 6);
    assert(!has_prefix(t, action_prefixes()[7]) || k == 7);
    assert(!has_prefix(t, action_prefixes()[8]) || k == 8);
    assert(!has_prefix(t, action_prefixes()[9]) || k == 9);
    assert(!has_prefix(t, action_prefixes()[10]) || k == 10);
    assert(!has_prefix(t, action_prefixes()[11]) || k == 11);
    assert(!has_prefix(t, action_prefixes()[12]) || k == 12);
    assert(!has_prefix(t, action_prefixes()[13]) || k == 13);
}

/// A name that starts with the `k`-th action prefix starts with no other.
proof fn lemma_only_own_prefix(k: int, r: Seq<char>)
    requires
        0 <= k < action_prefixes().len(),
    ensures
        forall|j: int|
            0 <= j < action_prefixes().len() && j != k ==> !has_prefix(
                action_prefixes()[k] + r,
                #[trigger] action_prefixes()[j],
            ),
{
    lemma_prefixes_underscored();
    assert forall|j: int| 0 <= j < action_prefixes().len() && j != k implies !has_prefix(
        action_prefixes()[k] + r,
        #[trigger] action_prefixes()[j],
    ) by {
        lemma_words_exclusive(action_prefixes()[j], action_prefixes()[k], r);
    }
}

/// Switching off `<resource>-update` refuses `update_<resource>` (and hides it
/// from the tool list), whatever the global flags say.
pub proof fn lemma_update_override_blocks_update_tool(p: PermissionsView, r: Seq<char>)
    requires
        p.disabled.contains(lowercase(r) + "-"@ + "update"@),
        !has_suffix("update_"@ + r, "_logs"@),
        !has_suffix("update_"@ + r, "_metrics"@),
    ensures
        !tool_allowed(p, "update_"@ + r),
{
    reveal_strlit("update_");
    reveal_strlit("can_i");
    reveal_strlit("whoami");
    reveal_strlit("list_my_permissions");
    reveal_strlit("get_resource_yaml");
    reveal_strlit("apply_manifest");
    let t = "update_"@ + r;
    lemma_tool_resource_after_prefix(3, r);
    lemma_only_own_prefix(3, r);
    assert(action_prefixes()[3] == "update_"@);
    assert(!has_prefix(t, action_prefixes()[0]));
    assert(!has_prefix(t, action_prefixes()[1]));
    assert(!has_prefix(t, action_prefixes()[2]));
    assert(has_prefix(t, "update_"@)) by {
        assert(t.subrange(0, 7) =~= "update_"@);
    }
    assert(t[0] == 'u');
    assert(tool_action(t) == Action::Update);
}

/// Switching off `<resource>-create` refuses `create_<resource>`.
pub proof fn lemma_create_override_blocks_create_tool(p: PermissionsView, r: Seq<char>)
    requires
        p.disabled.contains(lowercase(r) + "-"@ + "create"@),
        !has_suffix("create_"@ + r, "_logs"@),
        !has_suffix("create_"@ + r, "_metrics"@),
    ensures
        !tool_allowed(p, "create_"@ + r),
{
    reveal_strlit("create_");
    reveal_strlit("can_i");
    reveal_strlit("whoami");
    reveal_strlit("list_my_permissions");
    reveal_strlit("get_resource_yaml");
    reveal_strlit("apply_manifest");
    let t = "create_"@ + r;
    lemma_tool_resource_after_prefix(2, r);
    lemma_only_own_prefix(2, r);
    assert(action_prefixes()[2] == "create_"@);
    assert(!has_prefix(t, action_prefixes()[0]));
    assert(!has_prefix(t, action_prefixes()[1]));
    assert(has_prefix(t, "create_"@)) by {
        assert(t.subrange(0, 7) =~= "create_"@);
    }
    assert(t[0] == 'c' && t[1] == 'r');
    assert(tool_action(t) == Action::Create);
}

/// Switching off `<resource>-delete` refuses `delete_<resource>`.
pub proof fn lemma_delete_override_blocks_delete_tool(p: PermissionsView, r: Seq<char>)
    requires
        p.disabled.contains(lowercase(r) + "-"@ + "delete"@),
        !has_suffix("delete_"@ + r, "_logs"@),
        !has_suffix("delete_"@ + r, "_metrics"@),
    ensures
        !tool_allowed(p, "delete_"@ + r),
{
    reveal_strlit("delete_");
    reveal_strlit("can_i");
    reveal_strlit("whoami");
    reveal_strlit("list_my_permissions");
    reveal_strlit("get_resource_yaml");
    reveal_strlit("apply_manifest");
    let t = "delete_"@ + r;
    lemma_tool_resource_after_prefix(4, r);
    lemma_only_own_prefix(4, r);
    assert(action_prefixes()[4] == "delete_"@);
    assert(has_prefix(t, "delete_"@)) by {
        assert(t.subrange(0, 7) =~= "delete_"@);
    }
    assert(t[0] == 'd');
    assert(!is_update_tool_name(t)) by {
        assert(!has_prefix(t, action_prefixes()[3]));
        assert(!has_prefix(t, action_prefixes()[5]));
        assert(!has_prefix(t, action_prefixes()[6]));
        assert(!has_prefix(t, action_prefixes()[7]));
        assert(!has_prefix(t, action_prefixes()[8]));
        assert(!has_prefix(t, action_prefixes()[9]));
        assert(!has_prefix(t, action_prefixes()[10]));
        assert(!has_prefix(t, action_prefixes()[11]));
        assert(!has_prefix(t, action_prefixes()[12]));
    }
    assert(!has_prefix(t, action_prefixes()[0]));
    assert(!has_prefix(t, action_prefixes()[1]));
    assert(!has_prefix(t, action_prefixes()[2]));
    assert(tool_action(t) == Action::Delete);
}

} // verus!
