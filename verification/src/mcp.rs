//! The MCP request layer: JSON-RPC methods, the permission gate in front of
//! every tool, how a tool's outcome is answered, resource URIs and prompts.
use vstd::prelude::*;

use crate::model::{opt_view, texts};
use crate::permissions::{tool_action, tool_allowed, Action, ActionPermissions, PermissionsView};
use crate::text::{chars_of, has_prefix, push_char, str_eq, strip_prefix};

verus! {

/// The error object of a JSON-RPC response.
#[derive(Clone, Debug)]
pub struct JsonRpcError {
    pub code: i32,
    pub message: String,
}

/// The JSON-RPC code for an unknown method.
pub const METHOD_NOT_FOUND: i32 = -32601;

/// The JSON-RPC code this server uses for failed requests.
pub const SERVER_ERROR: i32 = -32000;

/// The message for an unknown JSON-RPC method.
pub open spec fn method_not_found_text(method: Seq<char>) -> Seq<char> {
    "Method not found: "@ + method
}

/// The error answered to a request for an unknown method.
pub fn method_not_found(method: &str) -> (r: JsonRpcError)
    ensures
        r.code == METHOD_NOT_FOUND,
        r.message@ == method_not_found_text(method@),
{
    let mut message = String::from_str("Method not found: ");
    message.append(method);
    proof {
        reveal_strlit("Method not found: ");
    }
    JsonRpcError { code: METHOD_NOT_FOUND, message }
}

/// The JSON-RPC methods the server answers.
#[derive(Clone, Copy, Debug, PartialEq, Eq, Structural)]
pub enum RpcMethod {
    Initialize,
    Initialized,
    Ping,
    ToolsList,
    ToolsCall,
    ResourcesList,
    ResourcesRead,
    PromptsList,
    PromptsGet,
    Unknown,
}

/// The method a JSON-RPC method name selects.
pub open spec fn method_of(name: Seq<char>) -> RpcMethod {
    if name == "initialize"@ {
        RpcMethod::Initialize
    } else if name == "notifications/initialized"@ {
        RpcMethod::Initialized
    } else if name == "ping"@ {
        RpcMethod::Ping
    } else if name == "tools/list"@ {
        RpcMethod::ToolsList
    } else if name == "tools/call"@ {
        RpcMethod::ToolsCall
    } else if name == "resources/list"@ {
        RpcMethod::ResourcesList
    } else if name == "resources/read"@ {
        RpcMethod::ResourcesRead
    } else if name == "prompts/list"@ {
        RpcMethod::PromptsList
    } else if name == "prompts/get"@ {
        RpcMethod::PromptsGet
    } else {
        RpcMethod::Unknown
    }
}

/// Routes a JSON-RPC method name.
pub fn rpc_method(name: &str) -> (r: RpcMethod)
    ensures
        r == method_of(name@),
{
    if str_eq(name, "initialize") {
        RpcMethod::Initialize
    } else if str_eq(name, "notifications/initialized") {
        RpcMethod::Initialized
    } else if str_eq(name, "ping") {
        RpcMethod::Ping
    } else if str_eq(name, "tools/list") {
        RpcMethod::ToolsList
    } else if str_eq(name, "tools/call") {
        RpcMethod::ToolsCall
    } else if str_eq(name, "resources/list") {
        RpcMethod::ResourcesList
    } else if str_eq(name, "resources/read") {
        RpcMethod::ResourcesRead
    } else if str_eq(name, "prompts/list") {
        RpcMethod::PromptsList
    } else if str_eq(name, "prompts/get") {
        RpcMethod::PromptsGet
    } else {
        RpcMethod::Unknown
    }
}

/// The word for an action.
pub open spec fn action_text(a: Action) -> Seq<char> {
    match a {
        Action::Read => "read"@,
        Action::Create => "create"@,
        Action::Update => "update"@,
        Action::Delete => "delete"@,
    }
}

/// The refusal of a tool whose action is not allowed.
pub open spec fn denial_text(name: Seq<char>) -> Seq<char> {
    "action '"@ + action_text(tool_action(name)) + "' is not allowed on this tool: "@ + name
}

/// The permission gate in front of every tool: `None` lets the call through,
/// `Some` holds the refusal, which names the tool's action and the tool.
pub fn tool_gate(perms: &ActionPermissions, name: &str) -> (r: Option<String>)
    ensures
        r is None <==> tool_allowed(perms@, name@),
        r matches Some(m) ==> m@ == denial_text(name@),
{
    if perms.is_tool_allowed(name) {
        return None;
    }
    let action = ActionPermissions::action_for_tool(name);
    let word = action.to_string();
    let mut m = String::from_str("action '");
    m.append(word.as_str());
    m.append("' is not allowed on this tool: ");
    m.append(name);
    proof {
        reveal_strlit("action '");
        reveal_strlit("' is not allowed on this tool: ");
        reveal_strlit("read");
        reveal_strlit("create");
        reveal_strlit("update");
        reveal_strlit("delete");
        assert(m@ =~= denial_text(name@));
    }
    Some(m)
}

/// The tools that act on the set of clusters rather than on one cluster.
pub open spec fn is_cluster_tool_name(name: Seq<char>) -> bool {
    name == "list_clusters"@ || name == "switch_cluster"@ || name == "get_active_cluster"@
}

/// Whether a tool acts on the set of clusters (answered without an active client).
pub fn is_cluster_tool(name: &str) -> (r: bool)
    ensures
        r == is_cluster_tool_name(name@),
{
    str_eq(name, "list_clusters") || str_eq(name, "switch_cluster") || str_eq(
        name,
        "get_active_cluster",
    )
}

/// The message for a tool that no module answers.
pub open spec fn unknown_tool_text(name: Seq<char>) -> Seq<char> {
    "Unknown tool: "@ + name
}

/// How a tool call is answered: its text on success, its error under the
/// server error code, and an unknown-tool error when no module took the call.
pub fn tool_call_outcome(name: &str, result: Option<Result<String, String>>) -> (r: Result<
    String,
    JsonRpcError,
>)
    ensures
        match result {
            Some(Ok(t)) => r matches Ok(u) && u@ == t@,
            Some(Err(e)) => r matches Err(j) && j.code == SERVER_ERROR && j.message@ == e@,
            None => r matches Err(j) && j.code == SERVER_ERROR && j.message@ == unknown_tool_text(
                name@,
            ),
        },
{
    match result {
        Some(Ok(t)) => Ok(t),
        Some(Err(e)) => Err(JsonRpcError { code: SERVER_ERROR, message: e }),
        None => {
            let mut message = String::from_str("Unknown tool: ");
            message.append(name);
            proof {
                reveal_strlit("Unknown tool: ");
            }
            Err(JsonRpcError { code: SERVER_ERROR, message })
        },
    }
}

/// The object a `k8s://` resource URI names.
#[derive(Clone, Debug)]
pub struct ResourceRef {
    /// `None` for cluster-scoped objects (`k8s://cluster/...`).
    pub namespace: Option<String>,
    pub api_version: String,
    pub kind: String,
    pub name: String,
}

/// The API version and kind of a resource type in a URI, if it is supported.
pub open spec fn kind_of_type(t: Seq<char>) -> Option<(Seq<char>, Seq<char>)> {
    if t == "pods"@ {
        Some(("v1"@, "Pod"@))
    } else if t == "deployments"@ {
        Some(("apps/v1"@, "Deployment"@))
    } else if t == "services"@ {
        Some(("v1"@, "Service"@))
    } else if t == "configmaps"@ {
        Some(("v1"@, "ConfigMap"@))
    } else if t == "secrets"@ {
        Some(("v1"@, "Secret"@))
    } else if t == "nodes"@ {
        Some(("v1"@, "Node"@))
    } else if t == "namespaces"@ {
        Some(("v1"@, "Namespace"@))
    } else if t == "statefulsets"@ {
        Some(("apps/v1"@, "StatefulSet"@))
    } else if t == "daemonsets"@ {
        Some(("apps/v1"@, "DaemonSet"@))
    } else if t == "jobs"@ {
        Some(("batch/v1"@, "Job"@))
    } else if t == "cronjobs"@ {
        Some(("batch/v1"@, "CronJob"@))
    } else if t == "ingresses"@ {
        Some(("networking.k8s.io/v1"@, "Ingress"@))
    } else {
        None
    }
}

/// ASCII letters of `s` made lowercase; other characters kept.
pub open spec fn ascii_lower(s: Seq<char>) -> Seq<char> {
    Seq::new(
        s.len(),
        |i: int|
            if 65 <= (s[i] as u32) <= 90 {
                ((s[i] as u32) + 32) as char
            } else {
                s[i]
            },
    )
}

/// The plural resource name of a Kubernetes kind: the kind in lowercase,
/// with `es` after a final `s` and `s` otherwise (`Ingress` → `ingresses`).
pub open spec fn resource_plural(kind: Seq<char>) -> Seq<char> {
    let l = ascii_lower(kind);
    if l.len() > 0 && l.last() == 's' {
        l + "es"@
    } else {
        l + "s"@
    }
}

/// The kinds that resource URIs can name.
pub open spec fn uri_kinds() -> Seq<Seq<char>> {
    seq!["Pod"@, "Deployment"@, "Service"@, "ConfigMap"@, "Secret"@, "Node"@, "Namespace"@, "StatefulSet"@, "DaemonSet"@, "Job"@, "CronJob"@, "Ingress"@]
}

/// The API version each of those kinds is served under: the `apps` group for
/// workload controllers, `batch` for jobs, `networking.k8s.io` for ingresses,
/// the core group otherwise.
pub open spec fn kind_api_version(kind: Seq<char>) -> Seq<char> {
    if kind == "Deployment"@ || kind == "StatefulSet"@ || kind == "DaemonSet"@ {
        "apps/v1"@
    } else if kind == "Job"@ || kind == "CronJob"@ {
        "batch/v1"@
    } else if kind == "Ingress"@ {
        "networking.k8s.io/v1"@
    } else {
        "v1"@
    }
}

proof fn lemma_plurals()
    ensures
        forall|i: int| 0 <= i < uri_kinds().len() ==> kind_of_type(resource_plural(#[trigger] uri_kinds()[i]))
            == Some((kind_api_version(uri_kinds()[i]), uri_kinds()[i])),
        resource_plural("Pod"@) == "pods"@,
        resource_plural("Deployment"@) == "deployments"@,
        resource_plural("Service"@) == "services"@,
        resource_plural("ConfigMap"@) == "configmaps"@,
        resource_plural("Secret"@) == "secrets"@,
        resource_plural("Node"@) == "nodes"@,
        resource_plural("Namespace"@) == "namespaces"@,
        resource_plural("StatefulSet"@) == "statefulsets"@,
        resource_plural("DaemonSet"@) == "daemonsets"@,
        resource_plural("Job"@) == "jobs"@,
        resource_plural("CronJob"@) == "cronjobs"@,
        resource_plural("Ingress"@) == "ingresses"@,
{
    reveal_strlit("ConfigMap");
    reveal_strlit("CronJob");
    reveal_strlit("DaemonSet");
    reveal_strlit("Deployment");
    reveal_strlit("Ingress");
    reveal_strlit("Job");
    reveal_strlit("Namespace");
    reveal_strlit("Node");
    reveal_strlit("Pod");
    reveal_strlit("Secret");
    reveal_strlit("Service");
    reveal_strlit("StatefulSet");
    reveal_strlit("apps/v1");
    reveal_strlit("batch/v1");
    reveal_strlit("configmaps");
    reveal_strlit("cronjobs");
    reveal_strlit("daemonsets");
    reveal_strlit("deployments");
    reveal_strlit("es");
    reveal_strlit("ingresses");
    reveal_strlit("jobs");
    reveal_strlit("namespaces");
    reveal_strlit("networking.k8s.io/v1");
    reveal_strlit("nodes");
    reveal_strlit("pods");
    reveal_strlit("s");
    reveal_strlit("secrets");
    reveal_strlit("services");
    reveal_strlit("statefulsets");
    reveal_strlit("v1");
    assert(resource_plural("Pod"@) =~= "pods"@);
    assert(resource_plural("Deployment"@) =~= "deployments"@);
    assert(resource_plural("Service"@) =~= "services"@);
    assert(resource_plural("ConfigMap"@) =~= "configmaps"@);
    assert(resource_plural("Secret"@) =~= "secrets"@);
    assert(resource_plural("Node"@) =~= "nodes"@);
    assert(resource_plural("Namespace"@) =~= "namespaces"@);
    assert(resource_plural("StatefulSet"@) =~= "statefulsets"@);
    assert(resource_plural("DaemonSet"@) =~= "daemonsets"@);
    assert(resource_plural("Job"@) =~= "jobs"@);
    assert(resource_plural("CronJob"@) =~= "cronjobs"@);
    assert(resource_plural("Ingress"@) =~= "ingresses"@);
    assert("namespaces"@[0] != "configmaps"@[0]);
    assert("daemonsets"@[0] != "configmaps"@[0]);
    assert("daemonsets"@[0] != "namespaces"@[0]);
    assert("jobs"@[0] != "pods"@[0]);
    assert("cronjobs"@[0] != "services"@[0]);
    assert(kind_api_version("Pod"@) == "v1"@);
    assert(kind_of_type("pods"@) == Some(("v1"@, "Pod"@)));
    assert(kind_api_version("Deployment"@) == "apps/v1"@);
    assert(kind_of_type("deployments"@) == Some(("apps/v1"@, "Deployment"@)));
    assert(kind_api_version("Service"@) == "v1"@);
    assert(kind_of_type("services"@) == Some(("v1"@, "Service"@)));
    assert(kind_api_version("ConfigMap"@) == "v1"@);
    assert(kind_of_type("configmaps"@) == Some(("v1"@, "ConfigMap"@)));
    assert(kind_api_version("Secret"@) == "v1"@);
    assert(kind_of_type("secrets"@) == Some(("v1"@, "Secret"@)));
    assert(kind_api_version("Node"@) == "v1"@);
    assert(kind_of_type("nodes"@) == Some(("v1"@, "Node"@)));
    assert(kind_api_version("Namespace"@) == "v1"@);
    assert(kind_of_type("namespaces"@) == Some(("v1"@, "Namespace"@)));
    assert(kind_api_version("StatefulSet"@) == "apps/v1"@);
    assert(kind_of_type("statefulsets"@) == Some(("apps/v1"@, "StatefulSet"@)));
    assert(kind_api_version("DaemonSet"@) == "apps/v1"@);
    assert(kind_of_type("daemonsets"@) == Some(("apps/v1"@, "DaemonSet"@)));
    assert(kind_api_version("Job"@) == "batch/v1"@);
    assert(kind_of_type("jobs"@) == Some(("batch/v1"@, "Job"@)));
    assert(kind_api_version("CronJob"@) == "batch/v1"@);
    assert(kind_of_type("cronjobs"@) == Some(("batch/v1"@, "CronJob"@)));
    assert(kind_api_version("Ingress"@) == "networking.k8s.io/v1"@);
    assert(kind_of_type("ingresses"@) == Some(("networking.k8s.io/v1"@, "Ingress"@)));
    assert forall|i: int| 0 <= i < uri_kinds().len() implies kind_of_type(resource_plural(
        #[trigger] uri_kinds()[i],
    )) == Some((kind_api_version(uri_kinds()[i]), uri_kinds()[i])) by {
        if i == 0 {
            assert(uri_kinds()[i] == "Pod"@);
        }
        if i == 1 {
            assert(uri_kinds()[i] == "Deployment"@);
        }
        if i == 2 {
            assert(uri_kinds()[i] == "Service"@);
        }
        if i == 3 {
            assert(uri_kinds()[i] == "ConfigMap"@);
        }
        if i == 4 {
            assert(uri_kinds()[i] == "Secret"@);
        }
        if i == 5 {
            assert(uri_kinds()[i] == "Node"@);
        }
        if i == 6 {
            assert(uri_kinds()[i] == "Namespace"@);
        }
        if i == 7 {
            assert(uri_kinds()[i] == "StatefulSet"@);
        }
        if i == 8 {
            assert(uri_kinds()[i] == "DaemonSet"@);
        }
        if i == 9 {
            assert(uri_kinds()[i] == "Job"@);
        }
        if i == 10 {
            assert(uri_kinds()[i] == "CronJob"@);
        }
        if i == 11 {
            assert(uri_kinds()[i] == "Ingress"@);
        }
    }
}

/// The type segment of a resource URI is the plural resource name of the kind
/// it selects: a URI type selects exactly the kind whose plural it is, under
/// that kind's API version, and every kind that URIs can name is reachable by
/// its plural.
pub proof fn lemma_uri_type_is_kind_plural(t: Seq<char>)
    ensures
        kind_of_type(t) matches Some((v, k)) ==> uri_kinds().contains(k) && t == resource_plural(k)
            && v == kind_api_version(k),
        forall|i: int| 0 <= i < uri_kinds().len() ==> kind_of_type(resource_plural(#[trigger] uri_kinds()[i]))
            == Some((kind_api_version(uri_kinds()[i]), uri_kinds()[i])),
{
    lemma_plurals();
    reveal_strlit("ConfigMap");
    reveal_strlit("CronJob");
    reveal_strlit("DaemonSet");
    reveal_strlit("Deployment");
    reveal_strlit("Ingress");
    reveal_strlit("Job");
    reveal_strlit("Namespace");
    reveal_strlit("Node");
    reveal_strlit("Pod");
    reveal_strlit("Secret");
    reveal_strlit("Service");
    reveal_strlit("StatefulSet");
    reveal_strlit("apps/v1");
    reveal_strlit("batch/v1");
    reveal_strlit("configmaps");
    reveal_strlit("cronjobs");
    reveal_strlit("daemonsets");
    reveal_strlit("deployments");
    reveal_strlit("es");
    reveal_strlit("ingresses");
    reveal_strlit("jobs");
    reveal_strlit("namespaces");
    reveal_strlit("networking.k8s.io/v1");
    reveal_strlit("nodes");
    reveal_strlit("pods");
    reveal_strlit("s");
    reveal_strlit("secrets");
    reveal_strlit("services");
    reveal_strlit("statefulsets");
    reveal_strlit("v1");
    if kind_of_type(t) is Some {
        let k = kind_of_type(t).unwrap().1;
        if t == "pods"@ {
            assert(uri_kinds()[0] == k);
        }
        if t == "deployments"@ {
            assert(uri_kinds()[1] == k);
        }
        if t == "services"@ {
            assert(uri_kinds()[2] == k);
        }
        if t == "configmaps"@ {
            assert(uri_kinds()[3] == k);
        }
        if t == "secrets"@ {
            assert(uri_kinds()[4] == k);
        }
        if t == "nodes"@ {
            assert(uri_kinds()[5] == k);
        }
        if t == "namespaces"@ {
            assert(uri_kinds()[6] == k);
        }
        if t == "statefulsets"@ {
            assert(uri_kinds()[7] == k);
        }
        if t == "daemonsets"@ {
            assert(uri_kinds()[8] == k);
        }
        if t == "jobs"@ {
            assert(uri_kinds()[9] == k);
        }
        if t == "cronjobs"@ {
            assert(uri_kinds()[10] == k);
        }
        if t == "ingresses"@ {
            assert(uri_kinds()[11] == k);
        }
    }
}

/// The `/`-separated segments of `s`, as `str::split('/')` yields them
/// (empty segments included; never fewer than one).
pub open spec fn segments(s: Seq<char>) -> Seq<Seq<char>>
    decreases s.len(),
{
    if s.len() == 0 {
        seq![Seq::empty()]
    } else {
        let rest = segments(s.drop_last());
        if s.last() == '/' {
            rest.push(Seq::empty())
        } else {
            rest.update(rest.len() - 1, rest.last().push(s.last()))
        }
    }
}

proof fn lemma_segments_nonempty(s: Seq<char>)
    ensures
        segments(s).len() >= 1,
    decreases s.len(),
{
    if s.len() > 0 {
        lemma_segments_nonempty(s.drop_last());
    }
}

/// The refusals of a malformed resource URI.
pub open spec fn bad_scheme_text(uri: Seq<char>) -> Seq<char> {
    "invalid resource URI (must start with k8s://): "@ + uri
}

/// See [`bad_scheme_text`].
pub open spec fn bad_format_text(uri: Seq<char>) -> Seq<char> {
    "invalid resource URI format: "@ + uri
}

/// See [`bad_scheme_text`].
pub open spec fn bad_type_text(t: Seq<char>) -> Seq<char> {
    "unsupported resource type: "@ + t
}

/// What a resource URI names: `k8s://<namespace or cluster>/<type>/<name>`.
pub open spec fn uri_meaning(uri: Seq<char>) -> Result<
    (Option<Seq<char>>, Seq<char>, Seq<char>, Seq<char>),
    Seq<char>,
> {
    let scheme = "k8s://"@;
    if !(uri.len() >= scheme.len() && uri.subrange(0, scheme.len() as int) == scheme) {
        Err(bad_scheme_text(uri))
    } else {
        let rest = uri.subrange(scheme.len() as int, uri.len() as int);
        let parts = segments(rest);
        if parts.len() != 3 {
            Err(bad_format_text(uri))
        } else {
            let scope = parts[0];
            let t = parts[1];
            let name = parts[2];
            match kind_of_type(t) {
                None => Err(bad_type_text(t)),
                Some((version, kind)) => Ok(
                    (
                        if scope == "cluster"@ {
                            None
                        } else {
                            Some(scope)
                        },
                        version,
                        kind,
                        name,
                    ),
                ),
            }
        }
    }
}

/// A resource URI that reads names a kind whose plural is the URI's middle
/// segment, under that kind's API version; its name is the last segment.
pub proof fn lemma_uri_kind_is_plural_of_type(uri: Seq<char>)
    ensures
        uri_meaning(uri) matches Ok((ns, v, k, n)) ==> {
            let parts = segments(uri.skip(6));
            &&& parts.len() == 3
            &&& parts[1] == resource_plural(k)
            &&& v == kind_api_version(k)
            &&& uri_kinds().contains(k)
            &&& n == parts[2]
        },
{
    reveal_strlit("k8s://");
    if uri_meaning(uri) is Ok {
        let rest = uri.subrange(6, uri.len() as int);
        assert(rest =~= uri.skip(6));
        lemma_uri_type_is_kind_plural(segments(rest)[1]);
    }
}

fn kind_for_type(t: &str) -> (r: Option<(&'static str, &'static str)>)
    ensures
        match r {
            Some((v, k)) => kind_of_type(t@) == Some((v@, k@)),
            None => kind_of_type(t@) is None,
        },
{
    proof {
        reveal_strlit("v1");
        reveal_strlit("apps/v1");
        reveal_strlit("batch/v1");
        reveal_strlit("networking.k8s.io/v1");
    }
    if str_eq(t, "pods") {
        Some(("v1", "Pod"))
    } else if str_eq(t, "deployments") {
        Some(("apps/v1", "Deployment"))
    } else if str_eq(t, "services") {
        Some(("v1", "Service"))
    } else if str_eq(t, "configmaps") {
        Some(("v1", "ConfigMap"))
    } else if str_eq(t, "secrets") {
        Some(("v1", "Secret"))
    } else if str_eq(t, "nodes") {
        Some(("v1", "Node"))
    } else if str_eq(t, "namespaces") {
        Some(("v1", "Namespace"))
    } else if str_eq(t, "statefulsets") {
        Some(("apps/v1", "StatefulSet"))
    } else if str_eq(t, "daemonsets") {
        Some(("apps/v1", "DaemonSet"))
    } else if str_eq(t, "jobs") {
        Some(("batch/v1", "Job"))
    } else if str_eq(t, "cronjobs") {
        Some(("batch/v1", "CronJob"))
    } else if str_eq(t, "ingresses") {
        Some(("networking.k8s.io/v1", "Ingress"))
    } else {
        None
    }
}

/// The `/`-separated segments of `s`.
pub fn split_segments(s: &str) -> (r: Vec<String>)
    ensures
        r@.len() == segments(s@).len(),
        forall|i: int| 0 <= i < r@.len() ==> #[trigger] r@[i]@ == segments(s@)[i],
{
    let v = chars_of(s);
    let n = v.len();
    let mut done: Vec<String> = Vec::new();
    let mut cur = String::new();
    proof {
        assert(v@.take(0) =~= Seq::<char>::empty());
    }
    for i in 0..n
        invariant
            n == v@.len(),
            v@ == s@,
            done@.len() + 1 == segments(v@.take(i as int)).len(),
            forall|j: int| 0 <= j < done@.len() ==> #[trigger] done@[j]@ == segments(v@.take(i as int))[j],
            cur@ == segments(v@.take(i as int)).last(),
    {
        proof {
            assert(v@.take(i + 1).drop_last() =~= v@.take(i as int));
            lemma_segments_nonempty(v@.take(i as int));
        }
        let c = v[i];
        if c == '/' {
            let finished = cur;
            done.push(finished);
            cur = String::new();
        } else {
            push_char(&mut cur, c);
        }
    }
    proof {
        assert(v@.take(n as int) =~= v@);
    }
    done.push(cur);
    done
}

/// Reads a `k8s://<namespace or cluster>/<type>/<name>` URI: the object's
/// namespace (none for `cluster`), API version, kind and name.
pub fn parse_resource_uri(uri: &str) -> (r: Result<ResourceRef, String>)
    ensures
        match (r, uri_meaning(uri@)) {
            (Ok(x), Ok((ns, v, k, n))) => opt_view(x.namespace) == ns && x.api_version@ == v
                && x.kind@ == k && x.name@ == n,
            (Err(e), Err(m)) => e@ == m,
            _ => false,
        },
{
    proof {
        reveal_strlit("k8s://");
        reveal_strlit("cluster");
        reveal_strlit("invalid resource URI (must start with k8s://): ");
        reveal_strlit("invalid resource URI format: ");
        reveal_strlit("unsupported resource type: ");
    }
    let rest = match strip_prefix(uri, "k8s://") {
        Some(r) => r,
        None => {
            let mut m = String::from_str("invalid resource URI (must start with k8s://): ");
            m.append(uri);
            return Err(m);
        },
    };
    proof {
        assert(uri@.subrange(0, 6) =~= "k8s://"@ ==> rest@ =~= uri@.subrange(6, uri@.len() as int));
    }
    let parts = split_segments(rest);
    if parts.len() != 3 {
        let mut m = String::from_str("invalid resource URI format: ");
        m.append(uri);
        return Err(m);
    }
    let (version, kind) = match kind_for_type(parts[1].as_str()) {
        Some(vk) => vk,
        None => {
            let mut m = String::from_str("unsupported resource type: ");
            m.append(parts[1].as_str());
            return Err(m);
        },
    };
    let namespace = if str_eq(parts[0].as_str(), "cluster") {
        None
    } else {
        Some(parts[0].clone())
    };
    Ok(
        ResourceRef {
            namespace,
            api_version: String::from_str(version),
            kind: String::from_str(kind),
            name: parts[2].clone(),
        },
    )
}

/// The namespace a prompt uses: the one given, else `default`.
pub open spec fn prompt_namespace(ns: Option<Seq<char>>) -> Seq<char> {
    match ns {
        Some(n) => n,
        None => "default"@,
    }
}

/// The text of a built-in prompt, or the refusal of an unknown prompt name.
/// `diagnose-pod` uses the namespace and pod name (empty when absent),
/// `review-namespace-rbac` and `resource-usage-report` the namespace,
/// `cluster-health-check` nothing.
pub open spec fn prompt_text(name: Seq<char>, ns: Option<Seq<char>>, pod: Option<Seq<char>>) -> Result<
    Seq<char>,
    Seq<char>,
> {
    let n = prompt_namespace(ns);
    if name == "diagnose-pod"@ {
        let p = match pod {
            Some(p) => p,
            None => Seq::empty(),
        };
        Ok("Diagnose the pod '"@ + p + "' in namespace '"@ + n + "'. Use the get_pod tool to check its current status and conditions. Use get_pod_logs to retrieve recent container logs and look for errors. Use get_events with the namespace '"@ + n + "' and resource_name '"@ + p + "' to check for Warning events (e.g. FailedScheduling, CrashLoopBackOff, ImagePullBackOff). Identify the root cause and suggest a concrete fix."@)
    } else if name == "review-namespace-rbac"@ {
        Ok("Review the RBAC configuration for namespace '"@ + n + "'. Use list_roles to list all Roles in the namespace. Use list_rolebindings to list all RoleBindings. Use list_clusterroles and list_clusterrolebindings to check cluster-level permissions that may apply. Use list_serviceaccounts to enumerate service accounts in the namespace. Identify any overly permissive bindings, unused roles, or security concerns."@)
    } else if name == "cluster-health-check"@ {
        Ok("Perform a cluster health check. Use list_nodes to check node status, conditions, and resource pressure (MemoryPressure, DiskPressure, PIDPressure). Use list_namespaces to list all namespaces. Use list_pods in the 'kube-system' namespace to verify system pods are running. Use get_events in 'kube-system' to check for recent warnings. Summarize the overall cluster health and flag any issues."@)
    } else if name == "resource-usage-report"@ {
        Ok("Generate a resource usage report for namespace '"@ + n + "'. Use get_metrics with namespace '"@ + n + "' to retrieve CPU and memory usage for all pods. Use list_pods in namespace '"@ + n + "' to get resource requests and limits for each container. Compare actual usage against requests/limits. Identify pods that are over-provisioned or under-provisioned and suggest right-sizing adjustments."@)
    } else {
        Err("unknown prompt: "@ + name)
    }
}

/// The description given with a prompt.
pub open spec fn prompt_description(name: Seq<char>) -> Seq<char> {
    "Prompt: "@ + name
}

/// The text of the prompt `name` for the given arguments; an unknown name is refused.
pub fn prompt_message(name: &str, namespace: Option<&str>, pod_name: Option<&str>) -> (r: Result<String, String>)
    ensures
        match (r, prompt_text(name@, opt_str(namespace), opt_str(pod_name))) {
            (Ok(t), Ok(u)) => t@ == u,
            (Err(e), Err(m)) => e@ == m,
            _ => false,
        },
{
    proof {
        reveal_strlit("Diagnose the pod '");
        reveal_strlit("' in namespace '");
        reveal_strlit("'. Use the get_pod tool to check its current status and conditions. Use get_pod_logs to retrieve recent container logs and look for errors. Use get_events with the namespace '");
        reveal_strlit("' and resource_name '");
        reveal_strlit("' to check for Warning events (e.g. FailedScheduling, CrashLoopBackOff, ImagePullBackOff). Identify the root cause and suggest a concrete fix.");
        reveal_strlit("Review the RBAC configuration for namespace '");
        reveal_strlit("'. Use list_roles to list all Roles in the namespace. Use list_rolebindings to list all RoleBindings. Use list_clusterroles and list_clusterrolebindings to check cluster-level permissions that may apply. Use list_serviceaccounts to enumerate service accounts in the namespace. Identify any overly permissive bindings, unused roles, or security concerns.");
        reveal_strlit("Perform a cluster health check. Use list_nodes to check node status, conditions, and resource pressure (MemoryPressure, DiskPressure, PIDPressure). Use list_namespaces to list all namespaces. Use list_pods in the 'kube-system' namespace to verify system pods are running. Use get_events in 'kube-system' to check for recent warnings. Summarize the overall cluster health and flag any issues.");
        reveal_strlit("Generate a resource usage report for namespace '");
        reveal_strlit("'. Use get_metrics with namespace '");
        reveal_strlit("' to retrieve CPU and memory usage for all pods. Use list_pods in namespace '");
        reveal_strlit("' to get resource requests and limits for each container. Compare actual usage against requests/limits. Identify pods that are over-provisioned or under-provisioned and suggest right-sizing adjustments.");
        reveal_strlit("default");
        reveal_strlit("unknown prompt: ");
        reveal_strlit("Prompt: ");
    }
    let ns: &str = match namespace {
        Some(n) => n,
        None => "default",
    };
    let mut out = String::new();
    if str_eq(name, "diagnose-pod") {
        let pod: &str = match pod_name {
            Some(p) => p,
            None => "",
        };
        proof { reveal_strlit(""); }
        out.append("Diagnose the pod '");
        out.append(pod);
        out.append("' in namespace '");
        out.append(ns);
        out.append("'. Use the get_pod tool to check its current status and conditions. Use get_pod_logs to retrieve recent container logs and look for errors. Use get_events with the namespace '");
        out.append(ns);
        out.append("' and resource_name '");
        out.append(pod);
        out.append("' to check for Warning events (e.g. FailedScheduling, CrashLoopBackOff, ImagePullBackOff). Identify the root cause and suggest a concrete fix.");
        proof {
            assert(out@ =~= prompt_text(name@, opt_str(namespace), opt_str(pod_name))->Ok_0);
        }
        Ok(out)
    } else if str_eq(name, "review-namespace-rbac") {
        out.append("Review the RBAC configuration for namespace '");
        out.append(ns);
        out.append("'. Use list_roles to list all Roles in the namespace. Use list_rolebindings to list all RoleBindings. Use list_clusterroles and list_clusterrolebindings to check cluster-level permissions that may apply. Use list_serviceaccounts to enumerate service accounts in the namespace. Identify any overly permissive bindings, unused roles, or security concerns.");
        proof {
            assert(out@ =~= prompt_text(name@, opt_str(namespace), opt_str(pod_name))->Ok_0);
        }
        Ok(out)
    } else if str_eq(name, "cluster-health-check") {
        out.append("Perform a cluster health check. Use list_nodes to check node status, conditions, and resource pressure (MemoryPressure, DiskPressure, PIDPressure). Use list_namespaces to list all namespaces. Use list_pods in the 'kube-system' namespace to verify system pods are running. Use get_events in 'kube-system' to check for recent warnings. Summarize the overall cluster health and flag any issues.");
        proof {
            assert(out@ =~= prompt_text(name@, opt_str(namespace), opt_str(pod_name))->Ok_0);
        }
        Ok(out)
    } else if str_eq(name, "resource-usage-report") {
        out.append("Generate a resource usage report for namespace '");
        out.append(ns);
        out.append("'. Use get_metrics with namespace '");
        out.append(ns);
        out.append("' to retrieve CPU and memory usage for all pods. Use list_pods in namespace '");
        out.append(ns);
        out.append("' to get resource requests and limits for each container. Compare actual usage against requests/limits. Identify pods that are over-provisioned or under-provisioned and suggest right-sizing adjustments.");
        proof {
            assert(out@ =~= prompt_text(name@, opt_str(namespace), opt_str(pod_name))->Ok_0);
        }
        Ok(out)
    } else {
        out.append("unknown prompt: ");
        out.append(name);
        Err(out)
    }
}

/// The description of the prompt `name`.
pub fn prompt_description_text(name: &str) -> (r: String)
    ensures
        r@ == prompt_description(name@),
{
    let mut out = String::from_str("Prompt: ");
    out.append(name);
    proof {
        reveal_strlit("Prompt: ");
    }
    out
}

/// The text of an optional string slice.
pub open spec fn opt_str(s: Option<&str>) -> Option<Seq<char>> {
    match s {
        Some(t) => Some(t@),
        None => None,
    }
}

/// The tool names among `names` that the permissions allow, in order.
pub open spec fn listed_tools(p: PermissionsView, names: Seq<Seq<char>>) -> Seq<Seq<char>> {
    names.filter(|n: Seq<char>| tool_allowed(p, n))
}

/// The tools advertised by `tools/list`: those of `names` that the
/// permissions allow, in order.
pub fn visible_tools(perms: &ActionPermissions, names: &Vec<String>) -> (r: Vec<String>)
    ensures
        texts(r@) == listed_tools(perms@, texts(names@)),
{
    let ghost pred = |n: Seq<char>| tool_allowed(perms@, n);
    let mut out: Vec<String> = Vec::new();
    let n = names.len();
    proof {
        reveal(Seq::filter);
        assert(texts(names@).take(0) =~= Seq::<Seq<char>>::empty());
        assert(texts(out@) =~= texts(names@).take(0).filter(pred));
    }
    for i in 0..n
        invariant
            n == names@.len(),
            pred == (|n: Seq<char>| tool_allowed(perms@, n)),
            texts(out@) == texts(names@).take(i as int).filter(pred),
    {
        let ghost before = texts(out@);
        proof {
            reveal(Seq::filter);
            assert(texts(names@).take(i + 1).drop_last() =~= texts(names@).take(i as int));
            assert(texts(names@).take(i + 1).last() == names@[i as int]@);
        }
        if perms.is_tool_allowed(names[i].as_str()) {
            out.push(names[i].clone());
            proof {
                assert(texts(out@) =~= before.push(names@[i as int]@));
            }
        }
    }
    proof {
        assert(texts(names@).take(n as int) =~= texts(names@));
    }
    out
}

/// A tool appears in the tool list exactly when the permission gate lets
/// calls of it through.
pub proof fn lemma_listed_iff_callable(p: PermissionsView, names: Seq<Seq<char>>, i: int)
    requires
        0 <= i < names.len(),
    ensures
        listed_tools(p, names).contains(names[i]) <==> tool_allowed(p, names[i]),
{
    let pred = |n: Seq<char>| tool_allowed(p, n);
    if tool_allowed(p, names[i]) {
        names.lemma_filter_contains(pred, i);
    }
    if listed_tools(p, names).contains(names[i]) {
        let j = choose|j: int| 0 <= j < names.filter(pred).len() && names.filter(pred)[j] == names[i];
        names.lemma_filter_pred(pred, j);
    }
}

} // verus!
