//! The Kubernetes client handle: the connection, the namespaces the server
//! may touch, and the action permissions; and the errors it reports.
use vstd::prelude::*;

use k8s_openapi::api::apps::v1::Deployment;
use k8s_openapi::api::batch::v1::Job;
use k8s_openapi::api::networking::v1::Ingress;

use crate::permissions::ActionPermissions;
use crate::text::str_eq;

verus! {

/// The connection to a cluster (`kube::Client`), carried through unopened.
#[verifier::external_type_specification]
#[verifier::external_body]
pub struct ExKubeClient(kube::Client);

/// A handle on one kind of resource (`kube::Api`), carried through unopened.
#[verifier::external_type_specification]
#[verifier::external_body]
#[verifier::reject_recursive_types(K)]
pub struct ExKubeApi<K>(kube::Api<K>);

/// The resource kinds the client hands out handles on; opaque here.
#[verifier::external_type_specification]
#[verifier::external_body]
pub struct ExDeployment(Deployment);

#[verifier::external_type_specification]
#[verifier::external_body]
pub struct ExPod(k8s_openapi::api::core::v1::Pod);

#[verifier::external_type_specification]
#[verifier::external_body]
pub struct ExIngress(Ingress);

#[verifier::external_type_specification]
#[verifier::external_body]
pub struct ExService(k8s_openapi::api::core::v1::Service);

#[verifier::external_type_specification]
#[verifier::external_body]
pub struct ExJob(Job);

#[verifier::external_type_specification]
#[verifier::external_body]
pub struct ExEvent(k8s_openapi::api::core::v1::Event);

#[verifier::external_type_specification]
#[verifier::external_body]
pub struct ExNamespace(k8s_openapi::api::core::v1::Namespace);

/// `kube::Api::namespaced` for deployments: a handle on the deployments of
/// namespace `ns`. Building it makes no request; nothing is claimed of it.
#[verifier::external_body]
fn deployments_in(client: &kube::Client, ns: &str) -> kube::Api<Deployment> {
    kube::Api::namespaced(client.clone(), ns)
}

/// `kube::Api::namespaced` for pods; as `deployments_in`.
#[verifier::external_body]
fn pods_in(client: &kube::Client, ns: &str) -> kube::Api<k8s_openapi::api::core::v1::Pod> {
    kube::Api::namespaced(client.clone(), ns)
}

/// `kube::Api::namespaced` for ingresses; as `deployments_in`.
#[verifier::external_body]
fn ingresses_in(client: &kube::Client, ns: &str) -> kube::Api<Ingress> {
    kube::Api::namespaced(client.clone(), ns)
}

/// `kube::Api::namespaced` for services; as `deployments_in`.
#[verifier::external_body]
fn services_in(client: &kube::Client, ns: &str) -> kube::Api<k8s_openapi::api::core::v1::Service> {
    kube::Api::namespaced(client.clone(), ns)
}

/// `kube::Api::namespaced` for jobs; as `deployments_in`.
#[verifier::external_body]
fn jobs_in(client: &kube::Client, ns: &str) -> kube::Api<Job> {
    kube::Api::namespaced(client.clone(), ns)
}

/// `kube::Api::namespaced` for core events; as `deployments_in`.
#[verifier::external_body]
fn events_in(client: &kube::Client, ns: &str) -> kube::Api<k8s_openapi::api::core::v1::Event> {
    kube::Api::namespaced(client.clone(), ns)
}

/// `kube::Api::all` for namespaces: a handle on the cluster's namespaces.
/// Building it makes no request; nothing is claimed of it.
#[verifier::external_body]
fn all_namespaces(client: &kube::Client) -> kube::Api<k8s_openapi::api::core::v1::Namespace> {
    kube::Api::all(client.clone())
}

/// Errors of client operations.
#[derive(Clone, Debug)]
pub enum Error {
    /// The namespace is not in the allowed list.
    NamespaceNotAllowed(String),
    /// The cluster refused or failed a request; the text is the cluster's error message.
    Kube(String),
    /// The request itself was malformed.
    BadRequest(String),
    /// The permissions forbid the action on the resource.
    ActionNotAllowed { resource: String, action: String },
}

/// The message of an error, as the tools report it.
pub open spec fn error_text(e: Error) -> Seq<char> {
    match e {
        Error::NamespaceNotAllowed(ns) => "namespace '"@ + ns@ + "' is not in the allowed list"@,
        Error::Kube(m) => "kubernetes error: "@ + m@,
        Error::BadRequest(m) => m@,
        Error::ActionNotAllowed { resource, action } => "action '"@ + action@
            + "' is not allowed on resource '"@ + resource@ + "'"@,
    }
}

impl Error {
    /// The message of the error, as the tools report it.
    pub fn to_tool_error(&self) -> (r: String)
        ensures
            r@ == error_text(*self),
    {
        proof {
            reveal_strlit("namespace '");
            reveal_strlit("' is not in the allowed list");
            reveal_strlit("kubernetes error: ");
            reveal_strlit("action '");
            reveal_strlit("' is not allowed on resource '");
            reveal_strlit("'");
        }
        match self {
            Error::NamespaceNotAllowed(ns) => {
                let mut m = String::from_str("namespace '");
                m.append(ns.as_str());
                m.append("' is not in the allowed list");
                m
            },
            Error::Kube(msg) => {
                let mut m = String::from_str("kubernetes error: ");
                m.append(msg.as_str());
                m
            },
            Error::BadRequest(msg) => msg.clone(),
            Error::ActionNotAllowed { resource, action } => {
                let mut m = String::from_str("action '");
                m.append(action.as_str());
                m.append("' is not allowed on resource '");
                m.append(resource.as_str());
                m.append("'");
                m
            },
        }
    }
}

/// A namespace may be used when no list is configured or the list names it.
pub open spec fn namespace_allowed(allowed: Seq<String>, ns: Seq<char>) -> bool {
    allowed.len() == 0 || exists|i: int| 0 <= i < allowed.len() && #[trigger] allowed[i]@ == ns
}

/// The refusal of a namespace that is not allowed, as the resource tools word it.
pub open spec fn namespace_refusal_text(ns: Seq<char>) -> Seq<char> {
    "Namespace '"@ + ns + "' is not in the allowed list"@
}

/// A cluster connection with the server's namespace allowlist and permissions.
pub struct K8sClient {
    client: kube::Client,
    allowed_namespaces: Vec<String>,
    permissions: ActionPermissions,
}

impl K8sClient {
    /// The namespaces this client may use; empty means all.
    pub closed spec fn allowed(&self) -> Seq<String> {
        self.allowed_namespaces@
    }

    /// The permissions this client enforces.
    pub closed spec fn perms(&self) -> ActionPermissions {
        self.permissions
    }

    /// The cluster connection this client talks through.
    pub closed spec fn connection(&self) -> kube::Client {
        self.client
    }

    /// A client over `client`, limited to `allowed_namespaces` (all when empty).
    pub fn new(
        client: kube::Client,
        allowed_namespaces: Vec<String>,
        permissions: ActionPermissions,
    ) -> (r: Self)
        ensures
            r.connection() == client,
            r.allowed() == allowed_namespaces@,
            r.perms() == permissions,
    {
        K8sClient { client, allowed_namespaces, permissions }
    }

    /// The permissions this client enforces.
    pub fn permissions(&self) -> (r: &ActionPermissions)
        ensures
            *r == self.perms(),
    {
        &self.permissions
    }

    /// The connection the client was made with.
    pub fn inner(&self) -> (r: &kube::Client)
        ensures
            *r == self.connection(),
    {
        &self.client
    }

    /// The namespaces this client may use; empty means all.
    pub fn allowed_namespaces(&self) -> (r: &Vec<String>)
        ensures
            r@ == self.allowed(),
    {
        &self.allowed_namespaces
    }

    /// Whether `ns` may be used.
    pub fn is_namespace_allowed(&self, ns: &str) -> (r: bool)
        ensures
            r == namespace_allowed(self.allowed(), ns@),
    {
        let n = self.allowed_namespaces.len();
        if n == 0 {
            return true;
        }
        for i in 0..n
            invariant
                n == self.allowed_namespaces@.len(),
                forall|j: int| 0 <= j < i ==> self.allowed_namespaces@[j]@ != ns@,
        {
            if str_eq(self.allowed_namespaces[i].as_str(), ns) {
                return true;
            }
        }
        false
    }

    /// Those of `names` that may be used, in their order.
    pub fn visible_namespaces(&self, names: &Vec<String>) -> (r: Vec<String>)
        ensures
            r@ == names@.filter(|s: String| namespace_allowed(self.allowed(), s@)),
    {
        let ghost pred = |s: String| namespace_allowed(self.allowed(), s@);
        let mut out: Vec<String> = Vec::new();
        for i in 0..names.len()
            invariant
                pred == (|s: String| namespace_allowed(self.allowed(), s@)),
                out@ == names@.subrange(0, i as int).filter(pred),
        {
            proof {
                assert(names@.subrange(0, i + 1).drop_last() =~= names@.subrange(0, i as int));
                reveal(Seq::filter);
            }
            if self.is_namespace_allowed(names[i].as_str()) {
                out.push(names[i].clone());
            }
        }
        proof {
            assert(names@.subrange(0, names@.len() as int) =~= names@);
        }
        out
    }

    /// `Ok` when `ns` may be used, else the error naming it.
    pub fn check_namespace(&self, ns: &str) -> (r: Result<(), Error>)
        ensures
            r is Ok <==> namespace_allowed(self.allowed(), ns@),
            r matches Err(e) ==> e matches Error::NamespaceNotAllowed(n) && n@ == ns@,
    {
        if !self.is_namespace_allowed(ns) {
            return Err(Error::NamespaceNotAllowed(String::from_str(ns)));
        }
        Ok(())
    }

    /// The deployments of `ns`, when `ns` may be used.
    pub fn deployments_api(&self, ns: &str) -> (r: Result<kube::Api<Deployment>, Error>)
        ensures
            r is Ok <==> namespace_allowed(self.allowed(), ns@),
            r matches Err(e) ==> e matches Error::NamespaceNotAllowed(n) && n@ == ns@,
    {
        match self.check_namespace(ns) {
            Ok(()) => Ok(deployments_in(&self.client, ns)),
            Err(e) => Err(e),
        }
    }

    /// The pods of `ns`, when `ns` may be used.
    pub fn pods_api(&self, ns: &str) -> (r: Result<kube::Api<k8s_openapi::api::core::v1::Pod>, Error>)
        ensures
            r is Ok <==> namespace_allowed(self.allowed(), ns@),
            r matches Err(e) ==> e matches Error::NamespaceNotAllowed(n) && n@ == ns@,
    {
        match self.check_namespace(ns) {
            Ok(()) => Ok(pods_in(&self.client, ns)),
            Err(e) => Err(e),
        }
    }

    /// The ingresses of `ns`, when `ns` may be used.
    pub fn ingresses_api(&self, ns: &str) -> (r: Result<kube::Api<Ingress>, Error>)
        ensures
            r is Ok <==> namespace_allowed(self.allowed(), ns@),
            r matches Err(e) ==> e matches Error::NamespaceNotAllowed(n) && n@ == ns@,
    {
        match self.check_namespace(ns) {
            Ok(()) => Ok(ingresses_in(&self.client, ns)),
            Err(e) => Err(e),
        }
    }

    /// The services of `ns`, when `ns` may be used.
    pub fn services_api(&self, ns: &str) -> (r: Result<kube::Api<k8s_openapi::api::core::v1::Service>, Error>)
        ensures
            r is Ok <==> namespace_allowed(self.allowed(), ns@),
            r matches Err(e) ==> e matches Error::NamespaceNotAllowed(n) && n@ == ns@,
    {
        match self.check_namespace(ns) {
            Ok(()) => Ok(services_in(&self.client, ns)),
            Err(e) => Err(e),
        }
    }

    /// The jobs of `ns`, when `ns` may be used.
    pub fn jobs_api(&self, ns: &str) -> (r: Result<kube::Api<Job>, Error>)
        ensures
            r is Ok <==> namespace_allowed(self.allowed(), ns@),
            r matches Err(e) ==> e matches Error::NamespaceNotAllowed(n) && n@ == ns@,
    {
        match self.check_namespace(ns) {
            Ok(()) => Ok(jobs_in(&self.client, ns)),
            Err(e) => Err(e),
        }
    }

    /// The events of `ns`, when `ns` may be used.
    pub fn events_api(&self, ns: &str) -> (r: Result<kube::Api<k8s_openapi::api::core::v1::Event>, Error>)
        ensures
            r is Ok <==> namespace_allowed(self.allowed(), ns@),
            r matches Err(e) ==> e matches Error::NamespaceNotAllowed(n) && n@ == ns@,
    {
        match self.check_namespace(ns) {
            Ok(()) => Ok(events_in(&self.client, ns)),
            Err(e) => Err(e),
        }
    }

    /// The cluster's namespaces; cluster-scoped, so never refused.
    pub fn namespaces_api(&self) -> kube::Api<k8s_openapi::api::core::v1::Namespace> {
        all_namespaces(&self.client)
    }

    /// `Ok` when `ns` may be used, else the refusal the resource tools report.
    pub fn namespace_gate(&self, ns: &str) -> (r: Result<(), String>)
        ensures
            r is Ok <==> namespace_allowed(self.allowed(), ns@),
            r matches Err(e) ==> e@ == namespace_refusal_text(ns@),
    {
        if !self.is_namespace_allowed(ns) {
            let mut m = String::from_str("Namespace '");
            m.append(ns);
            m.append("' is not in the allowed list");
            proof {
                reveal_strlit("Namespace '");
                reveal_strlit("' is not in the allowed list");
            }
            return Err(m);
        }
        Ok(())
    }
}

/// With no allowlist every namespace may be used, so every listed name stays visible.
pub proof fn lemma_empty_allowlist_shows_all(names: Seq<String>)
    ensures
        names.filter(|s: String| namespace_allowed(Seq::empty(), s@)) == names,
    decreases names.len(),
{
    reveal(Seq::filter);
    if names.len() > 0 {
        lemma_empty_allowlist_shows_all(names.drop_last());
        assert(names.drop_last().push(names.last()) =~= names);
    }
}

/// A name is visible exactly when the allowlist admits it: nothing outside
/// the list shows up, and every listed name the list admits does.
pub proof fn lemma_visible_iff_allowed(allowed: Seq<String>, names: Seq<String>, ns: String)
    ensures
        names.filter(|s: String| namespace_allowed(allowed, s@)).contains(ns) <==> (names.contains(ns)
            && namespace_allowed(allowed, ns@)),
{
    broadcast use vstd::seq_lib::group_filter_ensures;

    let pred = |s: String| namespace_allowed(allowed, s@);
    if names.filter(pred).contains(ns) {
        names.lemma_filter_contains_rev(pred, ns);
        let j = choose|j: int| 0 <= j < names.filter(pred).len() && names.filter(pred)[j] == ns;
        assert(pred(names.filter(pred)[j]));
    }
    if names.contains(ns) && namespace_allowed(allowed, ns@) {
        let i = choose|i: int| 0 <= i < names.len() && names[i] == ns;
        names.lemma_filter_contains(pred, i);
    }
}

} // verus!
