//! Tool arguments and what the create tools make of them: which arguments
//! are required, the defaults of the others, and the objects to create.
use vstd::prelude::*;

use crate::model::opt_view;
use crate::text::str_eq;

verus! {

/// One argument value, as far as the tools read it: text, a whole number
/// that fits in 64 bits, an object whose members are text (`Some`) or
/// something else (`None`), a list, or anything else.
#[derive(Clone, Debug)]
pub enum ArgValue {
    Str(String),
    Int(i64),
    Bool(bool),
    Object(Vec<(String, Option<String>)>),
    Array(Vec<ArgItem>),
    Other,
}

/// One item of a list argument: text, an object as above, or anything else.
#[derive(Clone, Debug)]
pub enum ArgItem {
    Str(String),
    Object(Vec<(String, Option<String>)>),
    Other,
}

/// The value of the argument named `key`, if given.
pub open spec fn arg_value(args: Seq<(String, ArgValue)>, key: Seq<char>) -> Option<ArgValue>
    decreases args.len(),
{
    if args.len() == 0 {
        None
    } else if args[0].0@ == key {
        Some(args[0].1)
    } else {
        arg_value(args.drop_first(), key)
    }
}

/// The text of argument `key`, when it is given as text.
pub open spec fn arg_text(args: Seq<(String, ArgValue)>, key: Seq<char>) -> Option<Seq<char>> {
    match arg_value(args, key) {
        Some(ArgValue::Str(s)) => Some(s@),
        _ => None,
    }
}

/// The number of argument `key`, when it is given as a whole number.
pub open spec fn arg_int(args: Seq<(String, ArgValue)>, key: Seq<char>) -> Option<i64> {
    match arg_value(args, key) {
        Some(ArgValue::Int(n)) => Some(n),
        _ => None,
    }
}

/// The flag under `key`, if the argument is a boolean.
pub open spec fn arg_bool(args: Seq<(String, ArgValue)>, key: Seq<char>) -> Option<bool> {
    match arg_value(args, key) {
        Some(ArgValue::Bool(b)) => Some(b),
        _ => None,
    }
}

/// The refusal of a call that lacks a required argument.
pub open spec fn required_text(key: Seq<char>) -> Seq<char> {
    key + " is required"@
}

fn find_arg<'a>(args: &'a Vec<(String, ArgValue)>, key: &str) -> (r: Option<&'a ArgValue>)
    ensures
        match r {
            Some(v) => arg_value(args@, key@) == Some(*v),
            None => arg_value(args@, key@) is None,
        },
{
    let n = args.len();
    let mut i: usize = 0;
    proof {
        assert(args@.skip(0) =~= args@);
    }
    while i < n
        invariant
            n == args@.len(),
            i <= n,
            arg_value(args@, key@) == arg_value(args@.skip(i as int), key@),
        decreases n - i,
    {
        proof {
            assert(args@.skip(i as int).drop_first() =~= args@.skip(i + 1));
            assert(args@.skip(i as int)[0] == args@[i as int]);
        }
        if str_eq(args[i].0.as_str(), key) {
            return Some(&args[i].1);
        }
        i = i + 1;
    }
    None
}

/// The text of argument `key`, when it is given as text.
pub fn get_str<'a>(args: &'a Vec<(String, ArgValue)>, key: &str) -> (r: Option<&'a str>)
    ensures
        match r {
            Some(s) => arg_text(args@, key@) == Some(s@),
            None => arg_text(args@, key@) is None,
        },
{
    match find_arg(args, key) {
        Some(ArgValue::Str(s)) => Some(s.as_str()),
        _ => None,
    }
}

/// The number of argument `key`, when it is given as a whole number.
pub fn get_int(args: &Vec<(String, ArgValue)>, key: &str) -> (r: Option<i64>)
    ensures
        r == arg_int(args@, key@),
{
    match find_arg(args, key) {
        Some(ArgValue::Int(n)) => Some(*n),
        _ => None,
    }
}

/// The flag under `key`, if the argument is a boolean.
pub fn get_bool(args: &Vec<(String, ArgValue)>, key: &str) -> (r: Option<bool>)
    ensures
        r == arg_bool(args@, key@),
{
    match find_arg(args, key) {
        Some(ArgValue::Bool(b)) => Some(*b),
        _ => None,
    }
}

/// The text of a required argument, or the refusal naming it.
pub fn require_str<'a>(args: &'a Vec<(String, ArgValue)>, key: &str) -> (r: Result<&'a str, String>)
    ensures
        match r {
            Ok(s) => arg_text(args@, key@) == Some(s@),
            Err(e) => arg_text(args@, key@) is None && e@ == required_text(key@),
        },
{
    match get_str(args, key) {
        Some(s) => Ok(s),
        None => {
            let mut m = String::from_str(key);
            m.append(" is required");
            proof {
                reveal_strlit(" is required");
            }
            Err(m)
        },
    }
}

/// The environment given as an object of names to values: each value as
/// text, empty when it is not text; absent when no object is given.
pub open spec fn env_of(args: Seq<(String, ArgValue)>) -> Option<Seq<(Seq<char>, Seq<char>)>> {
    match arg_value(args, "env"@) {
        Some(ArgValue::Object(members)) => Some(
            Seq::new(
                members@.len(),
                |i: int|
                    (
                        members@[i].0@,
                        match members@[i].1 {
                            Some(v) => v@,
                            None => Seq::empty(),
                        },
                    ),
            ),
        ),
        _ => None,
    }
}

/// The label that marks an object as made by this server.
pub open spec fn managed_mark() -> (Seq<char>, Seq<char>) {
    ("app.kubernetes.io/managed-by"@, "mcp-k8s"@)
}

/// The labels a create tool puts on what it makes: `app=<app>` when it names
/// an app, then the managed-by mark, in key order.
pub open spec fn managed_label_pairs(app: Option<Seq<char>>) -> Seq<(Seq<char>, Seq<char>)> {
    match app {
        Some(a) => seq![("app"@, a), managed_mark()],
        None => seq![managed_mark()],
    }
}

/// The views of a list of text pairs.
pub open spec fn pair_views(v: Seq<(String, String)>) -> Seq<(Seq<char>, Seq<char>)> {
    v.map_values(|p: (String, String)| (p.0@, p.1@))
}

/// The labels a create tool puts on what it makes (see `managed_label_pairs`).
pub fn managed_labels(app: Option<&str>) -> (r: Vec<(String, String)>)
    ensures
        pair_views(r@) == managed_label_pairs(
            match app {
                Some(a) => Some(a@),
                None => None,
            },
        ),
{
    let mut r: Vec<(String, String)> = Vec::new();
    if let Some(a) = app {
        r.push((String::from_str("app"), String::from_str(a)));
    }
    r.push((String::from_str("app.kubernetes.io/managed-by"), String::from_str("mcp-k8s")));
    proof {
        assert(pair_views(r@) =~= managed_label_pairs(
            match app {
                Some(a) => Some(a@),
                None => None,
            },
        ));
    }
    r
}

/// The selector `app=<name>` by which a deployment or a service finds its pods.
pub fn app_selector(name: &str) -> (r: Vec<(String, String)>)
    ensures
        pair_views(r@) == seq![("app"@, name@)],
{
    let r = vec![(String::from_str("app"), String::from_str(name))];
    proof {
        assert(pair_views(r@) =~= seq![("app"@, name@)]);
    }
    r
}

/// A deployment to create: one container running `image`, labelled
/// `app=<name>` and managed by this server.
#[derive(Clone, Debug)]
pub struct DeploymentPlan {
    pub namespace: String,
    pub name: String,
    pub image: String,
    pub replicas: i32,
    pub port: Option<i32>,
    pub env: Option<Vec<(String, String)>>,
    /// The deployment's labels: `app=<name>` and the managed-by mark.
    pub labels: Vec<(String, String)>,
    /// The selector, which is also the pod template's labels: `app=<name>`.
    pub selector: Vec<(String, String)>,
    /// The name of its one container: the deployment's name.
    pub container_name: String,
}

/// Reading the arguments of `create_deployment`: `namespace`, `name` and
/// `image` are required (checked in that order); `replicas` defaults to 1;
/// numbers are taken as 32-bit.
pub open spec fn deployment_plan_ok(p: DeploymentPlan, args: Seq<(String, ArgValue)>) -> bool {
    &&& arg_text(args, "namespace"@) == Some(p.namespace@)
    &&& arg_text(args, "name"@) == Some(p.name@)
    &&& arg_text(args, "image"@) == Some(p.image@)
    &&& p.replicas == (match arg_int(args, "replicas"@) {
        Some(n) => #[verifier::truncate] (n as i32),
        None => 1i32,
    })
    &&& p.port == (match arg_int(args, "port"@) {
        Some(n) => Some(#[verifier::truncate] (n as i32)),
        None => None,
    })
    &&& match (p.env, env_of(args)) {
        (None, None) => true,
        (Some(e), Some(f)) => e@.len() == f.len() && forall|i: int|
            0 <= i < f.len() ==> (#[trigger] e@[i]).0@ == f[i].0 && e@[i].1@ == f[i].1,
        _ => false,
    }
    &&& pair_views(p.labels@) == managed_label_pairs(Some(p.name@))
    &&& pair_views(p.selector@) == seq![("app"@, p.name@)]
    &&& p.container_name@ == p.name@
}

/// The first missing argument among `keys`, if any.
pub open spec fn first_missing(args: Seq<(String, ArgValue)>, keys: Seq<Seq<char>>) -> Option<Seq<char>>
    decreases keys.len(),
{
    if keys.len() == 0 {
        None
    } else if arg_text(args, keys[0]) is None {
        Some(keys[0])
    } else {
        first_missing(args, keys.drop_first())
    }
}

/// The environment variables given as an object of names to values: each
/// value as text, empty when it is not text; `None` without such an object.
pub fn env_from_args(args: &Vec<(String, ArgValue)>) -> (r: Option<Vec<(String, String)>>)
    ensures
        match (r, env_of(args@)) {
            (None, None) => true,
            (Some(e), Some(f)) => e@.len() == f.len() && forall|i: int|
                0 <= i < f.len() ==> (#[trigger] e@[i]).0@ == f[i].0 && e@[i].1@ == f[i].1,
            _ => false,
        },
{
    proof {
        reveal_strlit("env");
    }
    match find_arg(args, "env") {
        Some(ArgValue::Object(members)) => {
            let mut out: Vec<(String, String)> = Vec::new();
            let n = members.len();
            for i in 0..n
                invariant
                    n == members@.len(),
                    out@.len() == i,
                    forall|j: int|
                        0 <= j < i ==> (#[trigger] out@[j]).0@ == members@[j].0@ && out@[j].1@ == (
                        match members@[j].1 {
                            Some(v) => v@,
                            None => Seq::empty(),
                        }),
            {
                let value = match &members[i].1 {
                    Some(v) => v.clone(),
                    None => String::new(),
                };
                out.push((members[i].0.clone(), value));
            }
            Some(out)
        },
        _ => None,
    }
}

/// What `create_deployment` creates, or the refusal of its arguments.
pub fn deployment_plan(args: &Vec<(String, ArgValue)>) -> (r: Result<DeploymentPlan, String>)
    ensures
        match r {
            Ok(p) => deployment_plan_ok(p, args@),
            Err(e) => first_missing(args@, seq!["namespace"@, "name"@, "image"@]) matches Some(k)
                && e@ == required_text(k),
        },
{
    proof {
        reveal_with_fuel(first_missing, 6);
        reveal_strlit("namespace");
        reveal_strlit("name");
        reveal_strlit("image");
        reveal_strlit("replicas");
        reveal_strlit("port");
        let keys = seq!["namespace"@, "name"@, "image"@];
        assert(keys.drop_first() =~= seq!["name"@, "image"@]);
        assert(keys.drop_first().drop_first() =~= seq!["image"@]);
        assert(keys.drop_first().drop_first().drop_first() =~= Seq::<Seq<char>>::empty());
    }
    let namespace = match require_str(args, "namespace") {
        Ok(v) => v,
        Err(e) => return Err(e),
    };
    let name = match require_str(args, "name") {
        Ok(v) => v,
        Err(e) => return Err(e),
    };
    let image = match require_str(args, "image") {
        Ok(v) => v,
        Err(e) => return Err(e),
    };
    let replicas: i32 = match get_int(args, "replicas") {
        Some(n) => #[verifier::truncate] (n as i32),
        None => 1,
    };
    let port: Option<i32> = match get_int(args, "port") {
        Some(n) => Some(#[verifier::truncate] (n as i32)),
        None => None,
    };
    Ok(
        DeploymentPlan {
            namespace: String::from_str(namespace),
            name: String::from_str(name),
            image: String::from_str(image),
            replicas,
            port,
            env: env_from_args(args),
            labels: managed_labels(Some(name)),
            selector: app_selector(name),
            container_name: String::from_str(name),
        },
    )
}

/// A service to create: TCP from `port` to `target_port` of the pods labelled `app=<name>`.
#[derive(Clone, Debug)]
pub struct ServicePlan {
    pub namespace: String,
    pub name: String,
    pub port: i32,
    pub target_port: i32,
}

/// What `create_service` creates, or the refusal of its arguments:
/// `namespace` and `name` are required; `port` defaults to 80 and
/// `target_port` to the port.
pub fn service_plan(args: &Vec<(String, ArgValue)>) -> (r: Result<ServicePlan, String>)
    ensures
        match r {
            Ok(p) => {
                &&& arg_text(args@, "namespace"@) == Some(p.namespace@)
                &&& arg_text(args@, "name"@) == Some(p.name@)
                &&& p.port == (match arg_int(args@, "port"@) {
                    Some(n) => #[verifier::truncate] (n as i32),
                    None => 80i32,
                })
                &&& p.target_port == (match arg_int(args@, "target_port"@) {
                    Some(n) => #[verifier::truncate] (n as i32),
                    None => p.port,
                })
            },
            Err(e) => first_missing(args@, seq!["namespace"@, "name"@]) matches Some(k) && e@
                == required_text(k),
        },
{
    proof {
        reveal_with_fuel(first_missing, 6);
        reveal_strlit("namespace");
        reveal_strlit("name");
        reveal_strlit("port");
        reveal_strlit("target_port");
        let keys = seq!["namespace"@, "name"@];
        assert(keys.drop_first() =~= seq!["name"@]);
        assert(keys.drop_first().drop_first() =~= Seq::<Seq<char>>::empty());
    }
    let namespace = match require_str(args, "namespace") {
        Ok(v) => v,
        Err(e) => return Err(e),
    };
    let name = match require_str(args, "name") {
        Ok(v) => v,
        Err(e) => return Err(e),
    };
    let port: i32 = match get_int(args, "port") {
        Some(n) => #[verifier::truncate] (n as i32),
        None => 80,
    };
    let target_port: i32 = match get_int(args, "target_port") {
        Some(n) => #[verifier::truncate] (n as i32),
        None => port,
    };
    Ok(ServicePlan { namespace: String::from_str(namespace), name: String::from_str(name), port, target_port })
}

/// An ingress to create or to patch: one rule routing `path` to a service port.
#[derive(Clone, Debug)]
pub struct IngressPlan {
    pub namespace: String,
    pub name: String,
    pub service_name: String,
    pub service_port: i32,
    pub path: String,
    pub path_type: String,
    pub host: Option<String>,
    pub ingress_class: Option<String>,
    /// The annotations, when given as an object whose members are all text.
    pub annotations: Option<Vec<(String, String)>>,
}

/// The annotations argument, when it is an object whose members are all text.
pub open spec fn annotations_of(args: Seq<(String, ArgValue)>) -> Option<Seq<(Seq<char>, Seq<char>)>> {
    match arg_value(args, "annotations"@) {
        Some(ArgValue::Object(members)) => if forall|i: int|
            0 <= i < members@.len() ==> (#[trigger] members@[i]).1 is Some {
            Some(Seq::new(members@.len(), |i: int| (members@[i].0@, members@[i].1->0@)))
        } else {
            None
        },
        _ => None,
    }
}

fn annotation_pairs(args: &Vec<(String, ArgValue)>) -> (r: Option<Vec<(String, String)>>)
    ensures
        match (r, annotations_of(args@)) {
            (None, None) => true,
            (Some(e), Some(f)) => e@.len() == f.len() && forall|i: int|
                0 <= i < f.len() ==> (#[trigger] e@[i]).0@ == f[i].0 && e@[i].1@ == f[i].1,
            _ => false,
        },
{
    proof {
        reveal_strlit("annotations");
    }
    match find_arg(args, "annotations") {
        Some(ArgValue::Object(members)) => {
            let mut out: Vec<(String, String)> = Vec::new();
            let n = members.len();
            for i in 0..n
                invariant
                    n == members@.len(),
                    out@.len() == i,
                    arg_value(args@, "annotations"@) matches Some(ArgValue::Object(m)) && m@ == members@,
                    forall|j: int| 0 <= j < i ==> (#[trigger] members@[j]).1 is Some,
                    forall|j: int|
                        0 <= j < i ==> (#[trigger] out@[j]).0@ == members@[j].0@ && out@[j].1@
                            == members@[j].1->0@,
            {
                match &members[i].1 {
                    Some(v) => out.push((members[i].0.clone(), v.clone())),
                    None => {
                        proof {
                            let k = i as int;
                            assert(members@[k].1 is None);
                            assert(!(forall|j: int|
                                0 <= j < members@.len() ==> (#[trigger] members@[j]).1 is Some));
                            assert(arg_value(args@, "annotations"@) matches Some(ArgValue::Object(m))
                                && m@ == members@);
                            assert(annotations_of(args@) is None);
                        }
                        return None;
                    },
                }
            }
            Some(out)
        },
        _ => None,
    }
}

/// Reading the arguments of `create_ingress` and `update_ingress`:
/// `namespace`, `name` and `service_name` are required; `service_port`
/// defaults to 80, `path` to `/` and `path_type` to `Prefix`.
pub open spec fn ingress_plan_ok(p: IngressPlan, args: Seq<(String, ArgValue)>) -> bool {
    &&& arg_text(args, "namespace"@) == Some(p.namespace@)
    &&& arg_text(args, "name"@) == Some(p.name@)
    &&& arg_text(args, "service_name"@) == Some(p.service_name@)
    &&& p.service_port == (match arg_int(args, "service_port"@) {
        Some(n) => #[verifier::truncate] (n as i32),
        None => 80i32,
    })
    &&& p.path@ == (match arg_text(args, "path"@) {
        Some(t) => t,
        None => "/"@,
    })
    &&& p.path_type@ == (match arg_text(args, "path_type"@) {
        Some(t) => t,
        None => "Prefix"@,
    })
    &&& opt_view(p.host) == arg_text(args, "host"@)
    &&& opt_view(p.ingress_class) == arg_text(args, "ingress_class"@)
    &&& match (p.annotations, annotations_of(args)) {
        (None, None) => true,
        (Some(e), Some(f)) => e@.len() == f.len() && forall|i: int|
            0 <= i < f.len() ==> (#[trigger] e@[i]).0@ == f[i].0 && e@[i].1@ == f[i].1,
        _ => false,
    }
}

fn opt_string(s: Option<&str>) -> (r: Option<String>)
    ensures
        opt_view(r) == (match s {
            Some(t) => Some(t@),
            None => None,
        }),
{
    match s {
        Some(t) => Some(String::from_str(t)),
        None => None,
    }
}

/// What `create_ingress` and `update_ingress` write, or the refusal of their arguments.
pub fn ingress_plan(args: &Vec<(String, ArgValue)>) -> (r: Result<IngressPlan, String>)
    ensures
        match r {
            Ok(p) => ingress_plan_ok(p, args@),
            Err(e) => first_missing(args@, seq!["namespace"@, "name"@, "service_name"@]) matches Some(k)
                && e@ == required_text(k),
        },
{
    proof {
        reveal_with_fuel(first_missing, 6);
        reveal_strlit("namespace");
        reveal_strlit("name");
        reveal_strlit("service_name");
        reveal_strlit("service_port");
        reveal_strlit("path");
        reveal_strlit("path_type");
        reveal_strlit("host");
        reveal_strlit("ingress_class");
        reveal_strlit("/");
        reveal_strlit("Prefix");
        let keys = seq!["namespace"@, "name"@, "service_name"@];
        assert(keys.drop_first() =~= seq!["name"@, "service_name"@]);
        assert(keys.drop_first().drop_first() =~= seq!["service_name"@]);
        assert(keys.drop_first().drop_first().drop_first() =~= Seq::<Seq<char>>::empty());
    }
    let namespace = match require_str(args, "namespace") {
        Ok(v) => v,
        Err(e) => return Err(e),
    };
    let name = match require_str(args, "name") {
        Ok(v) => v,
        Err(e) => return Err(e),
    };
    let service_name = match require_str(args, "service_name") {
        Ok(v) => v,
        Err(e) => return Err(e),
    };
    let service_port: i32 = match get_int(args, "service_port") {
        Some(n) => #[verifier::truncate] (n as i32),
        None => 80,
    };
    let path = match get_str(args, "path") {
        Some(p) => String::from_str(p),
        None => String::from_str("/"),
    };
    let path_type = match get_str(args, "path_type") {
        Some(p) => String::from_str(p),
        None => String::from_str("Prefix"),
    };
    Ok(
        IngressPlan {
            namespace: String::from_str(namespace),
            name: String::from_str(name),
            service_name: String::from_str(service_name),
            service_port,
            path,
            path_type,
            host: opt_string(get_str(args, "host")),
            ingress_class: opt_string(get_str(args, "ingress_class")),
            annotations: annotation_pairs(args),
        },
    )
}

/// An autoscaler to create.
#[derive(Clone, Debug)]
pub struct HpaPlan {
    pub namespace: String,
    pub name: String,
    pub scale_target_kind: String,
    pub scale_target_name: String,
    pub scale_target_api_version: String,
    pub min_replicas: i32,
    pub max_replicas: i32,
    /// The average CPU utilisation to aim for, in percent, if given.
    pub target_cpu_utilization: Option<i32>,
    /// The autoscaler's labels: the managed-by mark.
    pub labels: Vec<(String, String)>,
}

/// The first required argument of `create_hpa` that is missing, in the order checked.
pub open spec fn hpa_missing(args: Seq<(String, ArgValue)>) -> Option<Seq<char>> {
    match first_missing(
        args,
        seq![
            "namespace"@,
            "name"@,
            "scale_target_kind"@,
            "scale_target_name"@,
            "scale_target_api_version"@,
        ],
    ) {
        Some(k) => Some(k),
        None => if arg_int(args, "min_replicas"@) is None {
            Some("min_replicas"@)
        } else if arg_int(args, "max_replicas"@) is None {
            Some("max_replicas"@)
        } else {
            None
        },
    }
}

/// What `create_hpa` creates, or the refusal of its arguments: the names,
/// target and both replica bounds are required; numbers are taken as 32-bit.
pub fn hpa_plan(args: &Vec<(String, ArgValue)>) -> (r: Result<HpaPlan, String>)
    ensures
        match r {
            Ok(p) => {
                &&& hpa_missing(args@) is None
                &&& arg_text(args@, "namespace"@) == Some(p.namespace@)
                &&& arg_text(args@, "name"@) == Some(p.name@)
                &&& arg_text(args@, "scale_target_kind"@) == Some(p.scale_target_kind@)
                &&& arg_text(args@, "scale_target_name"@) == Some(p.scale_target_name@)
                &&& arg_text(args@, "scale_target_api_version"@) == Some(p.scale_target_api_version@)
                &&& p.min_replicas == #[verifier::truncate] (arg_int(args@, "min_replicas"@)->0 as i32)
                &&& p.max_replicas == #[verifier::truncate] (arg_int(args@, "max_replicas"@)->0 as i32)
                &&& p.target_cpu_utilization == (match arg_int(args@, "target_cpu_utilization"@) {
                    Some(n) => Some(#[verifier::truncate] (n as i32)),
                    None => None,
                })
                &&& pair_views(p.labels@) == managed_label_pairs(None)
            },
            Err(e) => hpa_missing(args@) matches Some(k) && e@ == required_text(k),
        },
{
    proof {
        reveal_with_fuel(first_missing, 6);
        reveal_strlit("namespace");
        reveal_strlit("name");
        reveal_strlit("scale_target_kind");
        reveal_strlit("scale_target_name");
        reveal_strlit("scale_target_api_version");
        reveal_strlit("min_replicas");
        reveal_strlit("max_replicas");
        reveal_strlit("target_cpu_utilization");
        reveal_strlit(" is required");
        let keys = seq![
            "namespace"@,
            "name"@,
            "scale_target_kind"@,
            "scale_target_name"@,
            "scale_target_api_version"@,
        ];
        assert(keys.drop_first() =~= seq![
            "name"@,
            "scale_target_kind"@,
            "scale_target_name"@,
            "scale_target_api_version"@,
        ]);
        assert(keys.drop_first().drop_first() =~= seq![
            "scale_target_kind"@,
            "scale_target_name"@,
            "scale_target_api_version"@,
        ]);
        assert(keys.drop_first().drop_first().drop_first() =~= seq![
            "scale_target_name"@,
            "scale_target_api_version"@,
        ]);
        assert(keys.drop_first().drop_first().drop_first().drop_first() =~= seq![
            "scale_target_api_version"@,
        ]);
        assert(keys.drop_first().drop_first().drop_first().drop_first().drop_first()
            =~= Seq::<Seq<char>>::empty());
    }
    let namespace = match require_str(args, "namespace") {
        Ok(v) => v,
        Err(e) => return Err(e),
    };
    let name = match require_str(args, "name") {
        Ok(v) => v,
        Err(e) => return Err(e),
    };
    let kind = match require_str(args, "scale_target_kind") {
        Ok(v) => v,
        Err(e) => return Err(e),
    };
    let target = match require_str(args, "scale_target_name") {
        Ok(v) => v,
        Err(e) => return Err(e),
    };
    let version = match require_str(args, "scale_target_api_version") {
        Ok(v) => v,
        Err(e) => return Err(e),
    };
    let min_replicas: i32 = match get_int(args, "min_replicas") {
        Some(n) => #[verifier::truncate] (n as i32),
        None => {
            let mut m = String::from_str("min_replicas");
            m.append(" is required");
            return Err(m);
        },
    };
    let max_replicas: i32 = match get_int(args, "max_replicas") {
        Some(n) => #[verifier::truncate] (n as i32),
        None => {
            let mut m = String::from_str("max_replicas");
            m.append(" is required");
            return Err(m);
        },
    };
    let target_cpu_utilization: Option<i32> = match get_int(args, "target_cpu_utilization") {
        Some(n) => Some(#[verifier::truncate] (n as i32)),
        None => None,
    };
    Ok(
        HpaPlan {
            namespace: String::from_str(namespace),
            name: String::from_str(name),
            scale_target_kind: String::from_str(kind),
            scale_target_name: String::from_str(target),
            scale_target_api_version: String::from_str(version),
            min_replicas,
            max_replicas,
            target_cpu_utilization,
            labels: managed_labels(None),
        },
    )
}

/// The texts of a list argument when every item is text (what reading it as
/// a list of strings accepts); `None` otherwise or when it is not a list.
pub open spec fn arg_text_list(args: Seq<(String, ArgValue)>, key: Seq<char>) -> Option<Seq<Seq<char>>> {
    match arg_value(args, key) {
        Some(ArgValue::Array(items)) => if forall|i: int|
            0 <= i < items@.len() ==> (#[trigger] items@[i]) is Str {
            Some(Seq::new(items@.len(), |i: int| items@[i]->Str_0@))
        } else {
            None
        },
        _ => None,
    }
}

/// The texts of a list argument when every item is text.
pub fn get_text_list(args: &Vec<(String, ArgValue)>, key: &str) -> (r: Option<Vec<String>>)
    ensures
        match (r, arg_text_list(args@, key@)) {
            (None, None) => true,
            (Some(v), Some(t)) => crate::model::texts(v@) == t,
            _ => false,
        },
{
    match find_arg(args, key) {
        Some(ArgValue::Array(items)) => {
            let mut out: Vec<String> = Vec::new();
            let n = items.len();
            for i in 0..n
                invariant
                    n == items@.len(),
                    arg_value(args@, key@) matches Some(ArgValue::Array(m)) && m@ == items@,
                    out@.len() == i,
                    forall|j: int| 0 <= j < i ==> (#[trigger] items@[j]) is Str,
                    forall|j: int| 0 <= j < i ==> #[trigger] out@[j]@ == items@[j]->Str_0@,
            {
                match &items[i] {
                    ArgItem::Str(t) => out.push(t.clone()),
                    _ => {
                        proof {
                            let k = i as int;
                            assert(!(items@[k] is Str));
                            assert(!(forall|j: int| 0 <= j < items@.len() ==> (#[trigger] items@[j]) is Str));
                        }
                        return None;
                    },
                }
            }
            proof {
                assert(crate::model::texts(out@) =~= Seq::new(items@.len(), |i: int| items@[i]->Str_0@));
            }
            Some(out)
        },
        _ => None,
    }
}

/// A job to run: one container; the pod restarts `Never` and the job retries
/// 6 times unless told otherwise.
#[derive(Clone, Debug)]
pub struct JobPlan {
    pub namespace: String,
    pub name: String,
    pub image: String,
    pub command: Option<Vec<String>>,
    pub restart_policy: String,
    pub backoff_limit: i32,
}

/// What `create_job` creates, or the refusal of its arguments.
pub fn job_plan(args: &Vec<(String, ArgValue)>) -> (r: Result<JobPlan, String>)
    ensures
        match r {
            Ok(p) => {
                &&& arg_text(args@, "namespace"@) == Some(p.namespace@)
                &&& arg_text(args@, "name"@) == Some(p.name@)
                &&& arg_text(args@, "image"@) == Some(p.image@)
                &&& match (p.command, arg_text_list(args@, "command"@)) {
                    (None, None) => true,
                    (Some(c), Some(t)) => crate::model::texts(c@) == t,
                    _ => false,
                }
                &&& p.restart_policy@ == (match arg_text(args@, "restart_policy"@) {
                    Some(t) => t,
                    None => "Never"@,
                })
                &&& p.backoff_limit == (match arg_int(args@, "backoff_limit"@) {
                    Some(n) => #[verifier::truncate] (n as i32),
                    None => 6i32,
                })
            },
            Err(e) => first_missing(args@, seq!["namespace"@, "name"@, "image"@]) matches Some(k)
                && e@ == required_text(k),
        },
{
    proof {
        reveal_with_fuel(first_missing, 6);
        reveal_strlit("namespace");
        reveal_strlit("name");
        reveal_strlit("image");
        reveal_strlit("command");
        reveal_strlit("restart_policy");
        reveal_strlit("backoff_limit");
        reveal_strlit("Never");
    }
    let namespace = match require_str(args, "namespace") {
        Ok(v) => v,
        Err(e) => return Err(e),
    };
    let name = match require_str(args, "name") {
        Ok(v) => v,
        Err(e) => return Err(e),
    };
    let image = match require_str(args, "image") {
        Ok(v) => v,
        Err(e) => return Err(e),
    };
    let restart_policy = match get_str(args, "restart_policy") {
        Some(t) => String::from_str(t),
        None => String::from_str("Never"),
    };
    let backoff_limit: i32 = match get_int(args, "backoff_limit") {
        Some(n) => #[verifier::truncate] (n as i32),
        None => 6,
    };
    Ok(
        JobPlan {
            namespace: String::from_str(namespace),
            name: String::from_str(name),
            image: String::from_str(image),
            command: get_text_list(args, "command"),
            restart_policy,
            backoff_limit,
        },
    )
}

/// A cron job to create: one container run on `schedule`; the pod restarts
/// `OnFailure` unless told otherwise.
#[derive(Clone, Debug)]
pub struct CronJobPlan {
    pub namespace: String,
    pub name: String,
    pub schedule: String,
    pub image: String,
    pub command: Option<Vec<String>>,
    pub restart_policy: String,
}

/// What `create_cronjob` creates, or the refusal of its arguments.
pub fn cronjob_plan(args: &Vec<(String, ArgValue)>) -> (r: Result<CronJobPlan, String>)
    ensures
        match r {
            Ok(p) => {
                &&& arg_text(args@, "namespace"@) == Some(p.namespace@)
                &&& arg_text(args@, "name"@) == Some(p.name@)
                &&& arg_text(args@, "schedule"@) == Some(p.schedule@)
                &&& arg_text(args@, "image"@) == Some(p.image@)
                &&& match (p.command, arg_text_list(args@, "command"@)) {
                    (None, None) => true,
                    (Some(c), Some(t)) => crate::model::texts(c@) == t,
                    _ => false,
                }
                &&& p.restart_policy@ == (match arg_text(args@, "restart_policy"@) {
                    Some(t) => t,
                    None => "OnFailure"@,
                })
            },
            Err(e) => first_missing(args@, seq!["namespace"@, "name"@, "schedule"@, "image"@]) matches Some(
                k,
            ) && e@ == required_text(k),
        },
{
    proof {
        reveal_with_fuel(first_missing, 6);
        reveal_strlit("namespace");
        reveal_strlit("name");
        reveal_strlit("schedule");
        reveal_strlit("image");
        reveal_strlit("command");
        reveal_strlit("restart_policy");
        reveal_strlit("OnFailure");
    }
    let namespace = match require_str(args, "namespace") {
        Ok(v) => v,
        Err(e) => return Err(e),
    };
    let name = match require_str(args, "name") {
        Ok(v) => v,
        Err(e) => return Err(e),
    };
    let schedule = match require_str(args, "schedule") {
        Ok(v) => v,
        Err(e) => return Err(e),
    };
    let image = match require_str(args, "image") {
        Ok(v) => v,
        Err(e) => return Err(e),
    };
    let restart_policy = match get_str(args, "restart_policy") {
        Some(t) => String::from_str(t),
        None => String::from_str("OnFailure"),
    };
    Ok(
        CronJobPlan {
            namespace: String::from_str(namespace),
            name: String::from_str(name),
            schedule: String::from_str(schedule),
            image: String::from_str(image),
            command: get_text_list(args, "command"),
            restart_policy,
        },
    )
}

/// A daemon set to create: one container, optionally exposing a port.
#[derive(Clone, Debug)]
pub struct DaemonSetPlan {
    pub namespace: String,
    pub name: String,
    pub image: String,
    pub port: Option<i32>,
}

/// What `create_daemonset` creates, or the refusal of its arguments.
pub fn daemonset_plan(args: &Vec<(String, ArgValue)>) -> (r: Result<DaemonSetPlan, String>)
    ensures
        match r {
            Ok(p) => {
                &&& arg_text(args@, "namespace"@) == Some(p.namespace@)
                &&& arg_text(args@, "name"@) == Some(p.name@)
                &&& arg_text(args@, "image"@) == Some(p.image@)
                &&& p.port == (match arg_int(args@, "port"@) {
                    Some(n) => Some(#[verifier::truncate] (n as i32)),
                    None => None,
                })
            },
            Err(e) => first_missing(args@, seq!["namespace"@, "name"@, "image"@]) matches Some(k)
                && e@ == required_text(k),
        },
{
    proof {
        reveal_with_fuel(first_missing, 6);
        reveal_strlit("namespace");
        reveal_strlit("name");
        reveal_strlit("image");
        reveal_strlit("port");
    }
    let namespace = match require_str(args, "namespace") {
        Ok(v) => v,
        Err(e) => return Err(e),
    };
    let name = match require_str(args, "name") {
        Ok(v) => v,
        Err(e) => return Err(e),
    };
    let image = match require_str(args, "image") {
        Ok(v) => v,
        Err(e) => return Err(e),
    };
    let port: Option<i32> = match get_int(args, "port") {
        Some(n) => Some(#[verifier::truncate] (n as i32)),
        None => None,
    };
    Ok(DaemonSetPlan { namespace: String::from_str(namespace), name: String::from_str(name), image: String::from_str(image), port })
}

/// The text of member `key` of an object, when it is text.
pub open spec fn member_text(members: Seq<(String, Option<String>)>, key: Seq<char>) -> Option<Seq<char>>
    decreases members.len(),
{
    if members.len() == 0 {
        None
    } else if members[0].0@ == key {
        match members[0].1 {
            Some(t) => Some(t@),
            None => None,
        }
    } else {
        member_text(members.drop_first(), key)
    }
}

/// The text of member `key` of an object, when it is text.
pub fn get_member<'a>(members: &'a Vec<(String, Option<String>)>, key: &str) -> (r: Option<&'a str>)
    ensures
        match r {
            Some(t) => member_text(members@, key@) == Some(t@),
            None => member_text(members@, key@) is None,
        },
{
    let n = members.len();
    let mut i: usize = 0;
    proof {
        assert(members@.skip(0) =~= members@);
    }
    while i < n
        invariant
            n == members@.len(),
            i <= n,
            member_text(members@, key@) == member_text(members@.skip(i as int), key@),
        decreases n - i,
    {
        proof {
            assert(members@.skip(i as int).drop_first() =~= members@.skip(i + 1));
            assert(members@.skip(i as int)[0] == members@[i as int]);
        }
        if str_eq(members[i].0.as_str(), key) {
            return match &members[i].1 {
                Some(t) => Some(t.as_str()),
                None => None,
            };
        }
        i = i + 1;
    }
    None
}

/// A subject of a binding to create.
#[derive(Clone, Debug)]
pub struct SubjectPlan {
    pub kind: String,
    pub name: String,
    pub namespace: Option<String>,
    pub api_group: String,
}

/// A cluster role binding to create.
#[derive(Clone, Debug)]
pub struct ClusterRoleBindingPlan {
    pub name: String,
    pub role_ref_kind: String,
    pub role_ref_name: String,
    pub role_ref_api_group: String,
    pub subjects: Vec<SubjectPlan>,
}

/// The members of an object argument, none when it is something else.
pub open spec fn object_members(v: ArgValue) -> Seq<(String, Option<String>)> {
    match v {
        ArgValue::Object(m) => m@,
        _ => Seq::empty(),
    }
}

/// The members of a list item, none when it is not an object.
pub open spec fn item_members(v: ArgItem) -> Seq<(String, Option<String>)> {
    match v {
        ArgItem::Object(m) => m@,
        _ => Seq::empty(),
    }
}

/// A subject as the binding tool reads it: `kind` defaults to `User` and
/// `name` to empty; service accounts belong to the core API group, all other
/// kinds to the RBAC group.
pub open spec fn subject_ok(out: SubjectPlan, members: Seq<(String, Option<String>)>) -> bool {
    let kind = match member_text(members, "kind"@) {
        Some(k) => k,
        None => "User"@,
    };
    &&& out.kind@ == kind
    &&& out.name@ == (match member_text(members, "name"@) {
        Some(n) => n,
        None => Seq::empty(),
    })
    &&& opt_view(out.namespace) == member_text(members, "namespace"@)
    &&& out.api_group@ == if kind == "ServiceAccount"@ {
        Seq::<char>::empty()
    } else {
        "rbac.authorization.k8s.io"@
    }
}

/// The first refusal of `create_clusterrolebinding`'s arguments, if any.
pub open spec fn binding_refusal(args: Seq<(String, ArgValue)>) -> Option<Seq<char>> {
    if arg_text(args, "name"@) is None {
        Some("name is required"@)
    } else if arg_value(args, "role_ref"@) is None {
        Some("role_ref is required"@)
    } else if member_text(object_members(arg_value(args, "role_ref"@)->0), "kind"@) is None {
        Some("role_ref.kind is required"@)
    } else if member_text(object_members(arg_value(args, "role_ref"@)->0), "name"@) is None {
        Some("role_ref.name is required"@)
    } else if !(arg_value(args, "subjects"@) matches Some(ArgValue::Array(_))) {
        Some("subjects is required and must be an array"@)
    } else {
        None
    }
}

fn subject_plan(members: &Vec<(String, Option<String>)>) -> (r: SubjectPlan)
    ensures
        subject_ok(r, members@),
{
    proof {
        reveal_strlit("kind");
        reveal_strlit("name");
        reveal_strlit("namespace");
        reveal_strlit("User");
        reveal_strlit("ServiceAccount");
        reveal_strlit("rbac.authorization.k8s.io");
        reveal_strlit("");
    }
    let kind: &str = match get_member(members, "kind") {
        Some(k) => k,
        None => "User",
    };
    let name = match get_member(members, "name") {
        Some(n) => String::from_str(n),
        None => String::new(),
    };
    let api_group = if str_eq(kind, "ServiceAccount") {
        String::new()
    } else {
        String::from_str("rbac.authorization.k8s.io")
    };
    SubjectPlan {
        kind: String::from_str(kind),
        name,
        namespace: opt_string(get_member(members, "namespace")),
        api_group,
    }
}

/// What `create_clusterrolebinding` creates, or the refusal of its arguments:
/// the role reference's API group defaults to the RBAC group.
pub fn clusterrolebinding_plan(args: &Vec<(String, ArgValue)>) -> (r: Result<ClusterRoleBindingPlan, String>)
    ensures
        match r {
            Ok(p) => {
                &&& binding_refusal(args@) is None
                &&& arg_text(args@, "name"@) == Some(p.name@)
                &&& Some(p.role_ref_kind@) == member_text(object_members(arg_value(args@, "role_ref"@)->0), "kind"@)
                &&& Some(p.role_ref_name@) == member_text(object_members(arg_value(args@, "role_ref"@)->0), "name"@)
                &&& p.role_ref_api_group@ == (match member_text(object_members(arg_value(args@, "role_ref"@)->0), "api_group"@) {
                    Some(g) => g,
                    None => "rbac.authorization.k8s.io"@,
                })
                &&& arg_value(args@, "subjects"@) matches Some(ArgValue::Array(items)) && p.subjects@.len()
                    == items@.len() && forall|i: int|
                    0 <= i < items@.len() ==> subject_ok(#[trigger] p.subjects@[i], item_members(items@[i]))
            },
            Err(e) => binding_refusal(args@) == Some(e@),
        },
{
    proof {
        reveal_strlit("name");
        reveal_strlit("kind");
        reveal_strlit("role_ref");
        reveal_strlit("api_group");
        reveal_strlit("subjects");
        reveal_strlit("name is required");
        reveal_strlit(" is required");
        reveal_strlit("role_ref is required");
        reveal_strlit("role_ref.kind is required");
        reveal_strlit("role_ref.name is required");
        reveal_strlit("subjects is required and must be an array");
        reveal_strlit("rbac.authorization.k8s.io");
    }
    let name = match require_str(args, "name") {
        Ok(v) => v,
        Err(e) => return Err(e),
    };
    let role_ref = match find_arg(args, "role_ref") {
        Some(v) => v,
        None => return Err(String::from_str("role_ref is required")),
    };
    let empty: Vec<(String, Option<String>)> = Vec::new();
    let members: &Vec<(String, Option<String>)> = match role_ref {
        ArgValue::Object(m) => m,
        _ => &empty,
    };
    proof {
        assert(members@ == object_members(arg_value(args@, "role_ref"@)->0));
    }
    let kind = match get_member(members, "kind") {
        Some(k) => k,
        None => return Err(String::from_str("role_ref.kind is required")),
    };
    let ref_name = match get_member(members, "name") {
        Some(n) => n,
        None => return Err(String::from_str("role_ref.name is required")),
    };
    let api_group = match get_member(members, "api_group") {
        Some(g) => String::from_str(g),
        None => String::from_str("rbac.authorization.k8s.io"),
    };
    let items = match find_arg(args, "subjects") {
        Some(ArgValue::Array(items)) => items,
        _ => return Err(String::from_str("subjects is required and must be an array")),
    };
    let mut subjects: Vec<SubjectPlan> = Vec::new();
    let n = items.len();
    for i in 0..n
        invariant
            n == items@.len(),
            subjects@.len() == i,
            forall|j: int| 0 <= j < i ==> subject_ok(#[trigger] subjects@[j], item_members(items@[j])),
    {
        let empty_item: Vec<(String, Option<String>)> = Vec::new();
        let m: &Vec<(String, Option<String>)> = match &items[i] {
            ArgItem::Object(m) => m,
            _ => &empty_item,
        };
        subjects.push(subject_plan(m));
    }
    Ok(
        ClusterRoleBindingPlan {
            name: String::from_str(name),
            role_ref_kind: String::from_str(kind),
            role_ref_name: String::from_str(ref_name),
            role_ref_api_group: api_group,
            subjects,
        },
    )
}

/// A change to a deployment: any of a new image, replica count and environment.
#[derive(Clone, Debug)]
pub struct DeploymentUpdatePlan {
    pub namespace: String,
    pub name: String,
    pub image: Option<String>,
    pub replicas: Option<i32>,
    pub env: Option<Vec<(String, String)>>,
}

/// The refusal of an update that changes nothing.
pub open spec fn nothing_to_update_text() -> Seq<char> {
    "At least one of 'image', 'replicas', or 'env' must be provided"@
}

/// What `update_deployment` changes, or the refusal of its arguments: the
/// names are required, and at least one of image, replicas and env.
pub fn deployment_update_plan(args: &Vec<(String, ArgValue)>) -> (r: Result<DeploymentUpdatePlan, String>)
    ensures
        match r {
            Ok(p) => {
                &&& arg_text(args@, "namespace"@) == Some(p.namespace@)
                &&& arg_text(args@, "name"@) == Some(p.name@)
                &&& opt_view(p.image) == arg_text(args@, "image"@)
                &&& p.replicas == (match arg_int(args@, "replicas"@) {
                    Some(n) => Some(#[verifier::truncate] (n as i32)),
                    None => None,
                })
                &&& match (p.env, env_of(args@)) {
                    (None, None) => true,
                    (Some(e), Some(f)) => e@.len() == f.len() && forall|i: int|
                        0 <= i < f.len() ==> (#[trigger] e@[i]).0@ == f[i].0 && e@[i].1@ == f[i].1,
                    _ => false,
                }
                &&& !(p.image is None && p.replicas is None && p.env is None)
            },
            Err(e) => match first_missing(args@, seq!["namespace"@, "name"@]) {
                Some(k) => e@ == required_text(k),
                None => e@ == nothing_to_update_text() && arg_text(args@, "image"@) is None
                    && arg_int(args@, "replicas"@) is None && env_of(args@) is None,
            },
        },
{
    proof {
        reveal_with_fuel(first_missing, 4);
        reveal_strlit("namespace");
        reveal_strlit("name");
        reveal_strlit("image");
        reveal_strlit("replicas");
        reveal_strlit("At least one of 'image', 'replicas', or 'env' must be provided");
    }
    let namespace = match require_str(args, "namespace") {
        Ok(v) => v,
        Err(e) => return Err(e),
    };
    let name = match require_str(args, "name") {
        Ok(v) => v,
        Err(e) => return Err(e),
    };
    let image = opt_string(get_str(args, "image"));
    let replicas: Option<i32> = match get_int(args, "replicas") {
        Some(n) => Some(#[verifier::truncate] (n as i32)),
        None => None,
    };
    let env = env_from_args(args);
    if image.is_none() && replicas.is_none() && env.is_none() {
        return Err(String::from_str("At least one of 'image', 'replicas', or 'env' must be provided"));
    }
    Ok(DeploymentUpdatePlan { namespace: String::from_str(namespace), name: String::from_str(name), image, replicas, env })
}

/// A new replica count for a deployment.
#[derive(Clone, Debug)]
pub struct ScalePlan {
    pub namespace: String,
    pub name: String,
    pub replicas: i32,
}

/// What `scale_deployment` sets, or the refusal of its arguments.
pub fn scale_plan(args: &Vec<(String, ArgValue)>) -> (r: Result<ScalePlan, String>)
    ensures
        match r {
            Ok(p) => {
                &&& arg_text(args@, "namespace"@) == Some(p.namespace@)
                &&& arg_text(args@, "name"@) == Some(p.name@)
                &&& arg_int(args@, "replicas"@) matches Some(n) && p.replicas == #[verifier::truncate] (n as i32)
            },
            Err(e) => match first_missing(args@, seq!["namespace"@, "name"@]) {
                Some(k) => e@ == required_text(k),
                None => arg_int(args@, "replicas"@) is None && e@ == required_text("replicas"@),
            },
        },
{
    proof {
        reveal_with_fuel(first_missing, 4);
        reveal_strlit("namespace");
        reveal_strlit("name");
        reveal_strlit("replicas");
        reveal_strlit(" is required");
    }
    let namespace = match require_str(args, "namespace") {
        Ok(v) => v,
        Err(e) => return Err(e),
    };
    let name = match require_str(args, "name") {
        Ok(v) => v,
        Err(e) => return Err(e),
    };
    let replicas: i32 = match get_int(args, "replicas") {
        Some(n) => #[verifier::truncate] (n as i32),
        None => {
            let mut m = String::from_str("replicas");
            m.append(" is required");
            return Err(m);
        },
    };
    Ok(ScalePlan { namespace: String::from_str(namespace), name: String::from_str(name), replicas })
}

/// What `update_cronjob` patches: any of the schedule, the suspend flag and
/// the image of the container named after the cron job.
#[derive(Clone, Debug)]
pub struct CronJobUpdatePlan {
    pub namespace: String,
    pub name: String,
    pub schedule: Option<String>,
    pub suspend: Option<bool>,
    pub image: Option<String>,
}

/// What `update_cronjob` patches, or the refusal of its arguments.
pub fn cronjob_update_plan(args: &Vec<(String, ArgValue)>) -> (r: Result<CronJobUpdatePlan, String>)
    ensures
        match r {
            Ok(p) => {
                &&& arg_text(args@, "namespace"@) == Some(p.namespace@)
                &&& arg_text(args@, "name"@) == Some(p.name@)
                &&& opt_view(p.schedule) == arg_text(args@, "schedule"@)
                &&& p.suspend == arg_bool(args@, "suspend"@)
                &&& opt_view(p.image) == arg_text(args@, "image"@)
            },
            Err(e) => first_missing(args@, seq!["namespace"@, "name"@]) matches Some(k) && e@
                == required_text(k),
        },
{
    proof {
        reveal_with_fuel(first_missing, 4);
        reveal_strlit("namespace");
        reveal_strlit("name");
        reveal_strlit("schedule");
        reveal_strlit("suspend");
        reveal_strlit("image");
    }
    let namespace = match require_str(args, "namespace") {
        Ok(v) => v,
        Err(e) => return Err(e),
    };
    let name = match require_str(args, "name") {
        Ok(v) => v,
        Err(e) => return Err(e),
    };
    let schedule = match get_str(args, "schedule") {
        Some(s) => Some(String::from_str(s)),
        None => None,
    };
    let image = match get_str(args, "image") {
        Some(s) => Some(String::from_str(s)),
        None => None,
    };
    Ok(
        CronJobUpdatePlan {
            namespace: String::from_str(namespace),
            name: String::from_str(name),
            schedule,
            suspend: get_bool(args, "suspend"),
            image,
        },
    )
}

/// What `update_hpa` patches: either bound that is given, cut to 32 bits.
#[derive(Clone, Debug)]
pub struct HpaUpdatePlan {
    pub namespace: String,
    pub name: String,
    pub min_replicas: Option<i32>,
    pub max_replicas: Option<i32>,
}

/// What `update_hpa` patches, or the refusal of its arguments.
pub fn hpa_update_plan(args: &Vec<(String, ArgValue)>) -> (r: Result<HpaUpdatePlan, String>)
    ensures
        match r {
            Ok(p) => {
                &&& arg_text(args@, "namespace"@) == Some(p.namespace@)
                &&& arg_text(args@, "name"@) == Some(p.name@)
                &&& p.min_replicas == (match arg_int(args@, "min_replicas"@) {
                    Some(n) => Some(#[verifier::truncate] (n as i32)),
                    None => None,
                })
                &&& p.max_replicas == (match arg_int(args@, "max_replicas"@) {
                    Some(n) => Some(#[verifier::truncate] (n as i32)),
                    None => None,
                })
            },
            Err(e) => first_missing(args@, seq!["namespace"@, "name"@]) matches Some(k) && e@
                == required_text(k),
        },
{
    proof {
        reveal_with_fuel(first_missing, 4);
        reveal_strlit("namespace");
        reveal_strlit("name");
        reveal_strlit("min_replicas");
        reveal_strlit("max_replicas");
    }
    let namespace = match require_str(args, "namespace") {
        Ok(v) => v,
        Err(e) => return Err(e),
    };
    let name = match require_str(args, "name") {
        Ok(v) => v,
        Err(e) => return Err(e),
    };
    let min_replicas = match get_int(args, "min_replicas") {
        Some(n) => Some(#[verifier::truncate] (n as i32)),
        None => None,
    };
    let max_replicas = match get_int(args, "max_replicas") {
        Some(n) => Some(#[verifier::truncate] (n as i32)),
        None => None,
    };
    Ok(
        HpaUpdatePlan {
            namespace: String::from_str(namespace),
            name: String::from_str(name),
            min_replicas,
            max_replicas,
        },
    )
}

/// Whether argument `key` is given at all, whatever its value.
pub fn has_arg(args: &Vec<(String, ArgValue)>, key: &str) -> (r: bool)
    ensures
        r == arg_value(args@, key@) is Some,
{
    find_arg(args, key).is_some()
}

/// The spec field a network policy patch sets for argument `key`, when given.
pub open spec fn patch_field(args: Seq<(String, ArgValue)>, key: Seq<char>, field: Seq<char>) -> Seq<(Seq<char>, Seq<char>)> {
    if arg_value(args, key) is Some {
        seq![(key, field)]
    } else {
        Seq::empty()
    }
}

/// The fields `update_networkpolicy` patches, as (argument, spec field) pairs,
/// in the order pod selector, policy types, ingress, egress.
pub open spec fn networkpolicy_patch_fields(args: Seq<(String, ArgValue)>) -> Seq<(Seq<char>, Seq<char>)> {
    patch_field(args, "pod_selector"@, "podSelector"@) + patch_field(args, "policy_types"@, "policyTypes"@)
        + patch_field(args, "ingress"@, "ingress"@) + patch_field(args, "egress"@, "egress"@)
}

/// The refusal of a network policy update that changes nothing.
pub open spec fn empty_policy_patch_text() -> Seq<char> {
    "At least one of pod_selector, policy_types, ingress, or egress must be provided"@
}

/// The pairs of texts of a list of string pairs.
pub open spec fn pair_texts(v: Seq<(String, String)>) -> Seq<(Seq<char>, Seq<char>)> {
    v.map_values(|p: (String, String)| (p.0@, p.1@))
}

/// Which spec fields `update_networkpolicy` sets from its arguments, or its
/// refusal when none of them is given.
pub fn networkpolicy_patch_plan(args: &Vec<(String, ArgValue)>) -> (r: Result<Vec<(String, String)>, String>)
    ensures
        match r {
            Ok(v) => pair_texts(v@) == networkpolicy_patch_fields(args@) && v@.len() > 0,
            Err(e) => networkpolicy_patch_fields(args@).len() == 0 && e@ == empty_policy_patch_text(),
        },
{
    let mut out: Vec<(String, String)> = Vec::new();
    let ghost mut expected: Seq<(Seq<char>, Seq<char>)> = Seq::empty();
    proof {
        reveal_strlit("pod_selector");
        reveal_strlit("policy_types");
        reveal_strlit("ingress");
        reveal_strlit("egress");
        reveal_strlit("podSelector");
        reveal_strlit("policyTypes");
    }
    if has_arg(args, "pod_selector") {
        out.push((String::from_str("pod_selector"), String::from_str("podSelector")));
    }
    proof {
        expected = patch_field(args@, "pod_selector"@, "podSelector"@);
        assert(pair_texts(out@) =~= expected);
    }
    if has_arg(args, "policy_types") {
        out.push((String::from_str("policy_types"), String::from_str("policyTypes")));
    }
    proof {
        expected = expected + patch_field(args@, "policy_types"@, "policyTypes"@);
        assert(pair_texts(out@) =~= expected);
    }
    if has_arg(args, "ingress") {
        out.push((String::from_str("ingress"), String::from_str("ingress")));
    }
    proof {
        expected = expected + patch_field(args@, "ingress"@, "ingress"@);
        assert(pair_texts(out@) =~= expected);
    }
    if has_arg(args, "egress") {
        out.push((String::from_str("egress"), String::from_str("egress")));
    }
    proof {
        expected = expected + patch_field(args@, "egress"@, "egress"@);
        assert(pair_texts(out@) =~= expected);
        assert(expected =~= networkpolicy_patch_fields(args@));
    }
    if out.len() == 0 {
        proof {
            reveal_strlit("At least one of pod_selector, policy_types, ingress, or egress must be provided");
        }
        return Err(String::from_str("At least one of pod_selector, policy_types, ingress, or egress must be provided"));
    }
    Ok(out)
}

/// The type of one limit item: its `type` member, when the item is an object
/// and that member is text.
pub open spec fn limit_item_type(item: ArgItem) -> Option<Seq<char>> {
    match item {
        ArgItem::Object(m) => member_text(m@, "type"@),
        _ => None,
    }
}

/// What `create_limitrange` makes of its `limits` argument: the type of each
/// item, in order. It is refused when absent, when not a list, and when an
/// item has no text `type`.
pub fn limit_item_types(args: &Vec<(String, ArgValue)>) -> (r: Result<Vec<String>, String>)
    ensures
        match arg_value(args@, "limits"@) {
            None => r matches Err(e) && e@ == required_text("limits"@),
            Some(ArgValue::Array(items)) => match r {
                Ok(types) => types@.len() == items@.len() && forall|i: int|
                    0 <= i < items@.len() ==> limit_item_type(#[trigger] items@[i]) == Some(types@[i]@),
                Err(e) => (exists|i: int| 0 <= i < items@.len() && limit_item_type(#[trigger] items@[i]) is None)
                    && e@ == "each limit item must have a type"@,
            },
            Some(_) => r matches Err(e) && e@ == "limits must be an array"@,
        },
{
    proof {
        reveal_strlit("limits");
        reveal_strlit(" is required");
        reveal_strlit("type");
        reveal_strlit("limits must be an array");
        reveal_strlit("each limit item must have a type");
        reveal_strlit("limits is required");
    }
    let items = match find_arg(args, "limits") {
        None => {
            let e = String::from_str("limits is required");
            assert(e@ =~= required_text("limits"@));
            return Err(e);
        },
        Some(ArgValue::Array(items)) => items,
        Some(_) => return Err(String::from_str("limits must be an array")),
    };
    let mut types: Vec<String> = Vec::new();
    let n = items.len();
    for i in 0..n
        invariant
            n == items@.len(),
            arg_value(args@, "limits"@) == Some(ArgValue::Array(*items)),
            types@.len() == i,
            forall|j: int| 0 <= j < i ==> limit_item_type(#[trigger] items@[j]) == Some(types@[j]@),
    {
        let t = match &items[i] {
            ArgItem::Object(m) => get_member(m, "type"),
            _ => None,
        };
        match t {
            Some(t) => types.push(String::from_str(t)),
            None => {
                assert(limit_item_type(items@[i as int]) is None);
                return Err(String::from_str("each limit item must have a type"));
            },
        }
    }
    Ok(types)
}

} // verus!
