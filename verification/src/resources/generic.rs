//! Generic resource tools: API version parsing, the target a manifest names,
//! and the scope a dynamic request takes.
use vstd::prelude::*;

use crate::model::opt_view;
use crate::text::split_once;

verus! {

/// Parse an apiVersion string into (group, version).
/// "v1" -> ("", "v1"), "apps/v1" -> ("apps", "v1")
pub fn parse_api_version(api_version: &str) -> (r: (&str, &str))
    ensures
        api_version@.contains('/') ==> api_version@ == r.0@ + seq!['/'] + r.1@ && !r.0@.contains(
            '/',
        ),
        !api_version@.contains('/') ==> r.0@ == Seq::<char>::empty() && r.1@ == api_version@,
{
    match split_once(api_version, '/') {
        Some((group, version)) => (group, version),
        None => {
            proof {
                reveal_strlit("");
            }
            ("", api_version)
        },
    }
}

/// The object a manifest names: its apiVersion, kind, `metadata.name` and,
/// where given, `metadata.namespace`.
#[derive(Clone, Debug)]
pub struct ManifestTarget {
    pub api_version: String,
    pub kind: String,
    pub name: String,
    pub namespace: Option<String>,
}

pub open spec fn manifest_missing_text(field: Seq<char>) -> Seq<char> {
    "manifest must contain '"@ + field + "'"@
}

/// The target of an applied manifest, from the fields read out of it; the
/// first missing field, in the order apiVersion, kind, metadata.name, is
/// refused.
pub fn manifest_target(
    api_version: Option<&str>,
    kind: Option<&str>,
    name: Option<&str>,
    namespace: Option<&str>,
) -> (r: Result<ManifestTarget, String>)
    ensures
        match r {
            Ok(t) => (api_version matches Some(a) && a@ == t.api_version@) && (kind matches Some(
                k,
            ) && k@ == t.kind@) && (name matches Some(n) && n@ == t.name@) && match (
                t.namespace,
                namespace,
            ) {
                    (Some(a), Some(b)) => a@ == b@,
                    (None, None) => true,
                    _ => false,
                },
            Err(e) => if api_version is None {
                e@ == manifest_missing_text("apiVersion"@)
            } else if kind is None {
                e@ == manifest_missing_text("kind"@)
            } else {
                name is None && e@ == manifest_missing_text("metadata.name"@)
            },
        },
{
    proof {
        reveal_strlit("manifest must contain 'apiVersion'");
        reveal_strlit("manifest must contain 'kind'");
        reveal_strlit("manifest must contain 'metadata.name'");
        reveal_strlit("apiVersion");
        reveal_strlit("kind");
        reveal_strlit("metadata.name");
        reveal_strlit("manifest must contain '");
        reveal_strlit("'");
    }
    let api_version = match api_version {
        Some(v) => v,
        None => {
            let e = String::from_str("manifest must contain 'apiVersion'");
            assert(e@ == manifest_missing_text("apiVersion"@));
            return Err(e);
        },
    };
    let kind = match kind {
        Some(k) => k,
        None => {
            let e = String::from_str("manifest must contain 'kind'");
            assert(e@ == manifest_missing_text("kind"@));
            return Err(e);
        },
    };
    let name = match name {
        Some(n) => n,
        None => {
            let e = String::from_str("manifest must contain 'metadata.name'");
            assert(e@ == manifest_missing_text("metadata.name"@));
            return Err(e);
        },
    };
    let namespace = match namespace {
        Some(ns) => Some(String::from_str(ns)),
        None => None,
    };
    Ok(ManifestTarget {
        api_version: String::from_str(api_version),
        kind: String::from_str(kind),
        name: String::from_str(name),
        namespace,
    })
}

/// The fields a manifest is read for, as text where the JSON value there is a
/// string: `apiVersion`, `kind`, `metadata.name`, `metadata.namespace`.
pub type ManifestFields = (Option<String>, Option<String>, Option<String>, Option<String>);

/// The name for what reading a manifest with `serde_json` gives: the four
/// fields' texts when the text parses as JSON, else the parser's error message.
pub uninterp spec fn manifest_fields_of(text: Seq<char>) -> Result<
    (Option<Seq<char>>, Option<Seq<char>>, Option<Seq<char>>, Option<Seq<char>>),
    Seq<char>,
>;

/// The views of the four fields of a manifest.
pub open spec fn fields_view(f: ManifestFields) -> (
    Option<Seq<char>>,
    Option<Seq<char>>,
    Option<Seq<char>>,
    Option<Seq<char>>,
) {
    (opt_view(f.0), opt_view(f.1), opt_view(f.2), opt_view(f.3))
}

/// `serde_json::from_str` into a JSON value, then `as_str` on the values at
/// `apiVersion`, `kind`, `metadata.name` and `metadata.namespace` (a missing
/// member reads as null, which is no text); a parse error is given by its
/// message. The result is named, not described: it is the JSON grammar.
#[verifier::external_body]
fn parse_manifest_fields(text: &str) -> (r: Result<ManifestFields, String>)
    ensures
        match (r, manifest_fields_of(text@)) {
            (Ok(f), Ok(g)) => fields_view(f) == g,
            (Err(e), Err(m)) => e@ == m,
            _ => false,
        },
{
    let v: serde_json::Value = match serde_json::from_str(text) {
        Ok(v) => v,
        Err(e) => return Err(e.to_string()),
    };
    Ok((
        v["apiVersion"].as_str().map(str::to_string),
        v["kind"].as_str().map(str::to_string),
        v["metadata"]["name"].as_str().map(str::to_string),
        v["metadata"]["namespace"].as_str().map(str::to_string),
    ))
}

/// The refusal of a manifest that is not JSON, around the parser's message.
pub open spec fn not_json_text(message: Seq<char>) -> Seq<char> {
    "Failed to parse manifest as JSON: "@ + message
        + ". If providing YAML, please convert to JSON first."@
}

/// What `manifest_target` answers for the four fields' views.
pub open spec fn target_from_fields(
    r: Result<ManifestTarget, String>,
    api_version: Option<Seq<char>>,
    kind: Option<Seq<char>>,
    name: Option<Seq<char>>,
    namespace: Option<Seq<char>>,
) -> bool {
    match r {
        Ok(t) => api_version == Some(t.api_version@) && kind == Some(t.kind@) && name == Some(
            t.name@,
        ) && namespace == opt_view(t.namespace),
        Err(e) => if api_version is None {
            e@ == manifest_missing_text("apiVersion"@)
        } else if kind is None {
            e@ == manifest_missing_text("kind"@)
        } else {
            name is None && e@ == manifest_missing_text("metadata.name"@)
        },
    }
}

fn opt_str(s: &Option<String>) -> (r: Option<&str>)
    ensures
        match (r, s) {
            (Some(a), Some(b)) => a@ == b@,
            (None, None) => true,
            _ => false,
        },
{
    match s {
        Some(t) => Some(t.as_str()),
        None => None,
    }
}

/// The target of a manifest from what reading it gave: the parser's refusal
/// wrapped in advice, or the target of its fields.
pub fn manifest_from_fields(read: Result<ManifestFields, String>) -> (r: Result<ManifestTarget, String>)
    ensures
        match read {
            Err(m) => r matches Err(e) && e@ == not_json_text(m@),
            Ok(f) => target_from_fields(r, opt_view(f.0), opt_view(f.1), opt_view(f.2), opt_view(f.3)),
        },
{
    match read {
        Err(m) => {
            let mut e = String::from_str("Failed to parse manifest as JSON: ");
            e.append(m.as_str());
            e.append(". If providing YAML, please convert to JSON first.");
            Err(e)
        },
        Ok(f) => manifest_target(opt_str(&f.0), opt_str(&f.1), opt_str(&f.2), opt_str(&f.3)),
    }
}

/// The target of the manifest text of `apply_manifest`: read as JSON, then
/// its apiVersion, kind and name required.
pub fn read_manifest(text: &str) -> (r: Result<ManifestTarget, String>)
    ensures
        match manifest_fields_of(text@) {
            Err(m) => r matches Err(e) && e@ == not_json_text(m),
            Ok((a, k, n, ns)) => target_from_fields(r, a, k, n, ns),
        },
{
    manifest_from_fields(parse_manifest_fields(text))
}

/// The refusal of a namespaced kind with no namespace; a manifest's refusal
/// says where the namespace was looked for.
pub open spec fn no_namespace_text(kind: Seq<char>, in_manifest: bool) -> Seq<char> {
    "Resource "@ + kind + " is namespaced but no namespace was provided"@ + if in_manifest {
        " in the manifest"@
    } else {
        Seq::empty()
    }
}

/// The namespace a dynamic request is made in, once discovery has said
/// whether the kind is namespaced: a namespaced kind needs one, a
/// cluster-scoped kind ignores it.
pub fn dynamic_namespace(namespaced: bool, namespace: Option<&str>, kind: &str, in_manifest: bool) -> (r:
    Result<Option<String>, String>)
    ensures
        namespaced ==> match namespace {
            Some(ns) => r matches Ok(Some(s)) && s@ == ns@,
            None => r matches Err(e) && e@ == no_namespace_text(kind@, in_manifest),
        },
        !namespaced ==> r matches Ok(None),
{
    if !namespaced {
        return Ok(None);
    }
    match namespace {
        Some(ns) => Ok(Some(String::from_str(ns))),
        None => {
            let mut e = String::from_str("Resource ");
            e.append(kind);
            e.append(" is namespaced but no namespace was provided");
            if in_manifest {
                e.append(" in the manifest");
            }
            proof {
                reveal_strlit("Resource ");
                reveal_strlit(" is namespaced but no namespace was provided");
                reveal_strlit(" in the manifest");
                assert(e@ =~= no_namespace_text(kind@, in_manifest));
            }
            Err(e)
        },
    }
}

} // verus!
