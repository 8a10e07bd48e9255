//! The resources that the tool server offers: the manifests of the application.

use vstd::prelude::*;

verus! {

/// Whether `pattern` compiles as a regular expression of the `regex` crate.
pub uninterp spec fn regex_valid(pattern: Seq<char>) -> bool;

/// Whether `text` matches the compiled regular expression `pattern` of the `regex` crate.
pub uninterp spec fn regex_match(pattern: Seq<char>, text: Seq<char>) -> bool;

/// Compiles `pattern` with `regex::Regex::new` and tests `text` with `Regex::is_match`;
/// `None` where the pattern does not compile. Both results are tied to the arguments by
/// `regex_valid` and `regex_match`.
#[verifier::external_body]
fn regex_is_match(pattern: &str, text: &str) -> (res: Option<bool>)
    ensures
        match res {
            Some(b) => regex_valid(pattern@) && b == regex_match(pattern@, text@),
            None => !regex_valid(pattern@),
        },
{
    match regex::Regex::new(pattern) {
        Ok(re) => Some(re.is_match(text)),
        Err(_) => None,
    }
}

/// The pattern of the application manifest's path: `golem.yaml` or `golem.json`.
pub open spec fn app_manifest_pattern() -> Seq<char> {
    "^golem\\.(yaml|json)$"@
}

/// The pattern of the paths of manifests: the application manifest, or a component
/// manifest below a `components-*` directory.
pub open spec fn manifest_pattern() -> Seq<char> {
    "^golem\\.(yaml|json)$|^components-[^/]+/.+/golem\\.(yaml|json)$"@
}

/// A manifest file offered as a resource.
#[derive(Debug)]
pub struct ManifestResource {
    pub uri: String,
    pub name: String,
    pub description: String,
    pub size: Option<u32>,
}

/// The view of an optional text, empty where absent.
pub open spec fn text_or_empty(o: Option<&str>) -> Seq<char> {
    match o {
        Some(t) => t@,
        None => Seq::empty(),
    }
}

/// The name and description of a manifest resource: the application manifest, or the
/// manifest of the component in `parent_path`, named by its directory.
pub open spec fn manifest_resource_text(
    is_app_manifest: bool,
    parent_name: Seq<char>,
    parent_path: Seq<char>,
) -> (Seq<char>, Seq<char>) {
    if is_app_manifest {
        ("golem app manifest"@, "Manifest file for entire golem app"@)
    } else {
        (parent_name, "Manifest file for Component - "@ + parent_path)
    }
}

/// `res` is the resource described by the match results, or nothing where the path is no
/// manifest's.
pub open spec fn is_manifest_resource(
    res: Option<ManifestResource>,
    uri: Seq<char>,
    parent_name: Seq<char>,
    parent_path: Seq<char>,
    size: Option<u32>,
    is_app_manifest: bool,
    is_manifest: bool,
) -> bool {
    if is_manifest {
        res matches Some(r) && r.uri@ == uri && r.size == size && (r.name@, r.description@)
            == manifest_resource_text(is_app_manifest, parent_name, parent_path)
    } else {
        res is None
    }
}

/// The resource for a walked file, given whether its path relative to the application
/// directory is the application manifest's and whether it is a manifest's at all; `uri` is
/// the walked path, `parent_name` and `parent_path` those of its directory.
pub fn manifest_resource(
    uri: &str,
    parent_name: Option<&str>,
    parent_path: &str,
    size: Option<u32>,
    is_app_manifest: bool,
    is_manifest: bool,
) -> (res: Option<ManifestResource>)
    ensures
        is_manifest_resource(
            res,
            uri@,
            text_or_empty(parent_name),
            parent_path@,
            size,
            is_app_manifest,
            is_manifest,
        ),
{
    if !is_manifest {
        return None;
    }
    let (name, description) = if is_app_manifest {
        ("golem app manifest".to_string(), "Manifest file for entire golem app".to_string())
    } else {
        let name = match parent_name {
            Some(n) => n.to_string(),
            None => String::new(),
        };
        let mut description = "Manifest file for Component - ".to_string();
        description.append(parent_path);
        (name, description)
    };
    Some(ManifestResource { uri: uri.to_string(), name, description, size })
}

/// The resource for a walked file whose path relative to the application directory is
/// `rel_path`: its path is matched against the manifest patterns; nothing where a pattern
/// does not compile.
pub fn manifest_resource_for(
    rel_path: &str,
    uri: &str,
    parent_name: Option<&str>,
    parent_path: &str,
    size: Option<u32>,
) -> (res: Option<ManifestResource>)
    ensures
        if regex_valid(app_manifest_pattern()) && regex_valid(manifest_pattern()) {
            is_manifest_resource(
                res,
                uri@,
                text_or_empty(parent_name),
                parent_path@,
                size,
                regex_match(app_manifest_pattern(), rel_path@),
                regex_match(manifest_pattern(), rel_path@),
            )
        } else {
            res is None
        },
{
    let is_manifest = match regex_is_match(
        "^golem\\.(yaml|json)$|^components-[^/]+/.+/golem\\.(yaml|json)$",
        rel_path,
    ) {
        Some(b) => b,
        None => return None,
    };
    let is_app_manifest = match regex_is_match("^golem\\.(yaml|json)$", rel_path) {
        Some(b) => b,
        None => return None,
    };
    manifest_resource(uri, parent_name, parent_path, size, is_app_manifest, is_manifest)
}

} // verus!
