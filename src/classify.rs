//! Classification of a directory by its manifests and marker files.
use vstd::prelude::*;
use crate::manifest::{json_doc, lookup, parse_json, parse_toml, str_of, toml_doc, Doc};
use crate::project::{DirProbe, InfoView, ProjectDetector, ProjectInfo, ProjectType};
use crate::text::{ends_with, ends_with_seq, str_eq};

verus! {

/// Some entry of `names` is `n`.
pub open spec fn has_name(names: Seq<String>, n: Seq<char>) -> bool {
    exists|i: int| 0 <= i < names.len() && names[i]@ == n
}

/// `s` where present, else `"unknown"`.
pub open spec fn or_unknown(s: Option<Seq<char>>) -> Seq<char> {
    match s {
        Some(s) => s,
        None => "unknown"@,
    }
}

/// `s` alone where `b` holds, else nothing.
pub open spec fn tag_if(b: bool, s: Seq<char>) -> Seq<Seq<char>> {
    if b {
        seq![s]
    } else {
        Seq::empty()
    }
}

/// `d` is an array with the string `"cdylib"` among its items.
pub open spec fn lists_cdylib(d: Option<Doc>) -> bool {
    match d {
        Some(Doc::Array(items)) => exists|i: int|
            0 <= i < items@.len() && str_of(Some(items@[i])) == Some("cdylib"@),
        _ => false,
    }
}

/// A Cargo manifest (or its absence, `None`) describes a WebAssembly crate, or a
/// `wasm-pack.json` marker is present.
pub open spec fn wasm_crate(doc: Option<Doc>, marker: bool) -> bool {
    ||| lookup(lookup(lookup(doc, "package"@), "metadata"@), "wasm-pack"@) is Some
    ||| lookup(lookup(doc, "dependencies"@), "wasm-bindgen"@) is Some
    ||| lists_cdylib(lookup(lookup(doc, "lib"@), "crate-type"@))
    ||| marker
}

/// What classification says of a directory with a Cargo manifest.
pub open spec fn rust_info(path: Seq<char>, doc: Option<Doc>, marker: bool) -> InfoView {
    let wasm = wasm_crate(doc, marker);
    InfoView {
        project_type: if wasm {
            ProjectType::RustWasm
        } else {
            ProjectType::RustNormal
        },
        name: or_unknown(str_of(lookup(lookup(doc, "package"@), "name"@))),
        path: path,
        features: tag_if(wasm, "wasm"@) + tag_if(lookup(doc, "dependencies"@) is Some, "dependencies"@)
            + tag_if(lookup(doc, "dev-dependencies"@) is Some, "dev-dependencies"@),
    }
}

/// A TypeScript configuration file is among the directory's entries.
pub open spec fn ts_config_present(names: Seq<String>) -> bool {
    has_name(names, "tsconfig.json"@) || has_name(names, "tsconfig.build.json"@) || has_name(
        names,
        "typescript.json"@,
    )
}

/// A package manifest describes a Node.js program: its `main` is a `.js` or `.mjs` file, it
/// depends on a server framework or on Node's type declarations, or it names a Node engine.
pub open spec fn node_program(doc: Option<Doc>) -> bool {
    let deps = lookup(doc, "dependencies"@);
    ||| (match str_of(lookup(doc, "main"@)) {
        Some(m) => ends_with_seq(m, ".js"@) || ends_with_seq(m, ".mjs"@),
        None => false,
    })
    ||| lookup(deps, "express"@) is Some
    ||| lookup(deps, "fastify"@) is Some
    ||| lookup(deps, "koa"@) is Some
    ||| lookup(deps, "@types/node"@) is Some
    ||| lookup(lookup(doc, "engines"@), "node"@) is Some
}

/// A manifest section is present and not an empty table, array or string.
pub open spec fn non_empty(d: Option<Doc>) -> bool {
    match d {
        Some(Doc::Table(e)) => e@.len() > 0,
        Some(Doc::Array(a)) => a@.len() > 0,
        Some(Doc::Str(s)) => s@.len() > 0,
        Some(Doc::Other) => true,
        None => false,
    }
}

/// What classification says of a directory with a package manifest and no Cargo manifest.
pub open spec fn js_info(path: Seq<char>, doc: Option<Doc>, ts: bool) -> InfoView {
    let node = node_program(doc);
    InfoView {
        project_type: if ts {
            ProjectType::TypeScript
        } else if node {
            ProjectType::NodeJs
        } else {
            ProjectType::JavaScript
        },
        name: or_unknown(str_of(lookup(doc, "name"@))),
        path: path,
        features: tag_if(ts, "typescript"@) + tag_if(!ts && node, "nodejs"@) + tag_if(
            non_empty(lookup(doc, "dependencies"@)),
            "dependencies"@,
        ) + tag_if(non_empty(lookup(doc, "devDependencies"@)), "devDependencies"@) + tag_if(
            non_empty(lookup(doc, "scripts"@)),
            "scripts"@,
        ),
    }
}

/// The document parsed from a manifest text, where one was read.
pub open spec fn cargo_doc(p: DirProbe) -> Option<Doc> {
    match p.cargo_toml {
        Some(t) => toml_doc(t@),
        None => None,
    }
}

/// The document parsed from a package manifest text, where one was read.
pub open spec fn package_doc(p: DirProbe) -> Option<Doc> {
    match p.package_json {
        Some(t) => json_doc(t@),
        None => None,
    }
}

/// Classification of a directory: a Cargo manifest makes it a Rust project, else a package
/// manifest makes it a JavaScript-family project, else it is no supported project.
pub open spec fn detect_spec(p: DirProbe) -> Option<InfoView> {
    if has_name(p.entries@, "Cargo.toml"@) {
        Some(rust_info(p.path@, cargo_doc(p), has_name(p.entries@, "wasm-pack.json"@)))
    } else if has_name(p.entries@, "package.json"@) {
        Some(js_info(p.path@, package_doc(p), ts_config_present(p.entries@)))
    } else {
        None
    }
}

/// `r` is what classification returns for the probed directory `p`.
pub open spec fn detected(p: DirProbe, r: Option<ProjectInfo>) -> bool {
    match r {
        Some(i) => detect_spec(p) == Some(i@),
        None => detect_spec(p) is None,
    }
}

/// Whether some entry of `names` is `n`.
pub fn contains_name(names: &Vec<String>, n: &str) -> (r: bool)
    ensures
        r == has_name(names@, n@),
{
    let mut i: usize = 0;
    while i < names.len()
        invariant
            i <= names.len(),
            forall|j: int| 0 <= j < i ==> names@[j]@ != n@,
        decreases names.len() - i,
    {
        if str_eq(names[i].as_str(), n) {
            return true;
        }
        i = i + 1;
    }
    false
}

/// The value under `key` of a document that may be absent.
pub fn lookup_in<'a>(d: Option<&'a Doc>, key: &str) -> (r: Option<&'a Doc>)
    ensures
        match r {
            Some(x) => lookup(opt_val(d), key@) == Some(*x),
            None => lookup(opt_val(d), key@) is None,
        },
{
    match d {
        Some(d) => d.get(key),
        None => None,
    }
}

/// The value behind an optional reference.
pub open spec fn opt_val(d: Option<&Doc>) -> Option<Doc> {
    match d {
        Some(x) => Some(*x),
        None => None,
    }
}

fn owned_or_unknown(s: Option<&Doc>) -> (r: String)
    ensures
        r@ == or_unknown(str_of(opt_val(s))),
{
    match s {
        Some(d) => match d.as_str() {
            Some(v) => v.clone(),
            None => String::from_str("unknown"),
        },
        None => String::from_str("unknown"),
    }
}

impl ProjectDetector {
    /// Classifies a directory from what was read of it.
    pub fn detect_project(probe: &DirProbe) -> (r: Option<ProjectInfo>)
        ensures
            detected(*probe, r),
    {
        match Self::detect_rust_project(probe) {
            Some(info) => Some(info),
            None => Self::detect_js_project(probe),
        }
    }

    /// Classifies a directory that has a Cargo manifest; `None` where it has none.
    pub fn detect_rust_project(probe: &DirProbe) -> (r: Option<ProjectInfo>)
        ensures
            match r {
                Some(i) => has_name(probe.entries@, "Cargo.toml"@) && i@ == rust_info(
                    probe.path@,
                    cargo_doc(*probe),
                    has_name(probe.entries@, "wasm-pack.json"@),
                ),
                None => !has_name(probe.entries@, "Cargo.toml"@),
            },
    {
        if !contains_name(&probe.entries, "Cargo.toml") {
            return None;
        }
        let doc = match &probe.cargo_toml {
            Some(t) => parse_toml(t.as_str()),
            None => None,
        };
        let marker = contains_name(&probe.entries, "wasm-pack.json");
        Some(Self::rust_project_info(probe.path.as_str(), doc.as_ref(), marker))
    }

    /// Classifies a directory that has a package manifest; `None` where it has none.
    pub fn detect_js_project(probe: &DirProbe) -> (r: Option<ProjectInfo>)
        ensures
            match r {
                Some(i) => has_name(probe.entries@, "package.json"@) && i@ == js_info(
                    probe.path@,
                    package_doc(*probe),
                    ts_config_present(probe.entries@),
                ),
                None => !has_name(probe.entries@, "package.json"@),
            },
    {
        if !contains_name(&probe.entries, "package.json") {
            return None;
        }
        let doc = match &probe.package_json {
            Some(t) => parse_json(t.as_str()),
            None => None,
        };
        let ts = Self::has_typescript_config(&probe.entries);
        Some(Self::js_project_info(probe.path.as_str(), doc.as_ref(), ts))
    }

    /// Whether a directory with entries `names` has a TypeScript configuration file.
    pub fn has_typescript_config(names: &Vec<String>) -> (r: bool)
        ensures
            r == ts_config_present(names@),
    {
        contains_name(names, "tsconfig.json") || contains_name(names, "tsconfig.build.json")
            || contains_name(names, "typescript.json")
    }

    /// Whether a Cargo manifest `doc` describes a WebAssembly crate, or `marker` (a
    /// `wasm-pack.json` beside it) holds.
    pub fn is_wasm_project(doc: Option<&Doc>, marker: bool) -> (r: bool)
        ensures
            r == wasm_crate(opt_val(doc), marker),
    {
        if lookup_in(lookup_in(lookup_in(doc, "package"), "metadata"), "wasm-pack").is_some() {
            return true;
        }
        if lookup_in(lookup_in(doc, "dependencies"), "wasm-bindgen").is_some() {
            return true;
        }
        if let Some(Doc::Array(items)) = lookup_in(lookup_in(doc, "lib"), "crate-type") {
            let mut i: usize = 0;
            while i < items.len()
                invariant
                    i <= items@.len(),
                    lookup(lookup(opt_val(doc), "lib"@), "crate-type"@) == Some(Doc::Array(*items)),
                    forall|j: int|
                        0 <= j < i ==> str_of(Some(#[trigger] items@[j])) != Some("cdylib"@),
                decreases items@.len() - i,
            {
                if let Some(s) = items[i].as_str() {
                    if str_eq(s.as_str(), "cdylib") {
                        return true;
                    }
                }
                i = i + 1;
            }
        }
        marker
    }

    /// Whether a package manifest `doc` describes a Node.js program.
    pub fn is_node_project(doc: Option<&Doc>) -> (r: bool)
        ensures
            r == node_program(opt_val(doc)),
    {
        if let Some(main) = lookup_in(doc, "main") {
            if let Some(m) = main.as_str() {
                if ends_with(m.as_str(), ".js") || ends_with(m.as_str(), ".mjs") {
                    return true;
                }
            }
        }
        let deps = lookup_in(doc, "dependencies");
        if lookup_in(deps, "express").is_some() || lookup_in(deps, "fastify").is_some()
            || lookup_in(deps, "koa").is_some() || lookup_in(deps, "@types/node").is_some() {
            return true;
        }
        lookup_in(lookup_in(doc, "engines"), "node").is_some()
    }

    /// What classification says of the directory `path`, given what its Cargo manifest
    /// parsed to (`None` where it could not be read or parsed) and whether a `wasm-pack.json`
    /// lies beside it.
    pub fn rust_project_info(path: &str, doc: Option<&Doc>, marker: bool) -> (r: ProjectInfo)
        ensures
            r@ == rust_info(path@, opt_val(doc), marker),
    {
        let name = owned_or_unknown(lookup_in(lookup_in(doc, "package"), "name"));
        let mut features: Vec<String> = Vec::new();
        let wasm = Self::is_wasm_project(doc, marker);
        if wasm {
            features.push(String::from_str("wasm"));
        }
        if lookup_in(doc, "dependencies").is_some() {
            features.push(String::from_str("dependencies"));
        }
        if lookup_in(doc, "dev-dependencies").is_some() {
            features.push(String::from_str("dev-dependencies"));
        }
        let project_type = if wasm {
            ProjectType::RustWasm
        } else {
            ProjectType::RustNormal
        };
        let r = ProjectInfo { project_type, name, path: String::from_str(path), features };
        proof {
            let d = opt_val(doc);
            assert(r@.features =~= rust_info(path@, d, marker).features);
        }
        r
    }

    /// What classification says of the directory `path`, given what its package manifest
    /// parsed to (`None` where it could not be read or parsed) and whether a TypeScript
    /// configuration file lies beside it.
    pub fn js_project_info(path: &str, doc: Option<&Doc>, ts: bool) -> (r: ProjectInfo)
        ensures
            r@ == js_info(path@, opt_val(doc), ts),
    {
        let name = owned_or_unknown(lookup_in(doc, "name"));
        let mut features: Vec<String> = Vec::new();
        let project_type = if ts {
            features.push(String::from_str("typescript"));
            ProjectType::TypeScript
        } else if Self::is_node_project(doc) {
            features.push(String::from_str("nodejs"));
            ProjectType::NodeJs
        } else {
            ProjectType::JavaScript
        };
        if section_non_empty(lookup_in(doc, "dependencies")) {
            features.push(String::from_str("dependencies"));
        }
        if section_non_empty(lookup_in(doc, "devDependencies")) {
            features.push(String::from_str("devDependencies"));
        }
        if section_non_empty(lookup_in(doc, "scripts")) {
            features.push(String::from_str("scripts"));
        }
        let r = ProjectInfo { project_type, name, path: String::from_str(path), features };
        proof {
            let d = opt_val(doc);
            assert(r@.features =~= js_info(path@, d, ts).features);
        }
        r
    }
}

fn section_non_empty(d: Option<&Doc>) -> (r: bool)
    ensures
        r == non_empty(opt_val(d)),
{
    match d {
        Some(Doc::Table(e)) => e.len() > 0,
        Some(Doc::Array(a)) => a.len() > 0,
        Some(Doc::Str(s)) => s.as_str().unicode_len() > 0,
        Some(Doc::Other) => true,
        None => false,
    }
}

} // verus!
