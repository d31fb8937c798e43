//! Sorting files into roles, and reading dependencies and scripts out of a manifest.
use vstd::prelude::*;
use crate::classify::{cargo_doc, lookup_in, opt_val, package_doc};
use crate::manifest::{lookup, parse_json, parse_toml, str_of, Doc};
use crate::paths::{extension, extension_of, file_name, file_name_of};
use crate::project::{
    is_rust_family, DirProbe, ProjectInfo, ProjectStructure, ProjectType, StructureView,
};
use crate::strmap::{insert_all, Pairs, StrMap};
use crate::text::{contains, contains_seq, starts_with, starts_with_seq, str_eq};

verus! {

/// The role a file plays, by its extension.
#[derive(Clone, Copy, Debug, PartialEq, Eq, Structural)]
pub enum FileRole {
    Source,
    Test,
    Config,
    Doc,
    Unknown,
}

/// A Rust file at path `p` is a test.
pub open spec fn rust_test_path(p: Seq<char>) -> bool {
    contains_seq(p, "test"@) || starts_with_seq(file_name(p), "test_"@)
}

/// A JavaScript or TypeScript file at path `p` is a test.
pub open spec fn script_test_path(p: Seq<char>) -> bool {
    contains_seq(p, "test"@) || contains_seq(p, "spec"@) || contains_seq(file_name(p), ".test."@)
}

/// `e` is the extension of a JavaScript or TypeScript source file.
pub open spec fn script_ext(e: Seq<char>) -> bool {
    e == "js"@ || e == "jsx"@ || e == "ts"@ || e == "tsx"@
}

/// `e` is a source-code extension.
pub open spec fn source_ext(e: Seq<char>) -> bool {
    e == "rs"@ || script_ext(e)
}

/// `e` is the extension of a configuration file.
pub open spec fn config_ext(e: Seq<char>) -> bool {
    e == "toml"@ || e == "json"@ || e == "yaml"@ || e == "yml"@ || e == "config"@
}

/// `e` is the extension of a documentation file.
pub open spec fn doc_ext(e: Seq<char>) -> bool {
    e == "md"@ || e == "rst"@ || e == "txt"@
}

/// The role of the file at path `p`, by its extension and, for source files, by whether its
/// path marks it as a test.
pub open spec fn role_of(p: Seq<char>) -> FileRole {
    match extension(p) {
        Some(e) => if e == "rs"@ {
            if rust_test_path(p) {
                FileRole::Test
            } else {
                FileRole::Source
            }
        } else if script_ext(e) {
            if script_test_path(p) {
                FileRole::Test
            } else {
                FileRole::Source
            }
        } else if config_ext(e) {
            FileRole::Config
        } else if doc_ext(e) {
            FileRole::Doc
        } else {
            FileRole::Unknown
        },
        None => FileRole::Unknown,
    }
}

/// A file name that always marks a container configuration file.
pub open spec fn container_file_name(n: Seq<char>) -> bool {
    n == "Dockerfile"@ || n == ".dockerignore"@ || n == "docker-compose.yml"@ || n
        == "docker-compose.yaml"@
}

/// A file name that marks a program's entry point.
pub open spec fn entry_point_name(n: Seq<char>) -> bool {
    n == "main.rs"@ || n == "lib.rs"@ || n == "index.js"@ || n == "index.ts"@ || n == "app.js"@
        || n == "app.ts"@
}

/// A directory name that scanning never enters.
pub open spec fn excluded_dir_name(n: Seq<char>) -> bool {
    n == "target"@ || n == "node_modules"@ || n == ".git"@ || n == "dist"@ || n == "build"@ || n
        == ".next"@
}

/// `s` followed by `p` where `b` holds.
pub open spec fn push_if(s: Seq<Seq<char>>, b: bool, p: Seq<char>) -> Seq<Seq<char>> {
    if b {
        s.push(p)
    } else {
        s
    }
}

/// `s` after recording the file at path `p`.
pub open spec fn categorized(s: StructureView, p: Seq<char>) -> StructureView {
    let role = role_of(p);
    let name = file_name(p);
    StructureView {
        source_files: push_if(s.source_files, role == FileRole::Source, p),
        test_files: push_if(s.test_files, role == FileRole::Test, p),
        config_files: push_if(
            s.config_files,
            role == FileRole::Config || container_file_name(name),
            p,
        ),
        doc_files: push_if(s.doc_files, role == FileRole::Doc, p),
        entry_points: push_if(s.entry_points, entry_point_name(name), p),
        ..s
    }
}

/// The version a Cargo dependency entry asks for: the entry itself where it is a string, its
/// `version` where it is a table that has one as a string, else `"*"`.
pub open spec fn cargo_dep_version(v: Doc) -> Seq<char> {
    match v {
        Doc::Str(s) => s@,
        Doc::Table(_) => match str_of(v.field("version"@)) {
            Some(s) => s,
            None => "*"@,
        },
        _ => "*"@,
    }
}

/// The name and version of each entry of a Cargo dependency table.
pub open spec fn cargo_dep_pairs(entries: Seq<(String, Doc)>) -> Pairs {
    entries.map_values(|e: (String, Doc)| (e.0@, cargo_dep_version(e.1)))
}

/// The entries of a table whose values are strings, each key preceded by `prefix`.
pub open spec fn string_pairs(entries: Seq<(String, Doc)>, prefix: Seq<char>) -> Pairs
    decreases entries.len(),
{
    if entries.len() == 0 {
        Seq::empty()
    } else {
        let rest = string_pairs(entries.drop_last(), prefix);
        match entries.last().1 {
            Doc::Str(v) => rest.push((prefix + entries.last().0@, v@)),
            _ => rest,
        }
    }
}

/// The pairs of a manifest section that is a table, or none where it is not one.
pub open spec fn table_entries(d: Option<Doc>) -> Seq<(String, Doc)> {
    match d {
        Some(Doc::Table(e)) => e@,
        _ => Seq::empty(),
    }
}

/// The build script a Cargo manifest declares, as a one-entry script list.
pub open spec fn build_script(doc: Option<Doc>) -> Pairs {
    match str_of(lookup(lookup(doc, "package"@), "build"@)) {
        Some(b) => seq![("build"@, b)],
        None => Seq::empty(),
    }
}

/// `s` with what a Cargo manifest declares: its dependencies and its build script.
pub open spec fn with_cargo_metadata(s: StructureView, doc: Option<Doc>) -> StructureView {
    StructureView {
        dependencies: insert_all(
            s.dependencies,
            cargo_dep_pairs(table_entries(lookup(doc, "dependencies"@))),
        ),
        scripts: insert_all(s.scripts, build_script(doc)),
        ..s
    }
}

/// `s` with what a package manifest declares: its dependencies, its development dependencies
/// under the prefix `dev:`, and its scripts.
pub open spec fn with_package_metadata(s: StructureView, doc: Option<Doc>) -> StructureView {
    StructureView {
        dependencies: insert_all(
            insert_all(
                s.dependencies,
                string_pairs(table_entries(lookup(doc, "dependencies"@)), Seq::empty()),
            ),
            string_pairs(table_entries(lookup(doc, "devDependencies"@)), "dev:"@),
        ),
        scripts: insert_all(
            s.scripts,
            string_pairs(table_entries(lookup(doc, "scripts"@)), Seq::empty()),
        ),
        ..s
    }
}

/// `s` with what the manifest of a project of type `t` in the probed directory declares.
pub open spec fn with_metadata(s: StructureView, t: ProjectType, p: DirProbe) -> StructureView {
    if is_rust_family(t) {
        with_cargo_metadata(s, cargo_doc(p))
    } else {
        with_package_metadata(s, package_doc(p))
    }
}

fn push_when(v: &mut Vec<String>, b: bool, p: &str)
    ensures
        final(v)@.map_values(|s: String| s@) == push_if(old(v)@.map_values(|s: String| s@), b, p@),
{
    if b {
        v.push(String::from_str(p));
    }
    proof {
        assert(final(v)@.map_values(|s: String| s@) =~= push_if(old(v)@.map_values(|s: String| s@), b, p@));
    }
}

fn is_script_ext(e: &str) -> (r: bool)
    ensures
        r == script_ext(e@),
{
    str_eq(e, "js") || str_eq(e, "jsx") || str_eq(e, "ts") || str_eq(e, "tsx")
}

fn role_of_path(path: &str) -> (r: FileRole)
    ensures
        r == role_of(path@),
{
    match extension_of(path) {
        Some(ext) => {
            let e = ext.as_str();
            if str_eq(e, "rs") {
                if contains(path, "test") || starts_with(file_name_of(path).as_str(), "test_") {
                    FileRole::Test
                } else {
                    FileRole::Source
                }
            } else if is_script_ext(e) {
                if contains(path, "test") || contains(path, "spec") || contains(
                    file_name_of(path).as_str(),
                    ".test.",
                ) {
                    FileRole::Test
                } else {
                    FileRole::Source
                }
            } else if str_eq(e, "toml") || str_eq(e, "json") || str_eq(e, "yaml") || str_eq(
                e,
                "yml",
            ) || str_eq(e, "config") {
                FileRole::Config
            } else if str_eq(e, "md") || str_eq(e, "rst") || str_eq(e, "txt") {
                FileRole::Doc
            } else {
                FileRole::Unknown
            }
        },
        None => FileRole::Unknown,
    }
}

/// Whether `n` is the name of a directory that scanning never enters.
pub fn is_excluded_dir_name(n: &str) -> (r: bool)
    ensures
        r == excluded_dir_name(n@),
{
    str_eq(n, "target") || str_eq(n, "node_modules") || str_eq(n, ".git") || str_eq(n, "dist")
        || str_eq(n, "build") || str_eq(n, ".next")
}

impl ProjectStructure {
    /// Records the file at `path` under its role, and as an entry point where its name is one.
    pub fn categorize_file(&mut self, path: &str)
        ensures
            final(self)@ == categorized(old(self)@, path@),
            final(self).dependencies == old(self).dependencies,
            final(self).scripts == old(self).scripts,
    {
        let role = role_of_path(path);
        let name = file_name_of(path);
        let n = name.as_str();
        let container = str_eq(n, "Dockerfile") || str_eq(n, ".dockerignore") || str_eq(
            n,
            "docker-compose.yml",
        ) || str_eq(n, "docker-compose.yaml");
        let entry = str_eq(n, "main.rs") || str_eq(n, "lib.rs") || str_eq(n, "index.js") || str_eq(
            n,
            "index.ts",
        ) || str_eq(n, "app.js") || str_eq(n, "app.ts");
        push_when(&mut self.source_files, role == FileRole::Source, path);
        push_when(&mut self.test_files, role == FileRole::Test, path);
        push_when(&mut self.config_files, role == FileRole::Config || container, path);
        push_when(&mut self.doc_files, role == FileRole::Doc, path);
        push_when(&mut self.entry_points, entry, path);
    }

    /// Whether scanning skips the directory at `path`, by its name.
    pub fn should_skip_directory(&self, path: &str) -> (r: bool)
        ensures
            r == excluded_dir_name(file_name(path@)),
    {
        let name = file_name_of(path);
        is_excluded_dir_name(name.as_str())
    }
}

fn cargo_version(v: &Doc) -> (r: String)
    ensures
        r@ == cargo_dep_version(*v),
{
    match v {
        Doc::Str(s) => s.clone(),
        Doc::Table(_) => match v.get("version") {
            Some(x) => match x.as_str() {
                Some(s) => s.clone(),
                None => String::from_str("*"),
            },
            None => String::from_str("*"),
        },
        _ => String::from_str("*"),
    }
}

fn table_of<'a>(d: Option<&'a Doc>) -> (r: Option<&'a Vec<(String, Doc)>>)
    ensures
        match r {
            Some(e) => table_entries(opt_val(d)) == e@,
            None => table_entries(opt_val(d)) == Seq::<(String, Doc)>::empty(),
        },
{
    match d {
        Some(Doc::Table(e)) => Some(e),
        _ => None,
    }
}

fn insert_cargo_deps(map: &mut StrMap, entries: &Vec<(String, Doc)>)
    ensures
        final(map)@ == insert_all(old(map)@, cargo_dep_pairs(entries@)),
{
    let mut i: usize = 0;
    while i < entries.len()
        invariant
            i <= entries@.len(),
            map@ == insert_all(old(map)@, cargo_dep_pairs(entries@.take(i as int))),
        decreases entries@.len() - i,
    {
        proof {
            assert(cargo_dep_pairs(entries@.take(i + 1)).drop_last() =~= cargo_dep_pairs(
                entries@.take(i as int),
            ));
        }
        let version = cargo_version(&entries[i].1);
        map.insert(entries[i].0.clone(), version);
        i = i + 1;
    }
    proof {
        assert(entries@.take(i as int) =~= entries@);
    }
}

fn insert_string_entries(map: &mut StrMap, entries: &Vec<(String, Doc)>, prefix: &str)
    ensures
        final(map)@ == insert_all(old(map)@, string_pairs(entries@, prefix@)),
{
    let mut i: usize = 0;
    while i < entries.len()
        invariant
            i <= entries@.len(),
            map@ == insert_all(old(map)@, string_pairs(entries@.take(i as int), prefix@)),
        decreases entries@.len() - i,
    {
        proof {
            assert(entries@.take(i + 1).drop_last() =~= entries@.take(i as int));
            assert(entries@.take(i + 1).last() == entries@[i as int]);
            let rest = string_pairs(entries@.take(i as int), prefix@);
            if let Doc::Str(v) = entries@[i as int].1 {
                let x = (prefix@ + entries@[i as int].0@, v@);
                assert(rest.push(x).drop_last() =~= rest);
            }
        }
        if let Doc::Str(v) = &entries[i].1 {
            let key = String::from_str(prefix).concat(entries[i].0.as_str());
            map.insert(key, v.clone());
        }
        i = i + 1;
    }
    proof {
        assert(entries@.take(i as int) =~= entries@);
    }
}

impl ProjectStructure {
    /// Adds what a Cargo manifest `doc` declares: each dependency with its version, and the
    /// build script under the key `build`.
    pub fn extract_rust_metadata(&mut self, doc: Option<&Doc>)
        ensures
            final(self)@ == with_cargo_metadata(old(self)@, opt_val(doc)),
    {
        if let Some(entries) = table_of(lookup_in(doc, "dependencies")) {
            insert_cargo_deps(&mut self.dependencies, entries);
        }
        proof {
            reveal_strlit("build");
        }
        if let Some(b) = lookup_in(lookup_in(doc, "package"), "build") {
            if let Some(s) = b.as_str() {
                self.scripts.insert(String::from_str("build"), s.clone());
            }
        }
        proof {
            let d = opt_val(doc);
            assert(insert_all(old(self)@.scripts, Seq::empty()) == old(self)@.scripts);
            if let Some(b) = str_of(lookup(lookup(d, "package"@), "build"@)) {
                assert(build_script(d).drop_last() =~= Seq::<(Seq<char>, Seq<char>)>::empty());
            }
            assert(self@ == with_cargo_metadata(old(self)@, d));
        }
    }

    /// Adds what a package manifest `doc` declares: its dependencies, its development
    /// dependencies with keys prefixed by `dev:`, and its scripts; entries whose value is not a
    /// string are left out.
    pub fn extract_js_metadata(&mut self, doc: Option<&Doc>)
        ensures
            final(self)@ == with_package_metadata(old(self)@, opt_val(doc)),
    {
        proof {
            reveal_strlit("");
        }
        if let Some(entries) = table_of(lookup_in(doc, "dependencies")) {
            insert_string_entries(&mut self.dependencies, entries, "");
        }
        if let Some(entries) = table_of(lookup_in(doc, "devDependencies")) {
            insert_string_entries(&mut self.dependencies, entries, "dev:");
        }
        if let Some(entries) = table_of(lookup_in(doc, "scripts")) {
            insert_string_entries(&mut self.scripts, entries, "");
        }
        proof {
            let d = opt_val(doc);
            assert(""@ =~= Seq::<char>::empty());
            let e = Seq::<(Seq<char>, Seq<char>)>::empty();
            assert(string_pairs(Seq::empty(), Seq::empty()) == e);
            assert(string_pairs(Seq::empty(), "dev:"@) == e);
            assert(insert_all(old(self)@.dependencies, e) == old(self)@.dependencies);
            assert(insert_all(old(self)@.scripts, e) == old(self)@.scripts);
            assert(self@ == with_package_metadata(old(self)@, d));
        }
    }

    /// Adds what the manifest of `project` declares, reading the manifest text of the probed
    /// directory that suits its type.
    pub fn extract_metadata(&mut self, project: &ProjectInfo, probe: &DirProbe)
        ensures
            final(self)@ == with_metadata(old(self)@, project.project_type, *probe),
    {
        match project.project_type {
            ProjectType::RustNormal | ProjectType::RustWasm => {
                let doc = match &probe.cargo_toml {
                    Some(t) => parse_toml(t.as_str()),
                    None => None,
                };
                self.extract_rust_metadata(doc.as_ref());
            },
            ProjectType::JavaScript | ProjectType::TypeScript | ProjectType::NodeJs => {
                let doc = match &probe.package_json {
                    Some(t) => parse_json(t.as_str()),
                    None => None,
                };
                self.extract_js_metadata(doc.as_ref());
            },
        }
    }
}

} // verus!
