//! The rule table that maps a project's type and structure to suggested commands, and the
//! assembly of a whole project context.
use vstd::prelude::*;
use crate::classify::{detect_spec, tag_if};
use crate::paths::{file_name, file_name_of};
use crate::project::{
    DirProbe, ProjectContext, ProjectDetector, ProjectInfo, ProjectStructure, ProjectType,
    StructureView,
};
use crate::strmap::has_key;
use crate::structure::with_metadata;
use crate::text::{str_eq, string_views};

verus! {

/// Some path of `files` has file name `n`.
pub open spec fn any_named(files: Seq<Seq<char>>, n: Seq<char>) -> bool {
    exists|i: int| 0 <= i < files.len() && file_name(files[i]) == n
}

/// The suggestions that depend on the project type, in rule order.
pub open spec fn type_rules(t: ProjectType, s: StructureView) -> Seq<Seq<char>> {
    let deps = s.dependencies;
    match t {
        ProjectType::RustNormal => tag_if(s.test_files.len() > 0, "run-specific-test"@) + tag_if(
            has_key(deps, "tokio"@) || has_key(deps, "async-std"@),
            "async-refactor"@,
        ) + tag_if(has_key(deps, "serde"@), "serialization-helper"@),
        ProjectType::RustWasm => seq!["wasm-size-analysis"@, "js-binding-generator"@] + tag_if(
            any_named(s.config_files, "webpack.config.js"@),
            "webpack-wasm-optimization"@,
        ),
        ProjectType::JavaScript | ProjectType::TypeScript => tag_if(
            has_key(s.scripts, "test"@),
            "test-coverage-analysis"@,
        ) + tag_if(has_key(deps, "react"@), "react-component-generator"@) + tag_if(
            has_key(deps, "vue"@),
            "vue-component-generator"@,
        ),
        ProjectType::NodeJs => tag_if(has_key(deps, "express"@), "express-route-generator"@)
            + tag_if(
            has_key(deps, "mongoose"@) || has_key(deps, "prisma"@),
            "database-model-generator"@,
        ),
    }
}

/// All suggestions for a project of type `t` with structure `s`: the type's rules, then the
/// rules that hold for every type.
pub open spec fn suggestions(t: ProjectType, s: StructureView) -> Seq<Seq<char>> {
    type_rules(t, s) + tag_if(s.doc_files.len() == 0, "documentation-generator"@) + tag_if(
        any_named(s.config_files, "Dockerfile"@),
        "docker-optimization"@,
    ) + tag_if(any_named(s.config_files, ".github"@), "ci-cd-enhancement"@)
}

/// Whether some path of `files` has file name `n`.
pub fn any_file_named(files: &Vec<String>, n: &str) -> (r: bool)
    ensures
        r == any_named(string_views(files@), n@),
{
    let mut i: usize = 0;
    while i < files.len()
        invariant
            i <= files.len(),
            forall|j: int| 0 <= j < i ==> file_name(#[trigger] files@[j]@) != n@,
        decreases files.len() - i,
    {
        if str_eq(file_name_of(files[i].as_str()).as_str(), n) {
            proof {
                assert(string_views(files@)[i as int] == files@[i as int]@);
            }
            return true;
        }
        i = i + 1;
    }
    proof {
        assert forall|j: int| 0 <= j < files@.len() implies file_name(
            string_views(files@)[j],
        ) != n@ by {
            assert(string_views(files@)[j] == files@[j]@);
        }
    }
    false
}

fn push_tag(v: &mut Vec<String>, b: bool, tag: &str)
    ensures
        string_views(final(v)@) == string_views(old(v)@) + tag_if(b, tag@),
{
    if b {
        v.push(String::from_str(tag));
    }
    proof {
        assert(string_views(final(v)@) =~= string_views(old(v)@) + tag_if(b, tag@));
    }
}

impl ProjectDetector {
    /// The commands suggested for `info` and `structure`, in rule order.
    pub fn suggest_commands(info: &ProjectInfo, structure: &ProjectStructure) -> (r: Vec<String>)
        ensures
            string_views(r@) == suggestions(info.project_type, structure@),
    {
        let mut commands: Vec<String> = Vec::new();
        let deps = &structure.dependencies;
        match info.project_type {
            ProjectType::RustNormal => {
                push_tag(&mut commands, structure.test_files.len() > 0, "run-specific-test");
                push_tag(
                    &mut commands,
                    deps.contains_key("tokio") || deps.contains_key("async-std"),
                    "async-refactor",
                );
                push_tag(&mut commands, deps.contains_key("serde"), "serialization-helper");
            },
            ProjectType::RustWasm => {
                push_tag(&mut commands, true, "wasm-size-analysis");
                push_tag(&mut commands, true, "js-binding-generator");
                push_tag(
                    &mut commands,
                    any_file_named(&structure.config_files, "webpack.config.js"),
                    "webpack-wasm-optimization",
                );
            },
            ProjectType::JavaScript | ProjectType::TypeScript => {
                push_tag(
                    &mut commands,
                    structure.scripts.contains_key("test"),
                    "test-coverage-analysis",
                );
                push_tag(&mut commands, deps.contains_key("react"), "react-component-generator");
                push_tag(&mut commands, deps.contains_key("vue"), "vue-component-generator");
            },
            ProjectType::NodeJs => {
                push_tag(&mut commands, deps.contains_key("express"), "express-route-generator");
                push_tag(
                    &mut commands,
                    deps.contains_key("mongoose") || deps.contains_key("prisma"),
                    "database-model-generator",
                );
            },
        }
        let ghost typed = string_views(commands@);
        proof {
            assert(typed =~= type_rules(info.project_type, structure@));
        }
        push_tag(&mut commands, structure.doc_files.len() == 0, "documentation-generator");
        push_tag(
            &mut commands,
            any_file_named(&structure.config_files, "Dockerfile"),
            "docker-optimization",
        );
        push_tag(
            &mut commands,
            any_file_named(&structure.config_files, ".github"),
            "ci-cd-enhancement",
        );
        commands
    }

    /// The scanned structure `scanned` of the project `project`, completed with what the
    /// manifest of the probed directory declares.
    pub fn analyze_project_structure(
        project: &ProjectInfo,
        probe: &DirProbe,
        scanned: ProjectStructure,
    ) -> (r: ProjectStructure)
        ensures
            r@ == with_metadata(scanned@, project.project_type, *probe),
    {
        let mut structure = scanned;
        structure.extract_metadata(project, probe);
        structure
    }

    /// The context of the probed directory: its classification, its scanned structure
    /// completed from its manifest, and the commands suggested for it; `None` where the
    /// directory holds no supported project.
    pub fn create_project_context(probe: &DirProbe, scanned: ProjectStructure) -> (r: Option<
        ProjectContext,
    >)
        ensures
            match r {
                Some(c) => {
                    &&& detect_spec(*probe) == Some(c.info@)
                    &&& c.structure@ == with_metadata(scanned@, c.info.project_type, *probe)
                    &&& string_views(c.suggested_commands@) == suggestions(
                        c.info.project_type,
                        c.structure@,
                    )
                },
                None => detect_spec(*probe) is None,
            },
    {
        let info = match Self::detect_project(probe) {
            Some(i) => i,
            None => return None,
        };
        let structure = Self::analyze_project_structure(&info, probe, scanned);
        let suggested_commands = Self::suggest_commands(&info, &structure);
        Some(ProjectContext { info, structure, suggested_commands })
    }
}

} // verus!
