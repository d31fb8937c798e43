//! Rendering project-aware command templates: a summary of the project placed above each
//! template text.
use vstd::prelude::*;
use crate::project::{
    is_rust_family, shown_type, InfoView, ProjectContext, ProjectStructure, ProjectType,
    StructureView,
};
use crate::strmap::Pairs;
use crate::templates::{table_view, templates_for, TemplateManager};
use crate::text::{decimal, decimal_string, join, join_seqs, str_eq};

verus! {

/// `s` where it has at most `n` items, else its first `n`.
pub open spec fn first_n<A>(s: Seq<A>, n: nat) -> Seq<A> {
    if s.len() <= n {
        s
    } else {
        s.take(n as int)
    }
}

/// A dependency worth naming in the summary of a project of type `t`.
pub open spec fn important(n: Seq<char>, t: ProjectType) -> bool {
    if is_rust_family(t) {
        n == "tokio"@ || n == "async-std"@ || n == "serde"@ || n == "clap"@ || n == "wasm-bindgen"@
            || n == "web-sys"@ || n == "js-sys"@
    } else {
        n == "react"@ || n == "vue"@ || n == "express"@ || n == "fastify"@ || n == "mongoose"@ || n
            == "prisma"@ || n == "jest"@ || n == "typescript"@
    }
}

/// The keys of `m`, in order.
pub open spec fn keys_of(m: Pairs) -> Seq<Seq<char>> {
    m.map_values(|p: (Seq<char>, Seq<char>)| p.0)
}

/// The names of `keys` that are important for type `t`, in order.
pub open spec fn important_keys(keys: Seq<Seq<char>>, t: ProjectType) -> Seq<Seq<char>>
    decreases keys.len(),
{
    if keys.len() == 0 {
        Seq::empty()
    } else {
        let rest = important_keys(keys.drop_last(), t);
        if important(keys.last(), t) {
            rest.push(keys.last())
        } else {
            rest
        }
    }
}

/// The summary of a project placed above each template: name and type, features, file
/// counts, up to five important dependencies and up to three scripts.
pub open spec fn context_text(info: InfoView, s: StructureView) -> Seq<char> {
    let key_deps = first_n(important_keys(keys_of(s.dependencies), info.project_type), 5);
    "Project: "@ + info.name + " ("@ + shown_type(info.project_type) + ")"@ + (if info.features.len()
        > 0 {
        "\nFeatures: "@ + join_seqs(info.features, ", "@)
    } else {
        Seq::empty()
    }) + "\nFiles: "@ + decimal(s.source_files.len()) + " source, "@ + decimal(s.test_files.len())
        + " tests, "@ + decimal(s.config_files.len()) + " configs"@ + (if key_deps.len() > 0 {
        "\nKey dependencies: "@ + join_seqs(key_deps, ", "@)
    } else {
        Seq::empty()
    }) + (if s.scripts.len() > 0 {
        "\nAvailable scripts: "@ + join_seqs(first_n(keys_of(s.scripts), 3), ", "@)
    } else {
        Seq::empty()
    })
}

/// The text of the template for suggested command `c`, where there is one.
pub open spec fn command_text(c: Seq<char>) -> Option<Seq<char>> {

    if c == "run-specific-test"@ {
        Some("Run a specific test file or test function in this Rust project. Please specify the test to run:"@)
    } else if c == "async-refactor"@ {
        Some("Refactor this synchronous Rust code to use async/await patterns, considering the tokio/async-std dependencies:"@)
    } else if c == "serialization-helper"@ {
        Some("Add Serde serialization/deserialization support to this Rust struct or enum:"@)
    } else if c == "wasm-size-analysis"@ {
        Some("Analyze and optimize this Rust WASM code for binary size reduction:"@)
    } else if c == "js-binding-generator"@ {
        Some("Generate JavaScript bindings for this Rust WASM function using wasm-bindgen:"@)
    } else if c == "webpack-wasm-optimization"@ {
        Some("Optimize webpack configuration for this Rust WASM project:"@)
    } else if c == "test-coverage-analysis"@ {
        Some("Analyze test coverage for this JavaScript/TypeScript project and suggest improvements:"@)
    } else if c == "react-component-generator"@ {
        Some("Generate a React component with TypeScript support for this functionality:"@)
    } else if c == "vue-component-generator"@ {
        Some("Generate a Vue.js component with TypeScript support for this functionality:"@)
    } else if c == "express-route-generator"@ {
        Some("Create Express.js route handlers with proper error handling and validation:"@)
    } else if c == "database-model-generator"@ {
        Some("Generate database models and schemas for this Node.js application:"@)
    } else if c == "documentation-generator"@ {
        Some("Generate comprehensive documentation for this project including README, API docs, and code comments:"@)
    } else if c == "docker-optimization"@ {
        Some("Optimize the Dockerfile and Docker configuration for this project:"@)
    } else if c == "ci-cd-enhancement"@ {
        Some("Improve CI/CD pipeline configuration for this project:"@)
    } else {
        None
    }
}

/// `text` below the summary `ctx`.
pub open spec fn below(ctx: Seq<char>, text: Seq<char>) -> Seq<char> {
    ctx + "\n\n"@ + text
}

/// The view of a list of (name, text) pairs.
pub open spec fn named_views(v: Seq<(String, String)>) -> Seq<(Seq<char>, Seq<char>)> {
    v.map_values(|p: (String, String)| (p.0@, p.1@))
}

/// The template of each command of `cmds` that has one, below the summary `ctx`, in order.
pub open spec fn command_templates(cmds: Seq<Seq<char>>, ctx: Seq<char>) -> Seq<
    (Seq<char>, Seq<char>),
>
    decreases cmds.len(),
{
    if cmds.len() == 0 {
        Seq::empty()
    } else {
        let rest = command_templates(cmds.drop_last(), ctx);
        match command_text(cmds.last()) {
            Some(t) => rest.push((cmds.last(), below(ctx, t))),
            None => rest,
        }
    }
}

/// The base templates of the project type with each text below the summary `ctx`.
pub open spec fn framed_base(t: ProjectType, ctx: Seq<char>) -> Seq<(Seq<char>, Seq<char>)> {
    templates_for(t).map_values(|p: (Seq<char>, Seq<char>)| (p.0, below(ctx, p.1)))
}

/// The view of a context's summary.
pub open spec fn summary_of(c: ProjectContext) -> Seq<char> {
    context_text(c.info@, c.structure@)
}

/// The text of the template for suggested command `c`, where there is one.
pub fn command_body(c: &str) -> (r: Option<&'static str>)
    ensures
        match r {
            Some(t) => command_text(c@) == Some(t@),
            None => command_text(c@) is None,
        },
{

    if str_eq(c, "run-specific-test") {
        Some("Run a specific test file or test function in this Rust project. Please specify the test to run:")
    } else if str_eq(c, "async-refactor") {
        Some("Refactor this synchronous Rust code to use async/await patterns, considering the tokio/async-std dependencies:")
    } else if str_eq(c, "serialization-helper") {
        Some("Add Serde serialization/deserialization support to this Rust struct or enum:")
    } else if str_eq(c, "wasm-size-analysis") {
        Some("Analyze and optimize this Rust WASM code for binary size reduction:")
    } else if str_eq(c, "js-binding-generator") {
        Some("Generate JavaScript bindings for this Rust WASM function using wasm-bindgen:")
    } else if str_eq(c, "webpack-wasm-optimization") {
        Some("Optimize webpack configuration for this Rust WASM project:")
    } else if str_eq(c, "test-coverage-analysis") {
        Some("Analyze test coverage for this JavaScript/TypeScript project and suggest improvements:")
    } else if str_eq(c, "react-component-generator") {
        Some("Generate a React component with TypeScript support for this functionality:")
    } else if str_eq(c, "vue-component-generator") {
        Some("Generate a Vue.js component with TypeScript support for this functionality:")
    } else if str_eq(c, "express-route-generator") {
        Some("Create Express.js route handlers with proper error handling and validation:")
    } else if str_eq(c, "database-model-generator") {
        Some("Generate database models and schemas for this Node.js application:")
    } else if str_eq(c, "documentation-generator") {
        Some("Generate comprehensive documentation for this project including README, API docs, and code comments:")
    } else if str_eq(c, "docker-optimization") {
        Some("Optimize the Dockerfile and Docker configuration for this project:")
    } else if str_eq(c, "ci-cd-enhancement") {
        Some("Improve CI/CD pipeline configuration for this project:")
    } else {
        None
    }
}

/// Templates rendered for a project's context.
pub struct SmartTemplateManager;

impl SmartTemplateManager {
    /// The template of each suggested command of `context` that has one, below the context's
    /// summary, in the order the commands were suggested.
    pub fn generate_context_specific_templates(context: &ProjectContext) -> (r: Vec<(String, String)>)
        ensures
            named_views(r@) == command_templates(
                context.suggested_commands@.map_values(|s: String| s@),
                summary_of(*context),
            ),
    {
        let mut templates: Vec<(String, String)> = Vec::new();
        let cmds = &context.suggested_commands;
        let ghost cv = cmds@.map_values(|s: String| s@);
        let mut i: usize = 0;
        while i < cmds.len()
            invariant
                i <= cmds@.len(),
                cv == cmds@.map_values(|s: String| s@),
                named_views(templates@) == command_templates(
                    cv.take(i as int),
                    summary_of(*context),
                ),
            decreases cmds@.len() - i,
        {
            proof {
                assert(cv.take(i + 1).drop_last() =~= cv.take(i as int));
                assert(cv.take(i + 1).last() == cmds@[i as int]@);
            }
            let ghost before = templates@;
            match Self::create_template_for_command(cmds[i].as_str(), context) {
                Some(t) => {
                    templates.push(t);
                    proof {
                        assert(named_views(templates@) =~= named_views(before).push(
                            (templates@.last().0@, templates@.last().1@),
                        ));
                    }
                },
                None => {},
            }
            i = i + 1;
        }
        proof {
            assert(cv.take(i as int) =~= cv);
        }
        templates
    }

    /// The template for suggested command `command` below the summary of `context`, named
    /// after the command; `None` for a command that has no template.
    pub fn create_template_for_command(command: &str, context: &ProjectContext) -> (r: Option<
        (String, String),
    >)
        ensures
            match r {
                Some(t) => command_text(command@) matches Some(x) && t.0@ == command@ && t.1@
                    == below(summary_of(*context), x),
                None => command_text(command@) is None,
            },
    {
        let base = Self::build_context_string(context);
        match command_body(command) {
            Some(text) => {
                let mut body = base;
                body.append("\n\n");
                body.append(text);
                Some((String::from_str(command), body))
            },
            None => None,
        }
    }

    /// The summary of `context`.
    pub fn build_context_string(context: &ProjectContext) -> (r: String)
        ensures
            r@ == summary_of(*context),
    {
        let info = &context.info;
        let structure = &context.structure;
        let mut ctx = String::from_str("Project: ");
        ctx.append(info.name.as_str());
        ctx.append(" (");
        ctx.append(info.project_type.name());
        ctx.append(")");
        let ghost head = ctx@;
        if info.features.len() > 0 {
            ctx.append("\nFeatures: ");
            let joined = join(&info.features, ", ");
            ctx.append(joined.as_str());
        }
        let ghost with_features = ctx@;
        ctx.append("\nFiles: ");
        ctx.append(decimal_string(structure.source_files.len()).as_str());
        ctx.append(" source, ");
        ctx.append(decimal_string(structure.test_files.len()).as_str());
        ctx.append(" tests, ");
        ctx.append(decimal_string(structure.config_files.len()).as_str());
        ctx.append(" configs");
        let ghost with_files = ctx@;
        let key_deps = Self::key_dependencies(structure, info.project_type);
        if key_deps.len() > 0 {
            ctx.append("\nKey dependencies: ");
            ctx.append(join(&key_deps, ", ").as_str());
        }
        let ghost with_deps = ctx@;
        if structure.scripts.len() > 0 {
            let names = Self::first_script_names(structure);
            ctx.append("\nAvailable scripts: ");
            ctx.append(join(&names, ", ").as_str());
        }
        proof {
            let iv = info@;
            let sv = structure@;
            assert(iv.features.len() == info.features@.len());
            assert(sv.source_files.len() == structure.source_files@.len());
            assert(sv.test_files.len() == structure.test_files@.len());
            assert(sv.config_files.len() == structure.config_files@.len());
            assert(ctx@ =~= context_text(iv, sv));
        }
        ctx
    }

    /// Up to five dependency names of `structure` that are important for type `t`.
    fn key_dependencies(structure: &ProjectStructure, t: ProjectType) -> (r: Vec<String>)
        ensures
            r@.map_values(|s: String| s@) == first_n(
                important_keys(keys_of(structure@.dependencies), t),
                5,
            ),
    {
        let deps = &structure.dependencies;
        let ghost keys = keys_of(deps@);
        let mut r: Vec<String> = Vec::new();
        let mut i: usize = 0;
        while i < deps.len()
            invariant
                i <= keys.len(),
                keys == keys_of(deps@),
                keys.len() == deps@.len(),
                r@.map_values(|s: String| s@) == first_n(important_keys(keys.take(i as int), t), 5),
            decreases keys.len() - i,
        {
            let (k, _) = deps.entry(i);
            let imp = Self::is_important_dependency(k.as_str(), &t);
            proof {
                let s = keys.take(i as int);
                let f = important_keys(s, t);
                assert(keys.take(i + 1).drop_last() =~= s);
                assert(keys.take(i + 1).last() == k@);
                if imp && f.len() >= 5 {
                    assert(f.push(k@).take(5) =~= f.take(5));
                }
            }
            if imp && r.len() < 5 {
                let ghost before = r@;
                r.push(k.clone());
                proof {
                    assert(r@.map_values(|s: String| s@) =~= before.map_values(|s: String| s@).push(k@));
                }
            }
            i = i + 1;
        }
        proof {
            assert(keys.take(i as int) =~= keys);
        }
        r
    }

    /// The names of the first three scripts of `structure`.
    fn first_script_names(structure: &ProjectStructure) -> (r: Vec<String>)
        ensures
            r@.map_values(|s: String| s@) == first_n(keys_of(structure@.scripts), 3),
    {
        let scripts = &structure.scripts;
        let ghost keys = keys_of(scripts@);
        let n: usize = if scripts.len() < 3 { scripts.len() } else { 3 };
        let mut r: Vec<String> = Vec::new();
        let mut i: usize = 0;
        while i < n
            invariant
                i <= n,
                n <= keys.len(),
                n == (if keys.len() < 3 { keys.len() } else { 3 }),
                keys == keys_of(scripts@),
                keys.len() == scripts@.len(),
                r@.map_values(|s: String| s@) =~= keys.take(i as int),
            decreases n - i,
        {
            let (k, _) = scripts.entry(i);
            let ghost before = r@;
            r.push(k.clone());
            proof {
                assert(keys[i as int] == k@);
                assert(r@.map_values(|s: String| s@) =~= before.map_values(|s: String| s@).push(k@));
                assert(keys.take(i + 1) =~= keys.take(i as int).push(keys[i as int]));
            }
            i = i + 1;
        }
        r
    }

    /// Whether the dependency `dep_name` is worth naming for a project of type `project_type`.
    pub fn is_important_dependency(dep_name: &str, project_type: &ProjectType) -> (r: bool)
        ensures
            r == important(dep_name@, *project_type),
    {
        match project_type {
            ProjectType::RustNormal | ProjectType::RustWasm => {
                str_eq(dep_name, "tokio") || str_eq(dep_name, "async-std") || str_eq(dep_name, "serde")
                    || str_eq(dep_name, "clap") || str_eq(dep_name, "wasm-bindgen") || str_eq(
                    dep_name,
                    "web-sys",
                ) || str_eq(dep_name, "js-sys")
            },
            ProjectType::JavaScript | ProjectType::TypeScript | ProjectType::NodeJs => {
                str_eq(dep_name, "react") || str_eq(dep_name, "vue") || str_eq(dep_name, "express")
                    || str_eq(dep_name, "fastify") || str_eq(dep_name, "mongoose") || str_eq(
                    dep_name,
                    "prisma",
                ) || str_eq(dep_name, "jest") || str_eq(dep_name, "typescript")
            },
        }
    }

    /// The base templates of the context's project type, each below the context's summary,
    /// followed by the templates of its suggested commands.
    pub fn create_enhanced_init_templates(context: &ProjectContext) -> (r: Vec<(String, String)>)
        ensures
            named_views(r@) == framed_base(context.info.project_type, summary_of(*context))
                + command_templates(
                context.suggested_commands@.map_values(|s: String| s@),
                summary_of(*context),
            ),
    {
        let base_templates = TemplateManager::get_templates_for_project(&context.info);
        let ctx = Self::build_context_string(context);
        let ghost bv = table_view(base_templates@);
        let mut templates: Vec<(String, String)> = Vec::new();
        let mut i: usize = 0;
        while i < base_templates.len()
            invariant
                i <= base_templates@.len(),
                bv == table_view(base_templates@),
                bv == templates_for(context.info.project_type),
                ctx@ == summary_of(*context),
                named_views(templates@) =~= framed_base(context.info.project_type, ctx@).take(i as int),
            decreases base_templates@.len() - i,
        {
            let (name, content) = base_templates[i];
            let mut body = ctx.clone();
            body.append("\n\n");
            body.append(content);
            let ghost before = templates@;
            templates.push((String::from_str(name), body));
            proof {
                let fb = framed_base(context.info.project_type, ctx@);
                assert(bv[i as int] == (name@, content@));
                assert(fb[i as int] == (name@, below(ctx@, content@)));
                assert(named_views(templates@) =~= named_views(before).push((name@, below(ctx@, content@))));
                assert(fb.take(i + 1) =~= fb.take(i as int).push(fb[i as int]));
                assert(named_views(templates@) =~= framed_base(context.info.project_type, ctx@).take(i + 1));
            }
            i = i + 1;
        }
        proof {
            assert(framed_base(context.info.project_type, ctx@).take(i as int) =~= framed_base(context.info.project_type, ctx@));
        }
        let extra = Self::generate_context_specific_templates(context);
        let ghost first = templates@;
        let mut j: usize = 0;
        while j < extra.len()
            invariant
                j <= extra@.len(),
                named_views(templates@) =~= named_views(first) + named_views(extra@).take(j as int),
            decreases extra@.len() - j,
        {
            let ghost before = templates@;
            templates.push((extra[j].0.clone(), extra[j].1.clone()));
            proof {
                let ev = named_views(extra@);
                assert(named_views(templates@) =~= named_views(before).push(ev[j as int]));
                assert(ev.take(j + 1) =~= ev.take(j as int).push(ev[j as int]));
                assert(named_views(templates@) =~= named_views(first) + named_views(extra@).take(j + 1));
            }
            j = j + 1;
        }
        proof {
            assert(named_views(extra@).take(j as int) =~= named_views(extra@));
        }
        templates
    }
}

} // verus!
