//! The base command templates of each project type, and framing a template with what is known
//! of the project.
use vstd::prelude::*;
use crate::project::{shown_type, InfoView, ProjectInfo, ProjectType};
use crate::strmap::StrMap;
use crate::text::{join, join_seqs};

verus! {

/// The view of a table of named templates.
pub open spec fn table_view(t: Seq<(&'static str, &'static str)>) -> Seq<(Seq<char>, Seq<char>)> {
    t.map_values(|p: (&'static str, &'static str)| (p.0@, p.1@))
}

/// The base templates for Rust crates.
pub open spec fn rust_table() -> Seq<(Seq<char>, Seq<char>)> {
    seq![
        ("review-performance"@, "Analyze the performance characteristics of this Rust code and suggest improvements to make it faster or more efficient:"@),
        ("generate-tests"@, "Generate unit tests for the following Rust function using the built-in test framework:"@),
        ("add-documentation"@, "Add comprehensive Rust documentation comments (///) to the following code:"@),
        ("optimize-memory"@, "Review this Rust code for memory usage optimization opportunities:"@),
        ("add-error-handling"@, "Improve error handling in this Rust code using Result<T, E> and proper error types:"@),
        ("refactor-traits"@, "Suggest trait implementations or refactoring opportunities for this Rust code:"@),
        ("cargo-optimization"@, "Analyze and suggest Cargo.toml optimizations for this Rust project:"@),
        ("async-conversion"@, "Convert this synchronous Rust code to use async/await patterns:"@),
    ]
}

/// The base templates for Rust crates built for WebAssembly.
pub open spec fn rust_wasm_table() -> Seq<(Seq<char>, Seq<char>)> {
    seq![
        ("wasm-bindgen-wrapper"@, "Create wasm-bindgen JavaScript bindings for this Rust function:"@),
        ("wasm-optimize"@, "Optimize this Rust code for WebAssembly size and performance:"@),
        ("js-interop"@, "Create JavaScript interop code for this Rust WASM module:"@),
        ("wasm-memory-management"@, "Review and optimize memory management for this Rust WASM code:"@),
        ("wasm-pack-config"@, "Generate wasm-pack configuration for this Rust WebAssembly project:"@),
        ("browser-integration"@, "Create browser integration code for this Rust WASM module:"@),
        ("wasm-types"@, "Convert these Rust types to be WASM-compatible with proper serialization:"@),
        ("performance-profile"@, "Create performance profiling setup for this Rust WASM application:"@),
    ]
}

/// The base templates for JavaScript projects.
pub open spec fn javascript_table() -> Seq<(Seq<char>, Seq<char>)> {
    seq![
        ("add-jsdoc"@, "Add comprehensive JSDoc comments to the following JavaScript code:"@),
        ("modernize-syntax"@, "Convert this JavaScript code to use modern ES6+ syntax and features:"@),
        ("add-error-handling"@, "Improve error handling in this JavaScript code with try-catch and proper validation:"@),
        ("generate-tests"@, "Generate unit tests for the following JavaScript function using Jest:"@),
        ("optimize-performance"@, "Analyze and optimize the performance of this JavaScript code:"@),
        ("add-validation"@, "Add input validation and type checking to this JavaScript function:"@),
        ("convert-promises"@, "Convert this callback-based JavaScript code to use Promises or async/await:"@),
        ("bundle-analysis"@, "Analyze this JavaScript code for bundle size optimization opportunities:"@),
    ]
}

/// The base templates for TypeScript projects.
pub open spec fn typescript_table() -> Seq<(Seq<char>, Seq<char>)> {
    seq![
        ("add-types"@, "Add comprehensive TypeScript type annotations to this JavaScript code:"@),
        ("interface-design"@, "Design TypeScript interfaces and types for this code structure:"@),
        ("generic-implementation"@, "Implement TypeScript generics to make this code more reusable:"@),
        ("strict-mode-fix"@, "Fix TypeScript strict mode errors in this code:"@),
        ("type-guards"@, "Create TypeScript type guards for runtime type checking:"@),
        ("utility-types"@, "Use TypeScript utility types to improve this code structure:"@),
        ("declaration-files"@, "Generate TypeScript declaration files (.d.ts) for this JavaScript library:"@),
        ("tsconfig-optimization"@, "Optimize tsconfig.json settings for this TypeScript project:"@),
    ]
}

/// The base templates for Node.js programs.
pub open spec fn nodejs_table() -> Seq<(Seq<char>, Seq<char>)> {
    seq![
        ("express-middleware"@, "Create Express.js middleware for this functionality:"@),
        ("api-endpoint"@, "Design and implement a RESTful API endpoint for this Node.js application:"@),
        ("database-integration"@, "Add database integration code for this Node.js function:"@),
        ("environment-config"@, "Create environment-based configuration management for this Node.js app:"@),
        ("logging-setup"@, "Implement comprehensive logging for this Node.js application:"@),
        ("authentication"@, "Add authentication and authorization to this Node.js API:"@),
        ("docker-setup"@, "Create Docker configuration for this Node.js application:"@),
        ("performance-monitoring"@, "Add performance monitoring and health checks to this Node.js service:"@),
        ("package-optimization"@, "Optimize package.json and dependencies for this Node.js project:"@),
    ]
}

/// The base templates for a project of type `t`.
pub open spec fn templates_for(t: ProjectType) -> Seq<(Seq<char>, Seq<char>)> {
    match t {
        ProjectType::RustNormal => rust_table(),
        ProjectType::RustWasm => rust_wasm_table(),
        ProjectType::JavaScript => javascript_table(),
        ProjectType::TypeScript => typescript_table(),
        ProjectType::NodeJs => nodejs_table(),
    }
}

/// `content` under a header naming the project, its type and its features.
pub open spec fn framed(info: InfoView, content: Seq<char>) -> Seq<char> {
    let features = if info.features.len() > 0 {
        "Features: "@ + join_seqs(info.features, ", "@)
    } else {
        Seq::empty()
    };
    "Project: "@ + info.name + " ("@ + shown_type(info.project_type) + ")"@ + "\n"@ + features
        + "\n\n"@ + content
}

/// The base command templates.
pub struct TemplateManager;

impl TemplateManager {
    /// The base templates for the type of `project`, as (name, text) pairs.
    pub fn get_templates_for_project(project: &ProjectInfo) -> (r: Vec<(&'static str, &'static str)>)
        ensures
            table_view(r@) == templates_for(project.project_type),
    {
        match project.project_type {
            ProjectType::RustNormal => Self::rust_templates(),
            ProjectType::RustWasm => Self::rust_wasm_templates(),
            ProjectType::JavaScript => Self::javascript_templates(),
            ProjectType::TypeScript => Self::typescript_templates(),
            ProjectType::NodeJs => Self::nodejs_templates(),
        }
    }

    /// The base templates for Rust crates.
    pub fn rust_templates() -> (r: Vec<(&'static str, &'static str)>)
        ensures
            table_view(r@) == rust_table(),
    {
        let r = vec![
            ("review-performance", "Analyze the performance characteristics of this Rust code and suggest improvements to make it faster or more efficient:"),
            ("generate-tests", "Generate unit tests for the following Rust function using the built-in test framework:"),
            ("add-documentation", "Add comprehensive Rust documentation comments (///) to the following code:"),
            ("optimize-memory", "Review this Rust code for memory usage optimization opportunities:"),
            ("add-error-handling", "Improve error handling in this Rust code using Result<T, E> and proper error types:"),
            ("refactor-traits", "Suggest trait implementations or refactoring opportunities for this Rust code:"),
            ("cargo-optimization", "Analyze and suggest Cargo.toml optimizations for this Rust project:"),
            ("async-conversion", "Convert this synchronous Rust code to use async/await patterns:"),
        ];
        proof {
            assert(table_view(r@) =~= rust_table());
        }
        r
    }

    /// The base templates for Rust crates built for WebAssembly.
    pub fn rust_wasm_templates() -> (r: Vec<(&'static str, &'static str)>)
        ensures
            table_view(r@) == rust_wasm_table(),
    {
        let r = vec![
            ("wasm-bindgen-wrapper", "Create wasm-bindgen JavaScript bindings for this Rust function:"),
            ("wasm-optimize", "Optimize this Rust code for WebAssembly size and performance:"),
            ("js-interop", "Create JavaScript interop code for this Rust WASM module:"),
            ("wasm-memory-management", "Review and optimize memory management for this Rust WASM code:"),
            ("wasm-pack-config", "Generate wasm-pack configuration for this Rust WebAssembly project:"),
            ("browser-integration", "Create browser integration code for this Rust WASM module:"),
            ("wasm-types", "Convert these Rust types to be WASM-compatible with proper serialization:"),
            ("performance-profile", "Create performance profiling setup for this Rust WASM application:"),
        ];
        proof {
            assert(table_view(r@) =~= rust_wasm_table());
        }
        r
    }

    /// The base templates for JavaScript projects.
    pub fn javascript_templates() -> (r: Vec<(&'static str, &'static str)>)
        ensures
            table_view(r@) == javascript_table(),
    {
        let r = vec![
            ("add-jsdoc", "Add comprehensive JSDoc comments to the following JavaScript code:"),
            ("modernize-syntax", "Convert this JavaScript code to use modern ES6+ syntax and features:"),
            ("add-error-handling", "Improve error handling in this JavaScript code with try-catch and proper validation:"),
            ("generate-tests", "Generate unit tests for the following JavaScript function using Jest:"),
            ("optimize-performance", "Analyze and optimize the performance of this JavaScript code:"),
            ("add-validation", "Add input validation and type checking to this JavaScript function:"),
            ("convert-promises", "Convert this callback-based JavaScript code to use Promises or async/await:"),
            ("bundle-analysis", "Analyze this JavaScript code for bundle size optimization opportunities:"),
        ];
        proof {
            assert(table_view(r@) =~= javascript_table());
        }
        r
    }

    /// The base templates for TypeScript projects.
    pub fn typescript_templates() -> (r: Vec<(&'static str, &'static str)>)
        ensures
            table_view(r@) == typescript_table(),
    {
        let r = vec![
            ("add-types", "Add comprehensive TypeScript type annotations to this JavaScript code:"),
            ("interface-design", "Design TypeScript interfaces and types for this code structure:"),
            ("generic-implementation", "Implement TypeScript generics to make this code more reusable:"),
            ("strict-mode-fix", "Fix TypeScript strict mode errors in this code:"),
            ("type-guards", "Create TypeScript type guards for runtime type checking:"),
            ("utility-types", "Use TypeScript utility types to improve this code structure:"),
            ("declaration-files", "Generate TypeScript declaration files (.d.ts) for this JavaScript library:"),
            ("tsconfig-optimization", "Optimize tsconfig.json settings for this TypeScript project:"),
        ];
        proof {
            assert(table_view(r@) =~= typescript_table());
        }
        r
    }

    /// The base templates for Node.js programs.
    pub fn nodejs_templates() -> (r: Vec<(&'static str, &'static str)>)
        ensures
            table_view(r@) == nodejs_table(),
    {
        let r = vec![
            ("express-middleware", "Create Express.js middleware for this functionality:"),
            ("api-endpoint", "Design and implement a RESTful API endpoint for this Node.js application:"),
            ("database-integration", "Add database integration code for this Node.js function:"),
            ("environment-config", "Create environment-based configuration management for this Node.js app:"),
            ("logging-setup", "Implement comprehensive logging for this Node.js application:"),
            ("authentication", "Add authentication and authorization to this Node.js API:"),
            ("docker-setup", "Create Docker configuration for this Node.js application:"),
            ("performance-monitoring", "Add performance monitoring and health checks to this Node.js service:"),
            ("package-optimization", "Optimize package.json and dependencies for this Node.js project:"),
        ];
        proof {
            assert(table_view(r@) =~= nodejs_table());
        }
        r
    }

    /// Templates the user added by name; none are kept here.
    pub fn get_custom_templates() -> (r: StrMap)
        ensures
            r@.len() == 0,
    {
        StrMap::new()
    }

    /// `content` under a header naming `project`, its type and its features.
    pub fn create_project_specific_template(
        project: &ProjectInfo,
        _template_name: &str,
        content: &str,
    ) -> (r: String)
        ensures
            r@ == framed(project@, content@),
    {
        let mut r = String::from_str("Project: ");
        r.append(project.name.as_str());
        r.append(" (");
        r.append(project.project_type.name());
        r.append(")");
        r.append("\n");
        if project.features.len() > 0 {
            r.append("Features: ");
            let joined = join(&project.features, ", ");
            r.append(joined.as_str());
        }
        r.append("\n\n");
        r.append(content);
        proof {
            let info = project@;
            if info.features.len() > 0 {
                assert(r@ =~= framed(info, content@));
            } else {
                assert(r@ =~= framed(info, content@));
            }
        }
        r
    }
}

} // verus!
