//! The data the pipeline produces: what kind of project a directory holds, what files it has,
//! and which commands suit it.
use vstd::prelude::*;
use crate::strmap::{Pairs, StrMap};
use crate::text::string_views;

verus! {

/// The ecosystem and variant of a project.
#[derive(Clone, Copy, Debug, PartialEq, Eq, Structural)]
pub enum ProjectType {
    RustNormal,
    RustWasm,
    JavaScript,
    TypeScript,
    NodeJs,
}

/// The name under which a project type is shown.
pub open spec fn shown_type(t: ProjectType) -> Seq<char> {
    match t {
        ProjectType::RustNormal => "RustNormal"@,
        ProjectType::RustWasm => "RustWasm"@,
        ProjectType::JavaScript => "JavaScript"@,
        ProjectType::TypeScript => "TypeScript"@,
        ProjectType::NodeJs => "NodeJs"@,
    }
}

/// The project type belongs to the Rust ecosystem.
pub open spec fn is_rust_family(t: ProjectType) -> bool {
    t == ProjectType::RustNormal || t == ProjectType::RustWasm
}

impl ProjectType {
    /// The name under which the type is shown.
    pub fn name(&self) -> (r: &'static str)
        ensures
            r@ == shown_type(*self),
    {
        match self {
            ProjectType::RustNormal => "RustNormal",
            ProjectType::RustWasm => "RustWasm",
            ProjectType::JavaScript => "JavaScript",
            ProjectType::TypeScript => "TypeScript",
            ProjectType::NodeJs => "NodeJs",
        }
    }
}

/// What classification found in a directory.
#[derive(Clone, Debug)]
pub struct ProjectInfo {
    pub project_type: ProjectType,
    pub name: String,
    pub path: String,
    pub features: Vec<String>,
}

/// The view of a `ProjectInfo`.
pub struct InfoView {
    pub project_type: ProjectType,
    pub name: Seq<char>,
    pub path: Seq<char>,
    pub features: Seq<Seq<char>>,
}

impl View for ProjectInfo {
    type V = InfoView;

    open spec fn view(&self) -> InfoView {
        InfoView {
            project_type: self.project_type,
            name: self.name@,
            path: self.path@,
            features: string_views(self.features@),
        }
    }
}

/// The files of a project by role, and what its manifest declares.
#[derive(Clone, Debug)]
pub struct ProjectStructure {
    pub source_files: Vec<String>,
    pub test_files: Vec<String>,
    pub config_files: Vec<String>,
    pub doc_files: Vec<String>,
    pub dependencies: StrMap,
    pub scripts: StrMap,
    pub entry_points: Vec<String>,
}

/// The view of a `ProjectStructure`.
pub struct StructureView {
    pub source_files: Seq<Seq<char>>,
    pub test_files: Seq<Seq<char>>,
    pub config_files: Seq<Seq<char>>,
    pub doc_files: Seq<Seq<char>>,
    pub dependencies: Pairs,
    pub scripts: Pairs,
    pub entry_points: Seq<Seq<char>>,
}

impl View for ProjectStructure {
    type V = StructureView;

    open spec fn view(&self) -> StructureView {
        StructureView {
            source_files: string_views(self.source_files@),
            test_files: string_views(self.test_files@),
            config_files: string_views(self.config_files@),
            doc_files: string_views(self.doc_files@),
            dependencies: self.dependencies@,
            scripts: self.scripts@,
            entry_points: string_views(self.entry_points@),
        }
    }
}

impl ProjectStructure {
    /// The view of a structure with no file and no declaration.
    pub open spec fn new_view() -> StructureView {
        StructureView {
            source_files: Seq::empty(),
            test_files: Seq::empty(),
            config_files: Seq::empty(),
            doc_files: Seq::empty(),
            dependencies: Seq::empty(),
            scripts: Seq::empty(),
            entry_points: Seq::empty(),
        }
    }

    /// A structure with no file and no declaration.
    pub fn new() -> (r: ProjectStructure)
        ensures
            r@ == Self::new_view(),
    {
        let r = ProjectStructure {
            source_files: Vec::new(),
            test_files: Vec::new(),
            config_files: Vec::new(),
            doc_files: Vec::new(),
            dependencies: StrMap::new(),
            scripts: StrMap::new(),
            entry_points: Vec::new(),
        };
        proof {
            assert(r@.source_files =~= Seq::empty());
            assert(r@.test_files =~= Seq::empty());
            assert(r@.config_files =~= Seq::empty());
            assert(r@.doc_files =~= Seq::empty());
            assert(r@.entry_points =~= Seq::empty());
        }
        r
    }
}

/// Classification, structure and suggested commands of one project.
#[derive(Clone, Debug)]
pub struct ProjectContext {
    pub info: ProjectInfo,
    pub structure: ProjectStructure,
    pub suggested_commands: Vec<String>,
}

/// What classification reads of a directory: its path, the names of its entries, and the
/// text of each manifest that could be read.
#[derive(Clone, Debug)]
pub struct DirProbe {
    pub path: String,
    pub entries: Vec<String>,
    pub cargo_toml: Option<String>,
    pub package_json: Option<String>,
}

/// Classifies directories and assembles project contexts.
pub struct ProjectDetector;

} // verus!
