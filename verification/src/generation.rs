//! The description of a code generation run: which schema files are
//! compiled, where they are looked up, and which schema types are taken from
//! other crates.

use vstd::prelude::*;

verus! {

/// A schema type that lives in another crate: its path in the schema and the
/// path of the Rust type that stands for it.
#[derive(Debug, PartialEq, Eq, Hash)]
pub struct ExternPath {
    pub proto_path: &'static str,
    pub rust_path: &'static str,
}

/// What an [`ExternPath`] stands for.
pub struct ExternPathView {
    pub proto_path: Seq<char>,
    pub rust_path: Seq<char>,
}

impl View for ExternPath {
    type V = ExternPathView;

    open spec fn view(&self) -> ExternPathView {
        ExternPathView { proto_path: self.proto_path@, rust_path: self.rust_path@ }
    }
}

impl DeepView for ExternPath {
    type V = ExternPathView;

    open spec fn deep_view(&self) -> ExternPathView {
        self@
    }
}

impl ExternPath {
    /// The schema type at `proto_path`, found in Rust at `rust_path`.
    pub fn new(proto_path: &'static str, rust_path: &'static str) -> (path: Self)
        ensures
            path@ == (ExternPathView { proto_path: proto_path@, rust_path: rust_path@ }),
    {
        ExternPath { proto_path, rust_path }
    }
}

/// How the names of Swift types are made from the names of schema types.
#[derive(Debug)]
pub enum SwiftNaming {
    FullPath,
    PathToUnderscores,
    DropPath,
}

impl Default for SwiftNaming {
    fn default() -> (naming: Self)
        ensures
            naming is PathToUnderscores,
    {
        Self::PathToUnderscores
    }
}

impl SwiftNaming {
    /// The name of the naming scheme, as the generator's options spell it.
    pub open spec fn spec_name(self) -> Seq<char> {
        match self {
            SwiftNaming::FullPath => "FullPath"@,
            SwiftNaming::PathToUnderscores => "PathToUnderscores"@,
            SwiftNaming::DropPath => "DropPath"@,
        }
    }

    /// The name of the naming scheme, as the generator's options spell it.
    pub fn as_str(&self) -> (name: &'static str)
        ensures
            name@ == self.spec_name(),
    {
        match self {
            SwiftNaming::FullPath => "FullPath",
            SwiftNaming::PathToUnderscores => "PathToUnderscores",
            SwiftNaming::DropPath => "DropPath",
        }
    }
}

/// The schema files whose types belong to one Swift module.
pub struct SwiftModuleMappings {
    pub module_name: String,
    pub proto_files: Vec<String>,
}

/// What a [`SwiftModuleMappings`] stands for.
pub struct SwiftModuleMappingsView {
    pub module_name: Seq<char>,
    pub proto_files: Seq<Seq<char>>,
}

impl View for SwiftModuleMappings {
    type V = SwiftModuleMappingsView;

    open spec fn view(&self) -> SwiftModuleMappingsView {
        SwiftModuleMappingsView {
            module_name: self.module_name@,
            proto_files: self.proto_files.deep_view(),
        }
    }
}

/// Moves the elements of `more` behind those of `list`.
fn extended<T: DeepView>(list: Vec<T>, more: Vec<T>) -> (all: Vec<T>)
    ensures
        all.deep_view() == list.deep_view() + more.deep_view(),
{
    let mut all = list;
    let mut rest = more;
    all.append(&mut rest);
    all
}

/// Puts `element` behind the elements of `list`.
fn pushed<T: DeepView>(list: Vec<T>, element: T) -> (all: Vec<T>)
    ensures
        all.deep_view() == list.deep_view().push(element.deep_view()),
{
    let mut all = list;
    all.push(element);
    all
}

impl SwiftModuleMappings {
    /// The module called `module_name`, with no schema files yet.
    pub fn new(module_name: String) -> (mappings: Self)
        ensures
            mappings@ == (SwiftModuleMappingsView {
                module_name: module_name@,
                proto_files: Seq::empty(),
            }),
    {
        let proto_files: Vec<String> = Vec::new();
        assert(proto_files.deep_view() =~= Seq::<Seq<char>>::empty());
        Self { module_name, proto_files }
    }

    /// Adds one schema file behind those that the module has.
    pub fn with_proto_file(self, proto_file: &str) -> (mappings: Self)
        ensures
            mappings@ == (SwiftModuleMappingsView {
                module_name: self@.module_name,
                proto_files: self@.proto_files.push(proto_file@),
            }),
    {
        Self {
            module_name: self.module_name,
            proto_files: pushed(self.proto_files, proto_file.to_owned()),
        }
    }

    /// Adds schema files, in their order, behind those that the module has.
    pub fn with_proto_files(self, proto_files: Vec<String>) -> (mappings: Self)
        ensures
            mappings@ == (SwiftModuleMappingsView {
                module_name: self@.module_name,
                proto_files: self@.proto_files + proto_files.deep_view(),
            }),
    {
        Self { module_name: self.module_name, proto_files: extended(self.proto_files, proto_files) }
    }
}

/// What a code generation run works from.
pub struct ProtosGenerationConfig {
    /// The directory of the crate that receives the generated code.
    pub crate_dir: String,
    /// The name of that crate.
    pub crate_name: String,
    /// The directory below which the schema files lie.
    pub include_dir: String,
    /// The module of the crate that receives the generated code.
    pub mod_name: String,
    /// The schema files to compile, each relative to `include_dir`.
    pub proto_files: Vec<String>,
    /// The directories in which imported schema files are looked up.
    pub import_paths: Vec<String>,
    /// The schema types that are taken from other crates.
    pub extern_paths: Vec<ExternPath>,
}

/// What a [`ProtosGenerationConfig`] stands for.
pub struct ProtosGenerationConfigView {
    pub crate_dir: Seq<char>,
    pub crate_name: Seq<char>,
    pub include_dir: Seq<char>,
    pub mod_name: Seq<char>,
    pub proto_files: Seq<Seq<char>>,
    pub import_paths: Seq<Seq<char>>,
    pub extern_paths: Seq<ExternPathView>,
}

impl View for ProtosGenerationConfig {
    type V = ProtosGenerationConfigView;

    open spec fn view(&self) -> ProtosGenerationConfigView {
        ProtosGenerationConfigView {
            crate_dir: self.crate_dir@,
            crate_name: self.crate_name@,
            include_dir: self.include_dir@,
            mod_name: self.mod_name@,
            proto_files: self.proto_files.deep_view(),
            import_paths: self.import_paths.deep_view(),
            extern_paths: self.extern_paths.deep_view(),
        }
    }
}

impl ProtosGenerationConfig {
    /// The run for the crate `crate_name` in `crate_dir` that looks its
    /// schema files up below `include_dir`. The generated code goes to the
    /// module `protos`; nothing is compiled, imported or taken from elsewhere
    /// yet.
    pub fn new(crate_dir: &str, crate_name: &str, include_dir: &str) -> (config: Self)
        ensures
            config@ == (ProtosGenerationConfigView {
                crate_dir: crate_dir@,
                crate_name: crate_name@,
                include_dir: include_dir@,
                mod_name: "protos"@,
                proto_files: Seq::empty(),
                import_paths: Seq::empty(),
                extern_paths: Seq::empty(),
            }),
    {
        let proto_files: Vec<String> = Vec::new();
        let import_paths: Vec<String> = Vec::new();
        let extern_paths: Vec<ExternPath> = Vec::new();
        assert(import_paths.deep_view() =~= Seq::<Seq<char>>::empty());
        assert(extern_paths.deep_view() =~= Seq::<ExternPathView>::empty());
        Self {
            crate_dir: crate_dir.to_owned(),
            crate_name: crate_name.to_owned(),
            include_dir: include_dir.to_owned(),
            mod_name: "protos".to_owned(),
            proto_files,
            import_paths,
            extern_paths,
        }
    }

    /// Replaces the directory below which the schema files lie.
    pub fn with_include_dir(self, include_dir: &str) -> (config: Self)
        ensures
            config@ == (ProtosGenerationConfigView { include_dir: include_dir@, ..self@ }),
    {
        let include_dir = include_dir.to_owned();
        Self {
            crate_dir: self.crate_dir,
            crate_name: self.crate_name,
            include_dir,
            mod_name: self.mod_name,
            proto_files: self.proto_files,
            import_paths: self.import_paths,
            extern_paths: self.extern_paths,
        }
    }

    /// Adds one schema file behind those that are compiled already.
    pub fn with_proto_file(self, proto_file: &str) -> (config: Self)
        ensures
            config@ == (ProtosGenerationConfigView {
                proto_files: self@.proto_files.push(proto_file@),
                ..self@
            }),
    {
        let proto_files = pushed(self.proto_files, proto_file.to_owned());
        Self {
            crate_dir: self.crate_dir,
            crate_name: self.crate_name,
            include_dir: self.include_dir,
            mod_name: self.mod_name,
            proto_files,
            import_paths: self.import_paths,
            extern_paths: self.extern_paths,
        }
    }

    /// Adds schema files, in their order, behind those that are compiled
    /// already.
    pub fn with_proto_files(self, proto_files: Vec<String>) -> (config: Self)
        ensures
            config@ == (ProtosGenerationConfigView {
                proto_files: self@.proto_files + proto_files.deep_view(),
                ..self@
            }),
    {
        let new_proto_files = extended(self.proto_files, proto_files);
        Self {
            crate_dir: self.crate_dir,
            crate_name: self.crate_name,
            include_dir: self.include_dir,
            mod_name: self.mod_name,
            proto_files: new_proto_files,
            import_paths: self.import_paths,
            extern_paths: self.extern_paths,
        }
    }

    /// Adds one directory behind those in which imports are looked up.
    pub fn with_import_path(self, import_path: &str) -> (config: Self)
        ensures
            config@ == (ProtosGenerationConfigView {
                import_paths: self@.import_paths.push(import_path@),
                ..self@
            }),
    {
        let new_import_paths = pushed(self.import_paths, import_path.to_owned());
        Self {
            crate_dir: self.crate_dir,
            crate_name: self.crate_name,
            include_dir: self.include_dir,
            mod_name: self.mod_name,
            proto_files: self.proto_files,
            import_paths: new_import_paths,
            extern_paths: self.extern_paths,
        }
    }

    /// Adds directories, in their order, behind those in which imports are
    /// looked up.
    pub fn with_import_paths(self, import_paths: Vec<String>) -> (config: Self)
        ensures
            config@ == (ProtosGenerationConfigView {
                import_paths: self@.import_paths + import_paths.deep_view(),
                ..self@
            }),
    {
        let new_import_paths = extended(self.import_paths, import_paths);
        Self {
            crate_dir: self.crate_dir,
            crate_name: self.crate_name,
            include_dir: self.include_dir,
            mod_name: self.mod_name,
            proto_files: self.proto_files,
            import_paths: new_import_paths,
            extern_paths: self.extern_paths,
        }
    }

    /// Adds one schema type that is taken from another crate.
    pub fn with_extern_path(self, extern_path: ExternPath) -> (config: Self)
        ensures
            config@ == (ProtosGenerationConfigView {
                extern_paths: self@.extern_paths.push(extern_path@),
                ..self@
            }),
    {
        let new_extern_paths = pushed(self.extern_paths, extern_path);
        Self {
            crate_dir: self.crate_dir,
            crate_name: self.crate_name,
            include_dir: self.include_dir,
            mod_name: self.mod_name,
            proto_files: self.proto_files,
            import_paths: self.import_paths,
            extern_paths: new_extern_paths,
        }
    }

    /// Adds schema types, in their order, that are taken from other crates.
    pub fn with_extern_paths(self, extern_paths: Vec<ExternPath>) -> (config: Self)
        ensures
            config@ == (ProtosGenerationConfigView {
                extern_paths: self@.extern_paths + extern_paths.deep_view(),
                ..self@
            }),
    {
        let new_extern_paths = extended(self.extern_paths, extern_paths);
        Self {
            crate_dir: self.crate_dir,
            crate_name: self.crate_name,
            include_dir: self.include_dir,
            mod_name: self.mod_name,
            proto_files: self.proto_files,
            import_paths: self.import_paths,
            extern_paths: new_extern_paths,
        }
    }
}

} // verus!
