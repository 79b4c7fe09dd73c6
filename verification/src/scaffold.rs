//! The files of a new project.
use vstd::prelude::*;
use vstd::string::StringExecFns;
use crate::error::BuildError;
use crate::layout::TARGET_TRIPLE;
use crate::manifest::MANIFEST_FILE;
use crate::text::opt_text;

verus! {

/// The directory of the compiler's settings.
pub const CONFIG_DIR: &'static str = ".cargo";

/// The compiler's settings.
pub const CONFIG_FILE: &'static str = ".cargo/config.toml";

/// The directory of the sources.
pub const SOURCE_DIR: &'static str = "src";

/// The module's source.
pub const SOURCE_FILE: &'static str = "src/lib.rs";

/// The manifest up to the package's name.
pub const MANIFEST_HEAD: &'static str = "[package]\nname = \"";

/// The manifest after the package's name.
pub const MANIFEST_TAIL: &'static str =
    "\"\nversion = \"1.0.0\"\nauthors = [\"\"]\n\n[lib]\ncrate-type = [\"cdylib\"]\n\n[dependencies]\n";

/// The settings up to the platform's name.
pub const CONFIG_HEAD: &'static str = "[build]\ntarget = \"";

/// The settings after the platform's name: the module may use 16 MiB of
/// memory at most, and its table of functions is visible from outside.
pub const CONFIG_TAIL: &'static str =
    "\"\nrustflags = [\n    \"-C\", \"link-arg=--max-memory=16777216\",\n    \"-C\", \"link-arg=--export-table\",\n]";

/// A module whose entry point does nothing.
pub const SOURCE_TEXT: &'static str =
    "#[no_mangle]\npub fn main(_: i32, _: i32) -> i32 {\n    return 0;\n}";

/// One file of a new project, with the directory that has to be there for it.
#[derive(Debug, Clone, PartialEq, Eq)]
pub struct ScaffoldFile {
    /// The directory to make first; `None` for a file of the project
    /// directory itself.
    pub directory: Option<String>,
    /// The file, from the project directory.
    pub path: String,
    pub contents: String,
}

pub struct ScaffoldFileView {
    pub directory: Option<Seq<char>>,
    pub path: Seq<char>,
    pub contents: Seq<char>,
}

impl View for ScaffoldFile {
    type V = ScaffoldFileView;

    open spec fn view(&self) -> ScaffoldFileView {
        ScaffoldFileView {
            directory: opt_text(self.directory),
            path: self.path@,
            contents: self.contents@,
        }
    }
}

/// The manifest of a new project called `name`.
pub open spec fn manifest_text_of(name: Seq<char>) -> Seq<char> {
    MANIFEST_HEAD@ + name + MANIFEST_TAIL@
}

/// The compiler's settings of a new project.
pub open spec fn config_text() -> Seq<char> {
    CONFIG_HEAD@ + TARGET_TRIPLE@ + CONFIG_TAIL@
}

/// The files of a new project called `name`, in the order they are written:
/// the manifest, the compiler's settings, the module's source.
pub open spec fn project_files_of(name: Seq<char>) -> Seq<ScaffoldFileView> {
    seq![
        ScaffoldFileView {
            directory: None,
            path: MANIFEST_FILE@,
            contents: manifest_text_of(name),
        },
        ScaffoldFileView {
            directory: Some(CONFIG_DIR@),
            path: CONFIG_FILE@,
            contents: config_text(),
        },
        ScaffoldFileView {
            directory: Some(SOURCE_DIR@),
            path: SOURCE_FILE@,
            contents: SOURCE_TEXT@,
        },
    ]
}

/// What scaffolding does in a directory: nothing where a manifest is there
/// already.
pub open spec fn scaffold_of(name: Seq<char>, manifest_exists: bool) -> Result<
    Seq<ScaffoldFileView>,
    BuildError,
> {
    if manifest_exists {
        Err(BuildError::AlreadyInitialized)
    } else {
        Ok(project_files_of(name))
    }
}

/// The files as plain text.
pub open spec fn file_views(files: Seq<ScaffoldFile>) -> Seq<ScaffoldFileView> {
    Seq::new(files.len(), |i: int| files[i]@)
}

/// A result with the files seen as plain text.
pub open spec fn scaffold_result_view(r: Result<Vec<ScaffoldFile>, BuildError>) -> Result<
    Seq<ScaffoldFileView>,
    BuildError,
> {
    match r {
        Ok(files) => Ok(file_views(files@)),
        Err(e) => Err(e),
    }
}

/// The manifest of a new project called `name`.
pub fn manifest_text(name: &str) -> (text: String)
    ensures
        text@ == manifest_text_of(name@),
{
    let mut text = String::from_str(MANIFEST_HEAD);
    text.append(name);
    text.append(MANIFEST_TAIL);
    text
}

/// The files to write for a new project called `name`. `manifest_exists`
/// says whether the directory holds a manifest already; where it does, there
/// is nothing to write and the directory stays as it is.
pub fn scaffold(name: &str, manifest_exists: bool) -> (r: Result<Vec<ScaffoldFile>, BuildError>)
    ensures
        scaffold_result_view(r) == scaffold_of(name@, manifest_exists),
{
    if manifest_exists {
        return Err(BuildError::AlreadyInitialized);
    }
    let mut config = String::from_str(CONFIG_HEAD);
    config.append(TARGET_TRIPLE);
    config.append(CONFIG_TAIL);
    let mut files: Vec<ScaffoldFile> = Vec::new();
    files.push(
        ScaffoldFile {
            directory: None,
            path: String::from_str(MANIFEST_FILE),
            contents: manifest_text(name),
        },
    );
    files.push(
        ScaffoldFile {
            directory: Some(String::from_str(CONFIG_DIR)),
            path: String::from_str(CONFIG_FILE),
            contents: config,
        },
    );
    files.push(
        ScaffoldFile {
            directory: Some(String::from_str(SOURCE_DIR)),
            path: String::from_str(SOURCE_FILE),
            contents: String::from_str(SOURCE_TEXT),
        },
    );
    assert(file_views(files@) =~= project_files_of(name@));
    Ok(files)
}

} // verus!
