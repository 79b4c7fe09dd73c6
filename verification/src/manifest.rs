//! What a project's manifest says of the artifact that the compiler makes.
use vstd::prelude::*;
use crate::error::BuildError;
use crate::text::opt_text;

verus! {

/// The manifest's file name inside the project directory.
pub const MANIFEST_FILE: &'static str = "Cargo.toml";

/// The error of the manifest parser. Nothing is read from it.
#[verifier::external_type_specification]
#[verifier::external_body]
pub struct ExManifestError(cargo_toml::Error);

/// The names in a manifest, as the parser found them.
#[derive(Debug, Clone, PartialEq, Eq)]
pub struct ManifestFields {
    /// The name under `[package]`; `None` where the manifest has no such table.
    pub package_name: Option<String>,
    /// `None` where the manifest has no `[lib]` table; else the name under
    /// it, if it gives one.
    pub lib_name: Option<Option<String>>,
}

pub struct ManifestFieldsView {
    pub package_name: Option<Seq<char>>,
    pub lib_name: Option<Option<Seq<char>>>,
}

impl View for ManifestFields {
    type V = ManifestFieldsView;

    open spec fn view(&self) -> ManifestFieldsView {
        ManifestFieldsView {
            package_name: opt_text(self.package_name),
            lib_name: match self.lib_name {
                Some(name) => Some(opt_text(name)),
                None => None,
            },
        }
    }
}

/// The names that `cargo_toml` reads out of a manifest's text, or `None`
/// where it does not accept the text.
pub uninterp spec fn manifest_fields(text: Seq<u8>) -> Option<ManifestFieldsView>;

/// Calls `cargo_toml::Manifest::from_slice`, which parses the text of a
/// manifest and reads nothing else: what it returns depends on the text
/// alone. Of its result this keeps the package's name and the library's
/// name. Nothing is claimed about which texts are accepted.
#[verifier::external_body]
fn parse_manifest(text: &[u8]) -> (r: Result<ManifestFields, cargo_toml::Error>)
    ensures
        match r {
            Ok(fields) => manifest_fields(text@) == Some(fields@),
            Err(_) => manifest_fields(text@) is None,
        },
{
    match cargo_toml::Manifest::from_slice(text) {
        Ok(manifest) => Ok(
            ManifestFields {
                package_name: manifest.package.map(|package| package.name),
                lib_name: manifest.lib.map(|lib| lib.name),
            },
        ),
        Err(e) => Err(e),
    }
}

/// A project's metadata, as far as a build needs it.
#[derive(Debug, Clone, PartialEq, Eq)]
pub struct ProjectManifest {
    /// The package's name.
    pub declared_name: String,
    /// The library's name, where the manifest gives one.
    pub explicit_lib_name: Option<String>,
}

pub struct ProjectManifestView {
    pub declared_name: Seq<char>,
    pub explicit_lib_name: Option<Seq<char>>,
}

impl View for ProjectManifest {
    type V = ProjectManifestView;

    open spec fn view(&self) -> ProjectManifestView {
        ProjectManifestView {
            declared_name: self.declared_name@,
            explicit_lib_name: opt_text(self.explicit_lib_name),
        }
    }
}

/// A package name as the compiler writes it in file names: every `-` has
/// become `_`.
pub open spec fn snake_case(name: Seq<char>) -> Seq<char> {
    name.map_values(|c: char| if c == '-' { '_' } else { c })
}

/// The name of the compiled artifact: the library's name where the manifest
/// gives one, else the package's name in snake case.
pub open spec fn artifact_name_of(manifest: ProjectManifestView) -> Seq<char> {
    match manifest.explicit_lib_name {
        Some(name) => name,
        None => snake_case(manifest.declared_name),
    }
}

/// The manifest that a set of names makes: a manifest needs a package name.
pub open spec fn manifest_of_fields(fields: ManifestFieldsView) -> Result<
    ProjectManifestView,
    BuildError,
> {
    match fields.package_name {
        None => Err(BuildError::MalformedManifest),
        Some(name) => Ok(
            ProjectManifestView {
                declared_name: name,
                explicit_lib_name: match fields.lib_name {
                    Some(Some(lib)) => Some(lib),
                    _ => None,
                },
            },
        ),
    }
}

/// The manifest that a text makes.
pub open spec fn manifest_of_text(text: Seq<u8>) -> Result<ProjectManifestView, BuildError> {
    match manifest_fields(text) {
        None => Err(BuildError::MalformedManifest),
        Some(fields) => manifest_of_fields(fields),
    }
}

/// A result with the manifest seen as plain text.
pub open spec fn manifest_result_view(r: Result<ProjectManifest, BuildError>) -> Result<
    ProjectManifestView,
    BuildError,
> {
    match r {
        Ok(manifest) => Ok(manifest@),
        Err(e) => Err(e),
    }
}

/// Writes a package name as the compiler does in file names.
pub fn to_snake_case(name: &str) -> (out: String)
    ensures
        out@ == snake_case(name@),
{
    let mut out = String::new();
    let count: usize = name.unicode_len();
    let mut i: usize = 0;
    while i < count
        invariant
            count == name@.len(),
            i <= count,
            out@ == snake_case(name@.take(i as int)),
        decreases count - i,
    {
        let c = name.get_char(i);
        out.push(if c == '-' { '_' } else { c });
        assert(name@.take(i + 1) == name@.take(i as int).push(name@[i as int]));
        i = i + 1;
    }
    assert(name@.take(count as int) == name@);
    out
}

impl ProjectManifest {
    /// Picks out of the parser's names what a build needs. Without a package
    /// name there is no manifest.
    pub fn from_fields(fields: ManifestFields) -> (r: Result<ProjectManifest, BuildError>)
        ensures
            manifest_result_view(r) == manifest_of_fields(fields@),
    {
        match fields.package_name {
            None => Err(BuildError::MalformedManifest),
            Some(name) => {
                let lib = match fields.lib_name {
                    Some(Some(lib)) => Some(lib),
                    _ => None,
                };
                Ok(ProjectManifest { declared_name: name, explicit_lib_name: lib })
            },
        }
    }

    /// Reads a manifest from the text of its file. A text that the parser
    /// does not accept, or that names no package, is malformed.
    pub fn resolve(text: &[u8]) -> (r: Result<ProjectManifest, BuildError>)
        ensures
            manifest_result_view(r) == manifest_of_text(text@),
    {
        match parse_manifest(text) {
            Ok(fields) => ProjectManifest::from_fields(fields),
            Err(_) => Err(BuildError::MalformedManifest),
        }
    }

    /// The name of the compiled artifact.
    pub fn artifact_name(&self) -> (name: String)
        ensures
            name@ == artifact_name_of(self@),
    {
        match &self.explicit_lib_name {
            Some(lib) => lib.clone(),
            None => to_snake_case(self.declared_name.as_str()),
        }
    }
}

/// The snake-case form has a `_` wherever the name has a `-`, keeps every
/// other character, and holds no `-` at all.
pub proof fn lemma_snake_case_replaces_every_dash(name: Seq<char>)
    ensures
        snake_case(name).len() == name.len(),
        forall|i: int|
            0 <= i < name.len() ==> #[trigger] snake_case(name)[i] == if name[i] == '-' {
                '_'
            } else {
                name[i]
            },
        !snake_case(name).contains('-'),
{
}

/// A library name in the manifest decides the artifact's name, whatever the
/// package is called; without one, the package's name does, in snake case.
pub proof fn lemma_explicit_name_overrides(manifest: ProjectManifestView)
    ensures
        manifest.explicit_lib_name matches Some(lib) ==> artifact_name_of(manifest) == lib,
        manifest.explicit_lib_name is None ==> artifact_name_of(manifest) == snake_case(
            manifest.declared_name,
        ),
{
}

} // verus!
