//! Where a build looks for files and where it puts them.
//!
//! Paths are plain text with `/` between their parts: a part is never
//! looked into, so a directory may be given in any form the system takes.
use vstd::prelude::*;
use vstd::string::StringExecFns;
use crate::manifest::MANIFEST_FILE;
use crate::profile::BuildProfile;
use crate::text::opt_text;

verus! {

/// The directory that the compiler builds into, inside the project.
pub const TARGET_DIR: &'static str = "target";

/// The platform that every module is compiled for.
pub const TARGET_TRIPLE: &'static str = "wasm32-unknown-unknown";

/// The ending of a compiled module's file name.
pub const BINARY_SUFFIX: &'static str = ".wasm";

/// The name under which the module is put into the output directory.
pub const BINARY_NAME: &'static str = "main.wasm";

/// The directory of files that go onto the disc beside the module.
pub const ASSET_DIR: &'static str = "content";

/// The ending of an image's file name.
pub const IMAGE_SUFFIX: &'static str = ".iso";

/// `dir/name`.
pub open spec fn child(dir: Seq<char>, name: Seq<char>) -> Seq<char> {
    dir + "/"@ + name
}

/// The manifest of the project at `input`.
pub open spec fn manifest_path_of(input: Seq<char>) -> Seq<char> {
    child(input, MANIFEST_FILE@)
}

/// Where the compiler leaves the module named `artifact`:
/// `input/target/wasm32-unknown-unknown/<profile>/<artifact>.wasm`.
pub open spec fn artifact_path_of(
    input: Seq<char>,
    profile: BuildProfile,
    artifact: Seq<char>,
) -> Seq<char> {
    child(
        child(child(child(input, TARGET_DIR@), TARGET_TRIPLE@), profile.dir_text()),
        artifact + BINARY_SUFFIX@,
    )
}

/// The asset directory of the project at `input`.
pub open spec fn asset_source_of(input: Seq<char>) -> Seq<char> {
    child(input, ASSET_DIR@)
}

/// The directory that a profile's files are put into: `output/<profile>`.
pub open spec fn output_dir_of(output: Seq<char>, profile: BuildProfile) -> Seq<char> {
    child(output, profile.dir_text())
}

/// The module's place in the output: `output/<profile>/main.wasm`.
pub open spec fn binary_path_of(output: Seq<char>, profile: BuildProfile) -> Seq<char> {
    child(output_dir_of(output, profile), BINARY_NAME@)
}

/// The assets' place in the output: `output/<profile>/content`.
pub open spec fn asset_path_of(output: Seq<char>, profile: BuildProfile) -> Seq<char> {
    child(output_dir_of(output, profile), ASSET_DIR@)
}

/// The image's place: `output/<profile>.iso`, beside the profile's directory.
pub open spec fn image_path_of(output: Seq<char>, profile: BuildProfile) -> Seq<char> {
    output_dir_of(output, profile) + IMAGE_SUFFIX@
}

/// `dir/name` as a string.
pub fn join(dir: &str, name: &str) -> (path: String)
    ensures
        path@ == child(dir@, name@),
{
    let mut path = String::from_str(dir);
    path.append("/");
    path.append(name);
    path
}

pub fn manifest_path(input: &str) -> (path: String)
    ensures
        path@ == manifest_path_of(input@),
{
    join(input, MANIFEST_FILE)
}

pub fn artifact_path(input: &str, profile: BuildProfile, artifact: &str) -> (path: String)
    ensures
        path@ == artifact_path_of(input@, profile, artifact@),
{
    let target = join(input, TARGET_DIR);
    let platform = join(target.as_str(), TARGET_TRIPLE);
    let dir = join(platform.as_str(), profile.dir_name());
    let mut file = String::from_str(artifact);
    file.append(BINARY_SUFFIX);
    join(dir.as_str(), file.as_str())
}

pub fn asset_source(input: &str) -> (path: String)
    ensures
        path@ == asset_source_of(input@),
{
    join(input, ASSET_DIR)
}

pub fn output_dir(output: &str, profile: BuildProfile) -> (path: String)
    ensures
        path@ == output_dir_of(output@, profile),
{
    join(output, profile.dir_name())
}

pub fn binary_path(output: &str, profile: BuildProfile) -> (path: String)
    ensures
        path@ == binary_path_of(output@, profile),
{
    let dir = output_dir(output, profile);
    join(dir.as_str(), BINARY_NAME)
}

pub fn asset_path(output: &str, profile: BuildProfile) -> (path: String)
    ensures
        path@ == asset_path_of(output@, profile),
{
    let dir = output_dir(output, profile);
    join(dir.as_str(), ASSET_DIR)
}

pub fn image_path(output: &str, profile: BuildProfile) -> (path: String)
    ensures
        path@ == image_path_of(output@, profile),
{
    let mut path = output_dir(output, profile);
    path.append(IMAGE_SUFFIX);
    path
}

/// What a build leaves in the output directory.
#[derive(Debug, Clone, PartialEq, Eq)]
pub struct OutputLayout {
    /// The profile's directory.
    pub root: String,
    /// The compiled module.
    pub binary_path: String,
    /// The copied asset tree, where the project has one.
    pub asset_path: Option<String>,
}

pub struct OutputLayoutView {
    pub root: Seq<char>,
    pub binary_path: Seq<char>,
    pub asset_path: Option<Seq<char>>,
}

impl View for OutputLayout {
    type V = OutputLayoutView;

    open spec fn view(&self) -> OutputLayoutView {
        OutputLayoutView {
            root: self.root@,
            binary_path: self.binary_path@,
            asset_path: opt_text(self.asset_path),
        }
    }
}

/// The layout under `output` for `profile`, with or without assets.
pub open spec fn layout_of(output: Seq<char>, profile: BuildProfile, with_assets: bool)
    -> OutputLayoutView {
    OutputLayoutView {
        root: output_dir_of(output, profile),
        binary_path: binary_path_of(output, profile),
        asset_path: if with_assets {
            Some(asset_path_of(output, profile))
        } else {
            None
        },
    }
}

impl OutputLayout {
    pub fn new(output: &str, profile: BuildProfile, with_assets: bool) -> (layout: OutputLayout)
        ensures
            layout@ == layout_of(output@, profile, with_assets),
    {
        OutputLayout {
            root: output_dir(output, profile),
            binary_path: binary_path(output, profile),
            asset_path: if with_assets {
                Some(asset_path(output, profile))
            } else {
                None
            },
        }
    }
}

/// The two profiles never write to the same place: their directories, their
/// modules and their images all differ.
pub proof fn lemma_profiles_keep_apart(output: Seq<char>)
    ensures
        output_dir_of(output, BuildProfile::Debug) != output_dir_of(output, BuildProfile::Release),
        binary_path_of(output, BuildProfile::Debug) != binary_path_of(
            output,
            BuildProfile::Release,
        ),
        image_path_of(output, BuildProfile::Debug) != image_path_of(output, BuildProfile::Release),
{
    reveal_strlit("debug");
    reveal_strlit("release");
    let d = BuildProfile::Debug;
    let r = BuildProfile::Release;
    assert(output_dir_of(output, d).len() != output_dir_of(output, r).len());
    assert(binary_path_of(output, d).len() != binary_path_of(output, r).len());
    assert(image_path_of(output, d).len() != image_path_of(output, r).len());
}

} // verus!
