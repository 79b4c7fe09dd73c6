//! The external programs of a build and how each is called.
use vstd::prelude::*;
use vstd::string::StringExecFns;
use crate::layout::TARGET_TRIPLE;
use crate::profile::BuildProfile;
use crate::text::opt_text;

verus! {

/// The compiler's driver, which also installs the image generator.
pub const CARGO: &'static str = "cargo";

/// The program that writes a directory into a disc image.
pub const IMAGE_GENERATOR: &'static str = "mkisofs-rs";

/// One call of an external program. The caller waits for its end.
#[derive(Debug, Clone, PartialEq, Eq)]
pub struct ToolCommand {
    /// The program, looked up as the system does.
    pub program: String,
    /// Its arguments, in order.
    pub args: Vec<String>,
    /// The directory to run it in; `None` for the caller's own.
    pub working_dir: Option<String>,
    /// After how many seconds the program is ended by force; `None` for
    /// never.
    pub timeout_secs: Option<u64>,
}

pub struct ToolCommandView {
    pub program: Seq<char>,
    pub args: Seq<Seq<char>>,
    pub working_dir: Option<Seq<char>>,
    pub timeout_secs: Option<u64>,
}

/// The arguments as texts.
pub open spec fn texts(args: Seq<String>) -> Seq<Seq<char>> {
    Seq::new(args.len(), |i: int| args[i]@)
}

impl View for ToolCommand {
    type V = ToolCommandView;

    open spec fn view(&self) -> ToolCommandView {
        ToolCommandView {
            program: self.program@,
            args: texts(self.args@),
            working_dir: opt_text(self.working_dir),
            timeout_secs: self.timeout_secs,
        }
    }
}

/// Installs the image generator, or brings it up to date:
/// `cargo install mkisofs-rs`.
pub open spec fn installer_command_of(timeout_secs: Option<u64>) -> ToolCommandView {
    ToolCommandView {
        program: CARGO@,
        args: seq!["install"@, IMAGE_GENERATOR@],
        working_dir: None,
        timeout_secs,
    }
}

/// Compiles the project at `input` for the sandboxed platform, run inside the
/// project: `cargo build --target wasm32-unknown-unknown`, with `--release`
/// for the release profile.
pub open spec fn compiler_command_of(
    input: Seq<char>,
    profile: BuildProfile,
    timeout_secs: Option<u64>,
) -> ToolCommandView {
    ToolCommandView {
        program: CARGO@,
        args: match profile {
            BuildProfile::Debug => seq!["build"@, "--target"@, TARGET_TRIPLE@],
            BuildProfile::Release => seq!["build"@, "--target"@, TARGET_TRIPLE@, "--release"@],
        },
        working_dir: Some(input),
        timeout_secs,
    }
}

/// Writes the directory `source` into an image at `image` that cannot be
/// booted from: `mkisofs-rs --no-boot -o <image> <source>`.
pub open spec fn image_command_of(
    source: Seq<char>,
    image: Seq<char>,
    timeout_secs: Option<u64>,
) -> ToolCommandView {
    ToolCommandView {
        program: IMAGE_GENERATOR@,
        args: seq!["--no-boot"@, "-o"@, image, source],
        working_dir: None,
        timeout_secs,
    }
}

pub fn installer_command(timeout_secs: Option<u64>) -> (command: ToolCommand)
    ensures
        command@ == installer_command_of(timeout_secs),
{
    let mut args: Vec<String> = Vec::new();
    args.push(String::from_str("install"));
    args.push(String::from_str(IMAGE_GENERATOR));
    assert(texts(args@) =~= installer_command_of(timeout_secs).args);
    ToolCommand { program: String::from_str(CARGO), args, working_dir: None, timeout_secs }
}

pub fn compiler_command(input: &str, profile: BuildProfile, timeout_secs: Option<u64>) -> (command:
    ToolCommand)
    ensures
        command@ == compiler_command_of(input@, profile, timeout_secs),
{
    let mut args: Vec<String> = Vec::new();
    args.push(String::from_str("build"));
    args.push(String::from_str("--target"));
    args.push(String::from_str(TARGET_TRIPLE));
    if profile.is_release() {
        args.push(String::from_str("--release"));
    }
    assert(texts(args@) =~= compiler_command_of(input@, profile, timeout_secs).args);
    ToolCommand {
        program: String::from_str(CARGO),
        args,
        working_dir: Some(String::from_str(input)),
        timeout_secs,
    }
}

pub fn image_command(source: &str, image: &str, timeout_secs: Option<u64>) -> (command:
    ToolCommand)
    ensures
        command@ == image_command_of(source@, image@, timeout_secs),
{
    let mut args: Vec<String> = Vec::new();
    args.push(String::from_str("--no-boot"));
    args.push(String::from_str("-o"));
    args.push(String::from_str(image));
    args.push(String::from_str(source));
    assert(texts(args@) =~= image_command_of(source@, image@, timeout_secs).args);
    ToolCommand {
        program: String::from_str(IMAGE_GENERATOR),
        args,
        working_dir: None,
        timeout_secs,
    }
}

} // verus!
