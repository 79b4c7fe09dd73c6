//! The ways in which a build or a scaffolding can end without success.
use vstd::prelude::*;

verus! {

/// Why an external program did not do its work.
#[derive(Debug, Clone, Copy, PartialEq, Eq, Structural)]
pub enum ToolFailure {
    /// The program could not be started.
    Launch,
    /// The program ran and ended with this status, which is not zero.
    ExitCode(i32),
    /// The program was started and ended without a status of its own.
    Aborted,
}

/// Every failure is final: nothing is tried again.
#[derive(Debug, Clone, Copy, PartialEq, Eq, Structural)]
pub enum BuildError {
    /// No manifest at the place where the project should keep it.
    MissingManifest,
    /// The manifest is not valid project metadata, or names no package.
    MalformedManifest,
    /// The profile is neither `debug` nor `release`.
    InvalidProfile,
    /// The volume label is longer than the identifier field of the image.
    LabelTooLong,
    /// The image generator could not be installed or brought up to date.
    DependencyUnavailable(ToolFailure),
    /// The compiler did not build the project.
    BuildFailed(ToolFailure),
    /// The compiler left no artifact at the place its conventions give.
    ArtifactNotFound,
    /// The output directory could not be made, or a copy into it failed.
    AssembleFailed,
    /// The image generator did not produce an image.
    ImageGenFailed(ToolFailure),
    /// The volume identifier of the image could not be rewritten.
    PatchFailed,
    /// An external program ran longer than it was allowed to.
    Timeout,
    /// The directory to scaffold in already holds a manifest.
    AlreadyInitialized,
}

impl BuildError {
    /// The text of [`BuildError::message`].
    pub open spec fn message_text(self) -> Seq<char> {
        match self {
            BuildError::MissingManifest => "Could not find Cargo.toml at input path"@,
            BuildError::MalformedManifest => "Cargo.toml is not a valid package manifest"@,
            BuildError::InvalidProfile => "Unrecognized build profile"@,
            BuildError::LabelTooLong => "Volume label is longer than 32 bytes"@,
            BuildError::DependencyUnavailable(_) => "mkisofs-rs could not be installed"@,
            BuildError::BuildFailed(_) => "Build command failed"@,
            BuildError::ArtifactNotFound => "Compiled module not found"@,
            BuildError::AssembleFailed => "Could not assemble the output directory"@,
            BuildError::ImageGenFailed(_) => "mkisofs-rs failed"@,
            BuildError::PatchFailed => "Could not write the volume label"@,
            BuildError::Timeout => "External command timed out"@,
            BuildError::AlreadyInitialized => "Cargo.toml already exists in the current path!"@,
        }
    }

    /// A short line for the user, one per kind of failure.
    pub fn message(&self) -> (text: &'static str)
        ensures
            text@ == self.message_text(),
    {
        match self {
            BuildError::MissingManifest => "Could not find Cargo.toml at input path",
            BuildError::MalformedManifest => "Cargo.toml is not a valid package manifest",
            BuildError::InvalidProfile => "Unrecognized build profile",
            BuildError::LabelTooLong => "Volume label is longer than 32 bytes",
            BuildError::DependencyUnavailable(_) => "mkisofs-rs could not be installed",
            BuildError::BuildFailed(_) => "Build command failed",
            BuildError::ArtifactNotFound => "Compiled module not found",
            BuildError::AssembleFailed => "Could not assemble the output directory",
            BuildError::ImageGenFailed(_) => "mkisofs-rs failed",
            BuildError::PatchFailed => "Could not write the volume label",
            BuildError::Timeout => "External command timed out",
            BuildError::AlreadyInitialized => "Cargo.toml already exists in the current path!",
        }
    }
}

} // verus!
