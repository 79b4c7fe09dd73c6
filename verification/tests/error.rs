use wasm_disc::error::{BuildError, ToolFailure};

#[test]
fn every_error_has_its_message() {
    let failure = ToolFailure::ExitCode(101);
    let cases = [
        (BuildError::MissingManifest, "Could not find Cargo.toml at input path"),
        (BuildError::MalformedManifest, "Cargo.toml is not a valid package manifest"),
        (BuildError::InvalidProfile, "Unrecognized build profile"),
        (BuildError::LabelTooLong, "Volume label is longer than 32 bytes"),
        (BuildError::DependencyUnavailable(failure), "mkisofs-rs could not be installed"),
        (BuildError::BuildFailed(failure), "Build command failed"),
        (BuildError::ArtifactNotFound, "Compiled module not found"),
        (BuildError::AssembleFailed, "Could not assemble the output directory"),
        (BuildError::ImageGenFailed(failure), "mkisofs-rs failed"),
        (BuildError::PatchFailed, "Could not write the volume label"),
        (BuildError::Timeout, "External command timed out"),
        (BuildError::AlreadyInitialized, "Cargo.toml already exists in the current path!"),
    ];
    for (error, message) in cases {
        assert_eq!(error.message(), message);
    }
}

#[test]
fn message_does_not_depend_on_the_failure() {
    for failure in [ToolFailure::Launch, ToolFailure::ExitCode(1), ToolFailure::Aborted] {
        assert_eq!(BuildError::BuildFailed(failure).message(), "Build command failed");
        assert_eq!(BuildError::ImageGenFailed(failure).message(), "mkisofs-rs failed");
    }
}
