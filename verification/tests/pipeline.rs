use wasm_disc::command::{compiler_command, image_command, installer_command};
use wasm_disc::error::{BuildError, ToolFailure};
use wasm_disc::layout::OutputLayout;
use wasm_disc::manifest::ProjectManifest;
use wasm_disc::pipeline::{Action, Event, Pipeline, Stage};
use wasm_disc::profile::BuildProfile;
use wasm_disc::request::BuildRequest;

const MANIFEST: &[u8] = b"[package]\nname = \"my-mod\"\nversion = \"1.0.0\"\n\n[lib]\ncrate-type = [\"cdylib\"]\n";

fn iso(len: usize) -> Vec<u8> {
    (0..len).map(|i| (i % 253) as u8).collect()
}

fn request(profile: Option<&str>, label: Option<&str>) -> BuildRequest {
    BuildRequest::new("proj", Some("out"), profile, label).unwrap()
}

/// Steps through `events` and gives the pipeline with every action it named,
/// the first one included.
fn drive(request: BuildRequest, events: Vec<Event>) -> (Pipeline, Vec<Action>) {
    let (mut pipeline, first) = Pipeline::start(request);
    let mut actions = vec![first];
    for event in events {
        let (next, action) = pipeline.step(event);
        pipeline = next;
        actions.push(action);
    }
    (pipeline, actions)
}

fn up_to_compile() -> Vec<Event> {
    vec![Event::Exited(0), Event::Read(MANIFEST.to_vec())]
}

fn up_to_assets() -> Vec<Event> {
    let mut events = up_to_compile();
    events.extend([Event::Exited(0), Event::Done, Event::Done, Event::Done]);
    events
}

fn up_to_generate(with_assets: bool) -> Vec<Event> {
    let mut events = up_to_assets();
    if with_assets {
        events.extend([Event::Done, Event::Done]);
    } else {
        events.push(Event::Missing);
    }
    events
}

fn last_stage(request: BuildRequest, events: Vec<Event>) -> Stage {
    drive(request, events).0.stage()
}

fn then(mut events: Vec<Event>, last: Event) -> Vec<Event> {
    events.push(last);
    events
}

#[test]
fn a_build_starts_with_the_installer() {
    let (pipeline, action) = Pipeline::start(request(None, None));
    assert_eq!(pipeline.stage(), Stage::Install);
    assert_eq!(action, Action::Run(installer_command(None)));
    assert_eq!(pipeline.action(), action);
}

#[test]
fn debug_build_with_assets_names_every_action() {
    let mut events = up_to_generate(true);
    events.extend([Event::Exited(0), Event::Read(iso(0x9000)), Event::Done]);
    let (pipeline, actions) = drive(request(None, None), events);
    assert_eq!(pipeline.stage(), Stage::Succeeded);
    let mut patched = iso(0x9000);
    patched[0x8028..0x8048].copy_from_slice(b"my_mod                          ");
    let expected = vec![
        Action::Run(installer_command(None)),
        Action::ReadFile { path: "proj/Cargo.toml".to_string() },
        Action::Run(compiler_command("proj", BuildProfile::Debug, None)),
        Action::CreateDir { path: "out/debug".to_string() },
        Action::Probe { path: "proj/target/wasm32-unknown-unknown/debug/my_mod.wasm".to_string() },
        Action::CopyFile {
            from: "proj/target/wasm32-unknown-unknown/debug/my_mod.wasm".to_string(),
            to: "out/debug/main.wasm".to_string(),
        },
        Action::Probe { path: "proj/content".to_string() },
        Action::CopyTree { from: "proj/content".to_string(), into: "out/debug".to_string() },
        Action::Run(image_command("out/debug", "out/debug.iso", None)),
        Action::ReadFile { path: "out/debug.iso".to_string() },
        Action::WriteFile { path: "out/debug.iso".to_string(), contents: patched },
        Action::Succeed { image: "out/debug.iso".to_string() },
    ];
    assert_eq!(actions, expected);
    assert_eq!(pipeline.layout(), OutputLayout::new("out", BuildProfile::Debug, true));
}

#[test]
fn release_build_looks_and_writes_under_release() {
    let mut events = up_to_generate(false);
    events.extend([Event::Exited(0), Event::Read(iso(0x8048)), Event::Done]);
    let (pipeline, actions) = drive(request(Some("release"), None), events);
    assert_eq!(pipeline.stage(), Stage::Succeeded);
    assert_eq!(actions[2], Action::Run(compiler_command("proj", BuildProfile::Release, None)));
    assert_eq!(actions[3], Action::CreateDir { path: "out/release".to_string() });
    assert_eq!(
        actions[4],
        Action::Probe { path: "proj/target/wasm32-unknown-unknown/release/my_mod.wasm".to_string() }
    );
    assert_eq!(
        actions[5],
        Action::CopyFile {
            from: "proj/target/wasm32-unknown-unknown/release/my_mod.wasm".to_string(),
            to: "out/release/main.wasm".to_string(),
        }
    );
    assert_eq!(actions[7], Action::Run(image_command("out/release", "out/release.iso", None)));
    assert_eq!(actions[8], Action::ReadFile { path: "out/release.iso".to_string() });
    assert_eq!(actions.last(), Some(&Action::Succeed { image: "out/release.iso".to_string() }));
}

#[test]
fn bogus_profile_never_reaches_a_pipeline() {
    assert_eq!(
        BuildRequest::new("proj", None, Some("bogus"), None),
        Err(BuildError::InvalidProfile)
    );
}

#[test]
fn without_assets_nothing_is_copied_and_the_build_goes_on() {
    for absent in [Event::Missing, Event::Failed, Event::Exited(1), Event::TimedOut] {
        let (pipeline, actions) = drive(request(None, None), then(up_to_assets(), absent));
        assert_eq!(pipeline.stage(), Stage::Generate);
        assert_eq!(actions.last(), Some(&Action::Run(image_command("out/debug", "out/debug.iso", None))));
        assert!(!actions.iter().any(|a| matches!(a, Action::CopyTree { .. })));
        assert_eq!(pipeline.layout().asset_path, None);
    }
}

#[test]
fn default_label_is_the_artifact_name() {
    let mut events = up_to_generate(false);
    events.extend([Event::Exited(0), Event::Read(iso(0x8100))]);
    let (pipeline, actions) = drive(request(None, None), events);
    assert_eq!(pipeline.stage(), Stage::WriteImage);
    match actions.last() {
        Some(Action::WriteFile { path, contents }) => {
            assert_eq!(path, "out/debug.iso");
            assert_eq!(contents.len(), 0x8100);
            let mut field = b"my_mod".to_vec();
            field.extend_from_slice(&[b' '; 26]);
            assert_eq!(&contents[0x8028..0x8048], field.as_slice());
            assert_eq!(&contents[..0x8028], &iso(0x8100)[..0x8028]);
            assert_eq!(&contents[0x8048..], &iso(0x8100)[0x8048..]);
        },
        other => panic!("unexpected action {:?}", other),
    }
}

#[test]
fn label_asked_for_goes_onto_the_disc() {
    let mut events = up_to_generate(true);
    events.extend([Event::Exited(0), Event::Read(iso(0x8048))]);
    let (_, actions) = drive(request(None, Some("HELLO WORLD")), events);
    match actions.last() {
        Some(Action::WriteFile { contents, .. }) => {
            assert_eq!(&contents[0x8028..0x8048], b"HELLO WORLD                     ");
        },
        other => panic!("unexpected action {:?}", other),
    }
}

#[test]
fn lib_name_decides_the_artifact() {
    let text = b"[package]\nname = \"my-mod\"\nversion = \"1.0.0\"\n[lib]\nname = \"engine\"\n".to_vec();
    let events = vec![Event::Exited(0), Event::Read(text), Event::Exited(0), Event::Done];
    let (_, actions) = drive(request(None, None), events);
    assert_eq!(
        actions.last(),
        Some(&Action::Probe { path: "proj/target/wasm32-unknown-unknown/debug/engine.wasm".to_string() })
    );
}

#[test]
fn failed_installer_ends_the_build() {
    let cases = [
        (Event::Exited(101), BuildError::DependencyUnavailable(ToolFailure::ExitCode(101))),
        (Event::Missing, BuildError::DependencyUnavailable(ToolFailure::Launch)),
        (Event::Failed, BuildError::DependencyUnavailable(ToolFailure::Aborted)),
        (Event::TimedOut, BuildError::Timeout),
    ];
    for (event, error) in cases {
        let (pipeline, actions) = drive(request(None, None), vec![event]);
        assert_eq!(pipeline.stage(), Stage::Failed(error));
        assert_eq!(actions.last(), Some(&Action::Fail(error)));
    }
}

#[test]
fn missing_manifest_ends_the_build() {
    let events = vec![Event::Exited(0), Event::Missing];
    assert_eq!(last_stage(request(None, None), events), Stage::Failed(BuildError::MissingManifest));
}

#[test]
fn unreadable_or_malformed_manifest_ends_the_build() {
    for event in [
        Event::Failed,
        Event::TimedOut,
        Event::Exited(2),
        Event::Done,
        Event::Read(Vec::new()),
        Event::Read(b"not a manifest".to_vec()),
        Event::Read(b"[package]\nversion = \"1.0.0\"\n".to_vec()),
    ] {
        let events = vec![Event::Done, event];
        assert_eq!(
            last_stage(request(None, None), events),
            Stage::Failed(BuildError::MalformedManifest)
        );
    }
}

#[test]
fn long_artifact_name_ends_the_build_before_the_compiler() {
    let name = "n".repeat(33);
    let text = format!("[package]\nname = \"{}\"\nversion = \"1.0.0\"\n", name).into_bytes();
    let events = vec![Event::Exited(0), Event::Read(text.clone())];
    let (pipeline, actions) = drive(request(None, None), events);
    assert_eq!(pipeline.stage(), Stage::Failed(BuildError::LabelTooLong));
    assert_eq!(actions.len(), 3);
    assert_eq!(actions[2], Action::Fail(BuildError::LabelTooLong));
    let events = vec![Event::Exited(0), Event::Read(text)];
    assert_eq!(last_stage(request(None, Some("SHORT")), events), Stage::Compile);
}

#[test]
fn artifact_name_of_32_bytes_is_a_label() {
    let name = "n".repeat(32);
    let text = format!("[package]\nname = \"{}\"\nversion = \"1.0.0\"\n", name).into_bytes();
    let events = vec![Event::Exited(0), Event::Read(text)];
    assert_eq!(last_stage(request(None, None), events), Stage::Compile);
}

#[test]
fn failed_compiler_ends_the_build() {
    let cases = [
        (Event::Exited(1), BuildError::BuildFailed(ToolFailure::ExitCode(1))),
        (Event::Exited(-1), BuildError::BuildFailed(ToolFailure::ExitCode(-1))),
        (Event::Missing, BuildError::BuildFailed(ToolFailure::Launch)),
        (Event::Failed, BuildError::BuildFailed(ToolFailure::Aborted)),
        (Event::TimedOut, BuildError::Timeout),
    ];
    for (event, error) in cases {
        let (pipeline, actions) = drive(request(None, None), then(up_to_compile(), event));
        assert_eq!(pipeline.stage(), Stage::Failed(error));
        assert_eq!(actions.last(), Some(&Action::Fail(error)));
    }
}

#[test]
fn output_directory_that_cannot_be_made_ends_the_build() {
    let events = then(then(up_to_compile(), Event::Exited(0)), Event::Failed);
    assert_eq!(last_stage(request(None, None), events), Stage::Failed(BuildError::AssembleFailed));
}

#[test]
fn missing_artifact_ends_the_build() {
    for event in [Event::Missing, Event::Failed] {
        let mut events = up_to_compile();
        events.extend([Event::Exited(0), Event::Done, event]);
        assert_eq!(
            last_stage(request(None, None), events),
            Stage::Failed(BuildError::ArtifactNotFound)
        );
    }
}

#[test]
fn failed_copy_of_the_artifact_ends_the_build() {
    let cases = [
        (Event::Failed, BuildError::AssembleFailed),
        (Event::Missing, BuildError::ArtifactNotFound),
    ];
    for (event, error) in cases {
        let mut events = up_to_compile();
        events.extend([Event::Exited(0), Event::Done, Event::Done, event]);
        assert_eq!(last_stage(request(None, None), events), Stage::Failed(error));
    }
}

#[test]
fn failed_copy_of_the_assets_ends_the_build() {
    for event in [Event::Failed, Event::Missing] {
        let events = then(then(up_to_assets(), Event::Done), event);
        assert_eq!(last_stage(request(None, None), events), Stage::Failed(BuildError::AssembleFailed));
    }
}

#[test]
fn failed_image_generator_ends_the_build() {
    let cases = [
        (Event::Exited(3), BuildError::ImageGenFailed(ToolFailure::ExitCode(3))),
        (Event::Missing, BuildError::ImageGenFailed(ToolFailure::Launch)),
        (Event::Failed, BuildError::ImageGenFailed(ToolFailure::Aborted)),
        (Event::TimedOut, BuildError::Timeout),
    ];
    for (event, error) in cases {
        assert_eq!(
            last_stage(request(None, None), then(up_to_generate(false), event)),
            Stage::Failed(error)
        );
    }
}

#[test]
fn image_that_cannot_be_patched_ends_the_build() {
    for event in [
        Event::Missing,
        Event::Failed,
        Event::Done,
        Event::Read(Vec::new()),
        Event::Read(iso(0x8027)),
    ] {
        let events = then(then(up_to_generate(true), Event::Exited(0)), event);
        assert_eq!(last_stage(request(None, None), events), Stage::Failed(BuildError::PatchFailed));
    }
}

#[test]
fn image_that_cannot_be_written_ends_the_build() {
    let mut events = up_to_generate(true);
    events.extend([Event::Exited(0), Event::Read(iso(0x8028)), Event::Failed]);
    assert_eq!(last_stage(request(None, None), events), Stage::Failed(BuildError::PatchFailed));
}

#[test]
fn short_image_grows_to_hold_the_identifier() {
    let mut events = up_to_generate(true);
    events.extend([Event::Exited(0), Event::Read(iso(0x8028))]);
    let (_, actions) = drive(request(None, Some("X")), events);
    match actions.last() {
        Some(Action::WriteFile { contents, .. }) => {
            assert_eq!(contents.len(), 0x8048);
            assert_eq!(&contents[0x8028..], b"X                               ");
        },
        other => panic!("unexpected action {:?}", other),
    }
}

#[test]
fn a_finished_build_stays_finished() {
    let mut events = up_to_generate(true);
    events.extend([Event::Exited(0), Event::Read(iso(0x8048)), Event::Done]);
    let (done, _) = drive(request(None, None), events);
    let (failed, _) = drive(request(None, None), vec![Event::Missing]);
    for event in [Event::Done, Event::Failed, Event::Exited(0), Event::Read(vec![1, 2, 3])] {
        let (pipeline, action) = drive(request(None, None), vec![Event::Missing]).0.step(event.clone());
        assert_eq!(pipeline.stage(), failed.stage());
        assert_eq!(action, Action::Fail(BuildError::DependencyUnavailable(ToolFailure::Launch)));
    }
    let (pipeline, action) = done.step(Event::Failed);
    assert_eq!(pipeline.stage(), Stage::Succeeded);
    assert_eq!(action, Action::Succeed { image: "out/debug.iso".to_string() });
}

#[test]
fn manifest_can_be_handed_in_resolved() {
    let manifest = ProjectManifest { declared_name: "my-mod".to_string(), explicit_lib_name: None };
    let (pipeline, _) = drive(request(None, None), vec![Event::Done]);
    let pipeline = pipeline.with_manifest(Ok(manifest.clone()));
    assert_eq!(pipeline.stage(), Stage::Compile);
    let (pipeline, action) = pipeline.step(Event::Exited(0));
    assert_eq!(action, Action::CreateDir { path: "out/debug".to_string() });
    let pipeline = pipeline.with_manifest(Ok(manifest.clone()));
    assert_eq!(pipeline.stage(), Stage::MakeDir);
    let (pipeline, _) = drive(request(None, None), vec![Event::Done]);
    let pipeline = pipeline.with_manifest(Err(BuildError::MalformedManifest));
    assert_eq!(pipeline.stage(), Stage::Failed(BuildError::MalformedManifest));
    let (pipeline, _) = Pipeline::start(request(None, None));
    assert_eq!(pipeline.with_manifest(Ok(manifest)).stage(), Stage::Install);
}

#[test]
fn time_limit_reaches_every_program() {
    let limited = request(None, None).with_timeout(30);
    let mut events = up_to_generate(false);
    events.push(Event::Exited(0));
    let (_, actions) = drive(limited, events);
    assert_eq!(actions[0], Action::Run(installer_command(Some(30))));
    assert_eq!(actions[2], Action::Run(compiler_command("proj", BuildProfile::Debug, Some(30))));
    assert_eq!(actions[7], Action::Run(image_command("out/debug", "out/debug.iso", Some(30))));
}

#[test]
fn event_success() {
    assert!(Event::Done.is_success());
    assert!(Event::Read(Vec::new()).is_success());
    assert!(Event::Exited(0).is_success());
    assert!(!Event::Exited(1).is_success());
    assert!(!Event::Exited(-1).is_success());
    assert!(!Event::Missing.is_success());
    assert!(!Event::TimedOut.is_success());
    assert!(!Event::Failed.is_success());
}

#[test]
fn stages_that_are_ends() {
    assert!(Stage::Succeeded.is_finished());
    assert!(Stage::Failed(BuildError::Timeout).is_finished());
    for stage in [
        Stage::Install,
        Stage::Manifest,
        Stage::Compile,
        Stage::MakeDir,
        Stage::FindArtifact,
        Stage::CopyArtifact,
        Stage::FindAssets,
        Stage::CopyAssets,
        Stage::Generate,
        Stage::ReadImage,
        Stage::WriteImage,
    ] {
        assert!(!stage.is_finished());
    }
}
