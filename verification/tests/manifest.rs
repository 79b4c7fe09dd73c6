use wasm_disc::error::BuildError;
use wasm_disc::manifest::{to_snake_case, ManifestFields, ProjectManifest, MANIFEST_FILE};

fn manifest(declared: &str, explicit: Option<&str>) -> ProjectManifest {
    ProjectManifest {
        declared_name: declared.to_string(),
        explicit_lib_name: explicit.map(|s| s.to_string()),
    }
}

#[test]
fn manifest_file_is_cargo_toml() {
    assert_eq!(MANIFEST_FILE, "Cargo.toml");
}

#[test]
fn snake_case_replaces_every_dash() {
    assert_eq!(to_snake_case("my-mod"), "my_mod");
    assert_eq!(to_snake_case("a-b-c-d"), "a_b_c_d");
    assert_eq!(to_snake_case("--"), "__");
    assert_eq!(to_snake_case("-lead-and-trail-"), "_lead_and_trail_");
}

#[test]
fn snake_case_keeps_everything_else() {
    assert_eq!(to_snake_case(""), "");
    assert_eq!(to_snake_case("plain"), "plain");
    assert_eq!(to_snake_case("already_snake"), "already_snake");
    assert_eq!(to_snake_case("Mixed-Case_9"), "Mixed_Case_9");
    assert_eq!(to_snake_case("gr\u{fc}n-\u{20ac}"), "gr\u{fc}n_\u{20ac}");
}

#[test]
fn snake_case_result_has_no_dash() {
    for name in ["x-y", "-", "a--b", "no dash", "tail-"] {
        let out = to_snake_case(name);
        assert!(!out.contains('-'));
        assert_eq!(out.chars().count(), name.chars().count());
    }
}

#[test]
fn artifact_name_is_derived_from_the_package() {
    assert_eq!(manifest("my-mod", None).artifact_name(), "my_mod");
    assert_eq!(manifest("game", None).artifact_name(), "game");
}

#[test]
fn explicit_lib_name_overrides_the_package() {
    assert_eq!(manifest("my-mod", Some("engine")).artifact_name(), "engine");
    assert_eq!(manifest("my-mod", Some("kept-as-is")).artifact_name(), "kept-as-is");
    assert_eq!(manifest("my-mod", Some("")).artifact_name(), "");
}

#[test]
fn fields_without_package_are_malformed() {
    let fields = ManifestFields { package_name: None, lib_name: Some(Some("engine".to_string())) };
    assert_eq!(ProjectManifest::from_fields(fields), Err(BuildError::MalformedManifest));
    let fields = ManifestFields { package_name: None, lib_name: None };
    assert_eq!(ProjectManifest::from_fields(fields), Err(BuildError::MalformedManifest));
}

#[test]
fn fields_make_a_manifest() {
    let fields = ManifestFields { package_name: Some("my-mod".to_string()), lib_name: None };
    assert_eq!(ProjectManifest::from_fields(fields), Ok(manifest("my-mod", None)));
    let fields = ManifestFields { package_name: Some("my-mod".to_string()), lib_name: Some(None) };
    assert_eq!(ProjectManifest::from_fields(fields), Ok(manifest("my-mod", None)));
    let fields = ManifestFields {
        package_name: Some("my-mod".to_string()),
        lib_name: Some(Some("engine".to_string())),
    };
    assert_eq!(ProjectManifest::from_fields(fields), Ok(manifest("my-mod", Some("engine"))));
}

#[test]
fn resolve_reads_the_package_name() {
    let text = b"[package]\nname = \"my-mod\"\nversion = \"1.0.0\"\n";
    let resolved = ProjectManifest::resolve(text).unwrap();
    assert_eq!(resolved, manifest("my-mod", None));
    assert_eq!(resolved.artifact_name(), "my_mod");
}

#[test]
fn resolve_reads_a_lib_table_without_name() {
    let text = b"[package]\nname = \"my-mod\"\nversion = \"1.0.0\"\nauthors = [\"\"]\n\n[lib]\ncrate-type = [\"cdylib\"]\n\n[dependencies]\n";
    let resolved = ProjectManifest::resolve(text).unwrap();
    assert_eq!(resolved, manifest("my-mod", None));
    assert_eq!(resolved.artifact_name(), "my_mod");
}

#[test]
fn resolve_reads_the_lib_name() {
    let text = b"[package]\nname = \"my-mod\"\nversion = \"0.3.0\"\n\n[lib]\nname = \"engine\"\ncrate-type = [\"cdylib\"]\n";
    let resolved = ProjectManifest::resolve(text).unwrap();
    assert_eq!(resolved, manifest("my-mod", Some("engine")));
    assert_eq!(resolved.artifact_name(), "engine");
}

#[test]
fn resolve_refuses_what_is_no_toml() {
    assert_eq!(ProjectManifest::resolve(b"[package\nname = "), Err(BuildError::MalformedManifest));
    assert_eq!(ProjectManifest::resolve(b"my-mod"), Err(BuildError::MalformedManifest));
}

#[test]
fn resolve_refuses_bytes_that_are_no_text() {
    assert_eq!(ProjectManifest::resolve(&[0xff, 0xfe, 0x00]), Err(BuildError::MalformedManifest));
}

#[test]
fn resolve_refuses_a_manifest_without_package() {
    assert_eq!(ProjectManifest::resolve(b""), Err(BuildError::MalformedManifest));
    assert_eq!(
        ProjectManifest::resolve(b"[workspace]\nmembers = [\"a\"]\n"),
        Err(BuildError::MalformedManifest)
    );
}

#[test]
fn resolve_refuses_a_package_without_name() {
    assert_eq!(
        ProjectManifest::resolve(b"[package]\nversion = \"1.0.0\"\n"),
        Err(BuildError::MalformedManifest)
    );
}
