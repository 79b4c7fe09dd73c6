use wasm_disc::error::BuildError;
use wasm_disc::profile::BuildProfile;

#[test]
fn parse_knows_both_profiles() {
    assert_eq!(BuildProfile::parse("debug"), Ok(BuildProfile::Debug));
    assert_eq!(BuildProfile::parse("release"), Ok(BuildProfile::Release));
}

#[test]
fn parse_refuses_every_other_word() {
    for word in ["bogus", "", "Debug", "RELEASE", "debug ", " release", "dev", "releas", "debugrelease"] {
        assert_eq!(BuildProfile::parse(word), Err(BuildError::InvalidProfile));
    }
}

#[test]
fn dir_names_are_the_profile_names() {
    assert_eq!(BuildProfile::Debug.dir_name(), "debug");
    assert_eq!(BuildProfile::Release.dir_name(), "release");
}

#[test]
fn dir_name_round_trips() {
    for profile in [BuildProfile::Debug, BuildProfile::Release] {
        assert_eq!(BuildProfile::parse(profile.dir_name()), Ok(profile));
    }
}

#[test]
fn only_release_is_release() {
    assert!(BuildProfile::Release.is_release());
    assert!(!BuildProfile::Debug.is_release());
}
