//! The two build profiles.
use vstd::prelude::*;
use vstd::string::StringExecFns;
use crate::error::BuildError;

verus! {

/// Selects the compiler's flags and the names of the output directories.
#[derive(Debug, Clone, Copy, PartialEq, Eq, Structural)]
pub enum BuildProfile {
    Debug,
    Release,
}

/// The profile that a word on the command line stands for.
pub open spec fn profile_named(text: Seq<char>) -> Result<BuildProfile, BuildError> {
    if text == "debug"@ {
        Ok(BuildProfile::Debug)
    } else if text == "release"@ {
        Ok(BuildProfile::Release)
    } else {
        Err(BuildError::InvalidProfile)
    }
}

impl BuildProfile {
    /// The name of the directory that holds this profile's files, both under
    /// the compiler's target directory and under the output root.
    pub open spec fn dir_text(self) -> Seq<char> {
        match self {
            BuildProfile::Debug => "debug"@,
            BuildProfile::Release => "release"@,
        }
    }

    /// Reads a profile's name. Only `debug` and `release` are profiles.
    pub fn parse(text: &str) -> (r: Result<BuildProfile, BuildError>)
        ensures
            r == profile_named(text@),
    {
        let given = String::from_str(text);
        if given == String::from_str("debug") {
            Ok(BuildProfile::Debug)
        } else if given == String::from_str("release") {
            Ok(BuildProfile::Release)
        } else {
            Err(BuildError::InvalidProfile)
        }
    }

    pub fn dir_name(self) -> (name: &'static str)
        ensures
            name@ == self.dir_text(),
    {
        match self {
            BuildProfile::Debug => "debug",
            BuildProfile::Release => "release",
        }
    }

    pub fn is_release(self) -> (b: bool)
        ensures
            b == (self == BuildProfile::Release),
    {
        match self {
            BuildProfile::Debug => false,
            BuildProfile::Release => true,
        }
    }
}

/// A directory name is read back as the profile it belongs to, so the two
/// profiles never share a directory.
pub proof fn lemma_dir_name_round_trip(profile: BuildProfile)
    ensures
        profile_named(profile.dir_text()) == Ok::<BuildProfile, BuildError>(profile),
{
    reveal_strlit("debug");
    reveal_strlit("release");
    assert("debug"@.len() != "release"@.len());
}

} // verus!
