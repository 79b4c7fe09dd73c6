//! What the user asks of one build.
use vstd::prelude::*;
use vstd::string::StringExecFns;
use vstd::utf8::encode_utf8;
use crate::error::BuildError;
use crate::profile::{profile_named, BuildProfile};
use crate::volume::{VolumeLabel, VOLUME_ID_LEN};

verus! {

/// The output root of a build that names none.
pub const DEFAULT_OUTPUT_ROOT: &'static str = "build";

/// One build, as asked for. A request is made once and then only read.
#[derive(Debug, Clone, PartialEq, Eq)]
pub struct BuildRequest {
    /// The project's directory.
    pub input_path: String,
    /// The directory that the profiles' outputs go under.
    pub output_root: String,
    pub profile: BuildProfile,
    /// The label of the disc; `None` for the artifact's name.
    pub label: Option<VolumeLabel>,
    /// After how many seconds an external program is ended by force; `None`
    /// for never.
    pub timeout_secs: Option<u64>,
}

pub struct BuildRequestView {
    pub input_path: Seq<char>,
    pub output_root: Seq<char>,
    pub profile: BuildProfile,
    pub label: Option<Seq<u8>>,
    pub timeout_secs: Option<u64>,
}

impl View for BuildRequest {
    type V = BuildRequestView;

    open spec fn view(&self) -> BuildRequestView {
        BuildRequestView {
            input_path: self.input_path@,
            output_root: self.output_root@,
            profile: self.profile,
            label: match self.label {
                Some(label) => Some(label@),
                None => None,
            },
            timeout_secs: self.timeout_secs,
        }
    }
}

impl BuildRequestView {
    /// A label that is asked for fits the identifier field.
    pub open spec fn valid(self) -> bool {
        self.label matches Some(label) ==> label.len() <= VOLUME_ID_LEN
    }
}

/// The request that the words of a command line make. The output root is
/// `build` and the profile `debug` where none is given. A profile that is
/// none is refused first, then a label that does not fit.
pub open spec fn request_of(
    input: Seq<char>,
    output: Option<Seq<char>>,
    profile: Option<Seq<char>>,
    label: Option<Seq<char>>,
) -> Result<BuildRequestView, BuildError> {
    let profile = match profile {
        Some(name) => profile_named(name),
        None => Ok(BuildProfile::Debug),
    };
    match profile {
        Err(e) => Err(e),
        Ok(profile) => if label matches Some(text) && encode_utf8(text).len() > VOLUME_ID_LEN {
            Err(BuildError::LabelTooLong)
        } else {
            Ok(
                BuildRequestView {
                    input_path: input,
                    output_root: match output {
                        Some(path) => path,
                        None => DEFAULT_OUTPUT_ROOT@,
                    },
                    profile,
                    label: match label {
                        Some(text) => Some(encode_utf8(text)),
                        None => None,
                    },
                    timeout_secs: None,
                },
            )
        },
    }
}

/// What an optional word holds.
pub open spec fn opt_str_text(s: Option<&str>) -> Option<Seq<char>> {
    match s {
        Some(s) => Some(s@),
        None => None,
    }
}

/// A result with the request seen as plain values.
pub open spec fn request_result_view(r: Result<BuildRequest, BuildError>) -> Result<
    BuildRequestView,
    BuildError,
> {
    match r {
        Ok(request) => Ok(request@),
        Err(e) => Err(e),
    }
}

impl BuildRequest {
    /// Makes a request out of the words of a command line. Nothing outside
    /// is touched: a request that is refused has started no program.
    pub fn new(
        input: &str,
        output: Option<&str>,
        profile: Option<&str>,
        label: Option<&str>,
    ) -> (r: Result<BuildRequest, BuildError>)
        ensures
            request_result_view(r) == request_of(
                input@,
                opt_str_text(output),
                opt_str_text(profile),
                opt_str_text(label),
            ),
            r matches Ok(request) ==> request@.valid(),
    {
        let profile = match profile {
            Some(name) => match BuildProfile::parse(name) {
                Ok(profile) => profile,
                Err(e) => {
                    return Err(e);
                },
            },
            None => BuildProfile::Debug,
        };
        let label = match label {
            Some(text) => match VolumeLabel::new(text) {
                Ok(label) => Some(label),
                Err(e) => {
                    return Err(e);
                },
            },
            None => None,
        };
        let output_root = match output {
            Some(path) => String::from_str(path),
            None => String::from_str(DEFAULT_OUTPUT_ROOT),
        };
        Ok(
            BuildRequest {
                input_path: String::from_str(input),
                output_root,
                profile,
                label,
                timeout_secs: None,
            },
        )
    }

    /// The same request with a time limit for every external program.
    pub fn with_timeout(self, secs: u64) -> (request: BuildRequest)
        ensures
            request@ == (BuildRequestView { timeout_secs: Some(secs), ..self@ }),
    {
        BuildRequest {
            input_path: self.input_path,
            output_root: self.output_root,
            profile: self.profile,
            label: self.label,
            timeout_secs: Some(secs),
        }
    }
}

} // verus!
