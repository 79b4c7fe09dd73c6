//! The build as a sequence of stages.
//!
//! A [`Pipeline`] does no work of its own. In every stage it names one
//! [`Action`] for its caller to carry out, and [`Pipeline::step`] takes the
//! [`Event`] that tells how the action went. The stages follow one another in
//! a fixed order, and but for the search for assets a stage that does not
//! succeed ends the build.
use vstd::prelude::*;
use vstd::utf8::encode_utf8;
use crate::command::{
    compiler_command, compiler_command_of, image_command, image_command_of, installer_command,
    installer_command_of, ToolCommand, ToolCommandView,
};
use crate::error::{BuildError, ToolFailure};
use crate::layout::{
    artifact_path, artifact_path_of, asset_source, asset_source_of, binary_path, binary_path_of,
    image_path, image_path_of, layout_of, manifest_path, manifest_path_of, output_dir,
    output_dir_of, OutputLayout,
};
use crate::manifest::{
    artifact_name_of, manifest_of_text, manifest_result_view, ProjectManifest,
    ProjectManifestView,
};
use crate::request::{BuildRequest, BuildRequestView};
use crate::volume::{
    patch_image, patched_image, VolumeLabel, VOLUME_ID_LEN, VOLUME_ID_OFFSET,
};

verus! {

/// How an action went.
#[derive(Debug, Clone, PartialEq, Eq)]
pub enum Event {
    /// The action was carried out. Of a search: what was looked for is there.
    Done,
    /// The file was read, and these are its bytes.
    Read(Vec<u8>),
    /// The program ran and ended with this status.
    Exited(i32),
    /// What the action needs is not there: the file or directory does not
    /// exist, or the program could not be started.
    Missing,
    /// The program ran into its time limit and was ended.
    TimedOut,
    /// The action failed in any other way.
    Failed,
}

impl Event {
    /// The action did what it was for. A program has done so when it ends
    /// with status zero.
    pub open spec fn succeeded(self) -> bool {
        match self {
            Event::Done => true,
            Event::Read(_) => true,
            Event::Exited(code) => code == 0,
            _ => false,
        }
    }

    /// The bytes that came with the event; none but with [`Event::Read`].
    pub open spec fn payload(self) -> Seq<u8> {
        match self {
            Event::Read(bytes) => bytes@,
            _ => Seq::empty(),
        }
    }

    /// What went wrong with a program that did not succeed.
    pub open spec fn tool_failure(self) -> ToolFailure {
        match self {
            Event::Exited(code) => ToolFailure::ExitCode(code),
            Event::Missing => ToolFailure::Launch,
            _ => ToolFailure::Aborted,
        }
    }

    pub fn is_success(&self) -> (b: bool)
        ensures
            b == self.succeeded(),
    {
        match self {
            Event::Done => true,
            Event::Read(_) => true,
            Event::Exited(code) => *code == 0,
            _ => false,
        }
    }

    fn as_tool_failure(&self) -> (failure: ToolFailure)
        ensures
            failure == self.tool_failure(),
    {
        match self {
            Event::Exited(code) => ToolFailure::ExitCode(*code),
            Event::Missing => ToolFailure::Launch,
            _ => ToolFailure::Aborted,
        }
    }
}

/// Where a build stands: what it waits for, or how it ended.
#[derive(Debug, Clone, Copy, PartialEq, Eq, Structural)]
pub enum Stage {
    /// The image generator is being installed.
    Install,
    /// The manifest is being read.
    Manifest,
    /// The compiler runs.
    Compile,
    /// The output directory is being made.
    MakeDir,
    /// The compiled module is looked for.
    FindArtifact,
    /// The compiled module is copied into the output directory.
    CopyArtifact,
    /// The project's asset directory is looked for.
    FindAssets,
    /// The asset directory is copied into the output directory.
    CopyAssets,
    /// The image generator runs.
    Generate,
    /// The image is being read.
    ReadImage,
    /// The image is written back with its new label.
    WriteImage,
    /// The build is done.
    Succeeded,
    /// The build has ended with this error.
    Failed(BuildError),
}

impl Stage {
    /// The build has ended, one way or the other.
    pub open spec fn finished(self) -> bool {
        self is Succeeded || self is Failed
    }

    /// The place of a stage in the order of a build.
    pub open spec fn rank(self) -> nat {
        match self {
            Stage::Install => 0,
            Stage::Manifest => 1,
            Stage::Compile => 2,
            Stage::MakeDir => 3,
            Stage::FindArtifact => 4,
            Stage::CopyArtifact => 5,
            Stage::FindAssets => 6,
            Stage::CopyAssets => 7,
            Stage::Generate => 8,
            Stage::ReadImage => 9,
            Stage::WriteImage => 10,
            Stage::Succeeded => 11,
            Stage::Failed(_) => 11,
        }
    }

    /// The error that ends a build whose stage did not succeed.
    pub open spec fn failure(self, event: Event) -> BuildError {
        match self {
            Stage::Install => if event is TimedOut {
                BuildError::Timeout
            } else {
                BuildError::DependencyUnavailable(event.tool_failure())
            },
            Stage::Manifest => if event is Missing {
                BuildError::MissingManifest
            } else {
                BuildError::MalformedManifest
            },
            Stage::Compile => if event is TimedOut {
                BuildError::Timeout
            } else {
                BuildError::BuildFailed(event.tool_failure())
            },
            Stage::FindArtifact => BuildError::ArtifactNotFound,
            Stage::CopyArtifact => if event is Missing {
                BuildError::ArtifactNotFound
            } else {
                BuildError::AssembleFailed
            },
            Stage::Generate => if event is TimedOut {
                BuildError::Timeout
            } else {
                BuildError::ImageGenFailed(event.tool_failure())
            },
            Stage::ReadImage => BuildError::PatchFailed,
            Stage::WriteImage => BuildError::PatchFailed,
            Stage::Failed(e) => e,
            _ => BuildError::AssembleFailed,
        }
    }

    pub fn is_finished(self) -> (b: bool)
        ensures
            b == self.finished(),
    {
        match self {
            Stage::Succeeded => true,
            Stage::Failed(_) => true,
            _ => false,
        }
    }

    fn failure_for(self, event: &Event) -> (e: BuildError)
        ensures
            e == self.failure(*event),
    {
        let timed_out = match event {
            Event::TimedOut => true,
            _ => false,
        };
        let missing = match event {
            Event::Missing => true,
            _ => false,
        };
        match self {
            Stage::Install => if timed_out {
                BuildError::Timeout
            } else {
                BuildError::DependencyUnavailable(event.as_tool_failure())
            },
            Stage::Manifest => if missing {
                BuildError::MissingManifest
            } else {
                BuildError::MalformedManifest
            },
            Stage::Compile => if timed_out {
                BuildError::Timeout
            } else {
                BuildError::BuildFailed(event.as_tool_failure())
            },
            Stage::FindArtifact => BuildError::ArtifactNotFound,
            Stage::CopyArtifact => if missing {
                BuildError::ArtifactNotFound
            } else {
                BuildError::AssembleFailed
            },
            Stage::Generate => if timed_out {
                BuildError::Timeout
            } else {
                BuildError::ImageGenFailed(event.as_tool_failure())
            },
            Stage::ReadImage => BuildError::PatchFailed,
            Stage::WriteImage => BuildError::PatchFailed,
            Stage::Failed(e) => e,
            _ => BuildError::AssembleFailed,
        }
    }
}

/// One piece of work for the caller of a pipeline.
#[derive(Debug, Clone, PartialEq, Eq)]
pub enum Action {
    /// Run the program and wait for its end.
    Run(ToolCommand),
    /// Read the whole file.
    ReadFile { path: String },
    /// Make the directory and every directory above it that is not there.
    CreateDir { path: String },
    /// Find out whether the file or directory exists.
    Probe { path: String },
    /// Copy the file, over what may be at `to`.
    CopyFile { from: String, to: String },
    /// Copy the directory `from` and all in it into the directory `into`,
    /// over the files that are there under the same names.
    CopyTree { from: String, into: String },
    /// Write the file anew with these bytes.
    WriteFile { path: String, contents: Vec<u8> },
    /// Nothing is left to do: the image is at `image`.
    Succeed { image: String },
    /// Nothing is left to do: the build has failed.
    Fail(BuildError),
}

pub enum ActionView {
    Run(ToolCommandView),
    ReadFile { path: Seq<char> },
    CreateDir { path: Seq<char> },
    Probe { path: Seq<char> },
    CopyFile { from: Seq<char>, to: Seq<char> },
    CopyTree { from: Seq<char>, into: Seq<char> },
    WriteFile { path: Seq<char>, contents: Seq<u8> },
    Succeed { image: Seq<char> },
    Fail(BuildError),
}

impl View for Action {
    type V = ActionView;

    open spec fn view(&self) -> ActionView {
        match *self {
            Action::Run(command) => ActionView::Run(command@),
            Action::ReadFile { path } => ActionView::ReadFile { path: path@ },
            Action::CreateDir { path } => ActionView::CreateDir { path: path@ },
            Action::Probe { path } => ActionView::Probe { path: path@ },
            Action::CopyFile { from, to } => ActionView::CopyFile { from: from@, to: to@ },
            Action::CopyTree { from, into } => ActionView::CopyTree { from: from@, into: into@ },
            Action::WriteFile { path, contents } => ActionView::WriteFile {
                path: path@,
                contents: contents@,
            },
            Action::Succeed { image } => ActionView::Succeed { image: image@ },
            Action::Fail(e) => ActionView::Fail(e),
        }
    }
}

/// A build under way.
#[derive(Debug)]
pub struct Pipeline {
    request: BuildRequest,
    stage: Stage,
    artifact: String,
    label: VolumeLabel,
    with_assets: bool,
    image: Vec<u8>,
}

pub struct PipelineView {
    pub request: BuildRequestView,
    pub stage: Stage,
    /// The artifact's name; empty until the manifest is read.
    pub artifact: Seq<char>,
    /// The label of the disc; empty until the manifest is read.
    pub label: Seq<u8>,
    /// Whether an asset directory was copied.
    pub with_assets: bool,
    /// The image with its new label; empty until the image is read.
    pub image: Seq<u8>,
}

impl View for Pipeline {
    type V = PipelineView;

    closed spec fn view(&self) -> PipelineView {
        PipelineView {
            request: self.request@,
            stage: self.stage,
            artifact: self.artifact@,
            label: self.label@,
            with_assets: self.with_assets,
            image: self.image@,
        }
    }
}

/// The label that a disc gets: the one asked for, else the artifact's name,
/// which like any label has to fit.
pub open spec fn label_for(request: BuildRequestView, artifact: Seq<char>) -> Result<
    Seq<u8>,
    BuildError,
> {
    match request.label {
        Some(label) => Ok(label),
        None => if encode_utf8(artifact).len() > VOLUME_ID_LEN {
            Err(BuildError::LabelTooLong)
        } else {
            Ok(encode_utf8(artifact))
        },
    }
}

impl PipelineView {
    /// A build that has not begun.
    pub open spec fn initial(request: BuildRequestView) -> PipelineView {
        PipelineView {
            request,
            stage: Stage::Install,
            artifact: Seq::empty(),
            label: Seq::empty(),
            with_assets: false,
            image: Seq::empty(),
        }
    }

    /// The labels held fit the identifier field.
    pub open spec fn valid(self) -> bool {
        self.request.valid() && self.label.len() <= VOLUME_ID_LEN
    }

    pub open spec fn at(self, stage: Stage) -> PipelineView {
        PipelineView { stage, ..self }
    }

    /// The build once its manifest is known, or known to be none. The
    /// artifact's name and the disc's label are settled here, before the
    /// compiler is run.
    pub open spec fn with_manifest(self, manifest: Result<ProjectManifestView, BuildError>)
        -> PipelineView {
        if self.stage != Stage::Manifest {
            self
        } else {
            match manifest {
                Err(e) => self.at(Stage::Failed(e)),
                Ok(manifest) => match label_for(self.request, artifact_name_of(manifest)) {
                    Err(e) => self.at(Stage::Failed(e)),
                    Ok(label) => PipelineView {
                        stage: Stage::Compile,
                        artifact: artifact_name_of(manifest),
                        label,
                        ..self
                    },
                },
            }
        }
    }

    /// The build after `event` has answered the action of its stage.
    pub open spec fn next(self, event: Event) -> PipelineView {
        if self.stage.finished() {
            self
        } else if self.stage == Stage::FindAssets {
            if event.succeeded() {
                self.at(Stage::CopyAssets)
            } else {
                self.at(Stage::Generate)
            }
        } else if !event.succeeded() {
            self.at(Stage::Failed(self.stage.failure(event)))
        } else {
            match self.stage {
                Stage::Install => self.at(Stage::Manifest),
                Stage::Manifest => self.with_manifest(manifest_of_text(event.payload())),
                Stage::Compile => self.at(Stage::MakeDir),
                Stage::MakeDir => self.at(Stage::FindArtifact),
                Stage::FindArtifact => self.at(Stage::CopyArtifact),
                Stage::CopyArtifact => self.at(Stage::FindAssets),
                Stage::CopyAssets => PipelineView {
                    stage: Stage::Generate,
                    with_assets: true,
                    ..self
                },
                Stage::Generate => self.at(Stage::ReadImage),
                Stage::ReadImage => if event.payload().len() < VOLUME_ID_OFFSET {
                    self.at(Stage::Failed(BuildError::PatchFailed))
                } else {
                    PipelineView {
                        stage: Stage::WriteImage,
                        image: patched_image(event.payload(), self.label),
                        ..self
                    }
                },
                Stage::WriteImage => self.at(Stage::Succeeded),
                _ => self,
            }
        }
    }

    /// The work that the build waits for in its stage.
    pub open spec fn action(self) -> ActionView {
        let input = self.request.input_path;
        let output = self.request.output_root;
        let profile = self.request.profile;
        let limit = self.request.timeout_secs;
        match self.stage {
            Stage::Install => ActionView::Run(installer_command_of(limit)),
            Stage::Manifest => ActionView::ReadFile { path: manifest_path_of(input) },
            Stage::Compile => ActionView::Run(compiler_command_of(input, profile, limit)),
            Stage::MakeDir => ActionView::CreateDir { path: output_dir_of(output, profile) },
            Stage::FindArtifact => ActionView::Probe {
                path: artifact_path_of(input, profile, self.artifact),
            },
            Stage::CopyArtifact => ActionView::CopyFile {
                from: artifact_path_of(input, profile, self.artifact),
                to: binary_path_of(output, profile),
            },
            Stage::FindAssets => ActionView::Probe { path: asset_source_of(input) },
            Stage::CopyAssets => ActionView::CopyTree {
                from: asset_source_of(input),
                into: output_dir_of(output, profile),
            },
            Stage::Generate => ActionView::Run(
                image_command_of(
                    output_dir_of(output, profile),
                    image_path_of(output, profile),
                    limit,
                ),
            ),
            Stage::ReadImage => ActionView::ReadFile { path: image_path_of(output, profile) },
            Stage::WriteImage => ActionView::WriteFile {
                path: image_path_of(output, profile),
                contents: self.image,
            },
            Stage::Succeeded => ActionView::Succeed { image: image_path_of(output, profile) },
            Stage::Failed(e) => ActionView::Fail(e),
        }
    }
}

impl Pipeline {
    /// Begins a build: the pipeline in its first stage, and the first thing
    /// to do.
    pub fn start(request: BuildRequest) -> (out: (Pipeline, Action))
        ensures
            out.0@ == PipelineView::initial(request@),
            out.1@ == out.0@.action(),
    {
        let pipeline = Pipeline {
            request,
            stage: Stage::Install,
            artifact: String::new(),
            label: VolumeLabel::empty(),
            with_assets: false,
            image: Vec::new(),
        };
        let action = pipeline.action();
        (pipeline, action)
    }

    pub fn stage(&self) -> (stage: Stage)
        ensures
            stage == self@.stage,
    {
        self.stage
    }

    /// The work that the build waits for.
    pub fn action(&self) -> (action: Action)
        ensures
            action@ == self@.action(),
    {
        let input = self.request.input_path.as_str();
        let output = self.request.output_root.as_str();
        let profile = self.request.profile;
        let limit = self.request.timeout_secs;
        match self.stage {
            Stage::Install => Action::Run(installer_command(limit)),
            Stage::Manifest => Action::ReadFile { path: manifest_path(input) },
            Stage::Compile => Action::Run(compiler_command(input, profile, limit)),
            Stage::MakeDir => Action::CreateDir { path: output_dir(output, profile) },
            Stage::FindArtifact => Action::Probe {
                path: artifact_path(input, profile, self.artifact.as_str()),
            },
            Stage::CopyArtifact => Action::CopyFile {
                from: artifact_path(input, profile, self.artifact.as_str()),
                to: binary_path(output, profile),
            },
            Stage::FindAssets => Action::Probe { path: asset_source(input) },
            Stage::CopyAssets => Action::CopyTree {
                from: asset_source(input),
                into: output_dir(output, profile),
            },
            Stage::Generate => {
                let source = output_dir(output, profile);
                let image = image_path(output, profile);
                Action::Run(image_command(source.as_str(), image.as_str(), limit))
            },
            Stage::ReadImage => Action::ReadFile { path: image_path(output, profile) },
            Stage::WriteImage => Action::WriteFile {
                path: image_path(output, profile),
                contents: self.image.clone(),
            },
            Stage::Succeeded => Action::Succeed { image: image_path(output, profile) },
            Stage::Failed(e) => Action::Fail(e),
        }
    }

    /// Goes on from the reading of the manifest with what was found in it.
    /// In any other stage nothing changes.
    pub fn with_manifest(self, manifest: Result<ProjectManifest, BuildError>) -> (next: Pipeline)
        ensures
            next@ == self@.with_manifest(manifest_result_view(manifest)),
    {
        let mut next = self;
        match next.stage {
            Stage::Manifest => {},
            _ => {
                return next;
            },
        }
        match manifest {
            Err(e) => {
                next.stage = Stage::Failed(e);
            },
            Ok(manifest) => {
                let artifact = manifest.artifact_name();
                let label = match &next.request.label {
                    Some(label) => Ok(label.clone()),
                    None => VolumeLabel::new(artifact.as_str()),
                };
                match label {
                    Err(e) => {
                        next.stage = Stage::Failed(e);
                    },
                    Ok(label) => {
                        next.artifact = artifact;
                        next.label = label;
                        next.stage = Stage::Compile;
                    },
                }
            },
        }
        next
    }

    /// Takes the answer to the pending action and gives the build in its
    /// next stage, with the action of that stage.
    pub fn step(self, event: Event) -> (out: (Pipeline, Action))
        ensures
            out.0@ == self@.next(event),
            out.1@ == out.0@.action(),
    {
        let next = self.advance(event);
        let action = next.action();
        (next, action)
    }

    fn advance(self, event: Event) -> (next: Pipeline)
        ensures
            next@ == self@.next(event),
    {
        let mut next = self;
        let ok = event.is_success();
        match next.stage {
            Stage::Succeeded => {},
            Stage::Failed(_) => {},
            Stage::FindAssets => {
                next.stage = if ok {
                    Stage::CopyAssets
                } else {
                    Stage::Generate
                };
            },
            stage => if !ok {
                next.stage = Stage::Failed(stage.failure_for(&event));
            } else {
                match stage {
                    Stage::Install => {
                        next.stage = Stage::Manifest;
                    },
                    Stage::Manifest => {
                        let text = match event {
                            Event::Read(bytes) => bytes,
                            _ => Vec::new(),
                        };
                        let manifest = ProjectManifest::resolve(text.as_slice());
                        next = next.with_manifest(manifest);
                    },
                    Stage::Compile => {
                        next.stage = Stage::MakeDir;
                    },
                    Stage::MakeDir => {
                        next.stage = Stage::FindArtifact;
                    },
                    Stage::FindArtifact => {
                        next.stage = Stage::CopyArtifact;
                    },
                    Stage::CopyArtifact => {
                        next.stage = Stage::FindAssets;
                    },
                    Stage::CopyAssets => {
                        next.with_assets = true;
                        next.stage = Stage::Generate;
                    },
                    Stage::Generate => {
                        next.stage = Stage::ReadImage;
                    },
                    Stage::ReadImage => {
                        let mut image = match event {
                            Event::Read(bytes) => bytes,
                            _ => Vec::new(),
                        };
                        match patch_image(&mut image, &next.label) {
                            Ok(()) => {
                                next.image = image;
                                next.stage = Stage::WriteImage;
                            },
                            Err(e) => {
                                next.stage = Stage::Failed(e);
                            },
                        }
                    },
                    Stage::WriteImage => {
                        next.stage = Stage::Succeeded;
                    },
                    _ => {},
                }
            },
        }
        next
    }

    /// What the build has put, or will put, into the output directory.
    pub fn layout(&self) -> (layout: OutputLayout)
        ensures
            layout@ == layout_of(
                self@.request.output_root,
                self@.request.profile,
                self@.with_assets,
            ),
    {
        OutputLayout::new(
            self.request.output_root.as_str(),
            self.request.profile,
            self.with_assets,
        )
    }
}

impl PipelineView {
    /// The build after each of `events` has answered an action, in order.
    pub open spec fn run(self, events: Seq<Event>) -> PipelineView
        decreases events.len(),
    {
        if events.len() == 0 {
            self
        } else {
            self.next(events[0]).run(events.drop_first())
        }
    }
}

/// Each stage waits on the one before: but for the search for assets, a stage whose
/// action did not succeed ends the build with that stage's error, and the
/// action left is to report it.
pub proof fn lemma_failure_ends_the_build(p: PipelineView, event: Event)
    requires
        !p.stage.finished(),
        p.stage != Stage::FindAssets,
        !event.succeeded(),
    ensures
        p.next(event).stage == Stage::Failed(p.stage.failure(event)),
        p.next(event).action() == ActionView::Fail(p.stage.failure(event)),
{
}

/// A build that has ended stays as it is, whatever it is told.
pub proof fn lemma_finished_stays(p: PipelineView, event: Event)
    requires
        p.stage.finished(),
    ensures
        p.next(event) == p,
{
}

/// A build only moves forward, and never past a stage but the copying of
/// assets: every step ends the build or leads to the stage that follows. The
/// request is never changed. So a build has ended after eleven steps.
pub proof fn lemma_stages_follow_in_order(p: PipelineView, event: Event)
    requires
        !p.stage.finished(),
    ensures
        p.next(event).request == p.request,
        p.next(event).stage.rank() > p.stage.rank(),
        p.next(event).stage is Failed || p.next(event).stage.rank() == p.stage.rank() + 1 || (
        p.stage == Stage::FindAssets && p.next(event).stage == Stage::Generate),
{
}

/// No label that does not fit gets into a build: a build begun from a valid
/// request holds labels that fit, at every step.
pub proof fn lemma_labels_always_fit(p: PipelineView, event: Event)
    requires
        p.valid(),
    ensures
        p.next(event).valid(),
        PipelineView::initial(p.request).valid(),
{
}

/// An artifact's name that is too long for a label, where no label was asked
/// for, ends the build when the manifest is read: the compiler is not run and
/// no image is made, let alone patched.
pub proof fn lemma_long_name_stops_the_build(p: PipelineView, manifest: ProjectManifestView)
    requires
        p.stage == Stage::Manifest,
        p.request.label is None,
        encode_utf8(artifact_name_of(manifest)).len() > VOLUME_ID_LEN,
    ensures
        p.with_manifest(Ok(manifest)).stage == Stage::Failed(BuildError::LabelTooLong),
        p.with_manifest(Ok(manifest)).action() == ActionView::Fail(BuildError::LabelTooLong),
{
}

/// The label of the disc is the one asked for, and the artifact's name where
/// none was asked for.
pub proof fn lemma_label_defaults_to_the_name(p: PipelineView, manifest: ProjectManifestView)
    requires
        p.valid(),
        p.stage == Stage::Manifest,
        p.with_manifest(Ok(manifest)).stage == Stage::Compile,
    ensures
        p.request.label matches Some(label) ==> p.with_manifest(Ok(manifest)).label == label,
        p.request.label is None ==> p.with_manifest(Ok(manifest)).label == encode_utf8(
            artifact_name_of(manifest),
        ),
        p.with_manifest(Ok(manifest)).artifact == artifact_name_of(manifest),
{
}

/// The image that is written back is the image that was read, but for its
/// volume identifier: there stand the label's bytes and after them spaces
/// up to 32 bytes.
pub proof fn lemma_written_image_carries_the_label(p: PipelineView, event: Event)
    requires
        p.valid(),
        p.stage == Stage::ReadImage,
        event.succeeded(),
        event.payload().len() >= VOLUME_ID_OFFSET,
    ensures
        p.next(event).action() == (ActionView::WriteFile {
            path: image_path_of(p.request.output_root, p.request.profile),
            contents: patched_image(event.payload(), p.label),
        }),
        patched_image(event.payload(), p.label).subrange(
            VOLUME_ID_OFFSET as int,
            VOLUME_ID_OFFSET + VOLUME_ID_LEN,
        ) == p.label + crate::volume::padding((VOLUME_ID_LEN - p.label.len()) as nat),
{
    crate::volume::lemma_patch_changes_only_the_field(event.payload(), p.label);
}

/// A project with an asset directory has it copied into the output
/// directory; one without is built all the same, and nothing is copied for
/// it.
pub proof fn lemma_assets_are_optional(p: PipelineView, event: Event)
    requires
        p.stage == Stage::FindAssets,
    ensures
        event.succeeded() ==> p.next(event).action() == (ActionView::CopyTree {
            from: asset_source_of(p.request.input_path),
            into: output_dir_of(p.request.output_root, p.request.profile),
        }),
        !event.succeeded() ==> p.next(event).stage == Stage::Generate && p.next(event).with_assets
            == p.with_assets,
{
}

/// A build whose every action succeeds ends well: with a manifest that
/// names a package, a label that fits and an image that reaches to its
/// volume identifier, eleven successes lead from the start to the end.
pub proof fn lemma_successes_reach_the_end(
    request: BuildRequestView,
    manifest: ProjectManifestView,
    events: Seq<Event>,
)
    requires
        request.valid(),
        events.len() == 11,
        forall|i: int| 0 <= i < 11 ==> (#[trigger] events[i]).succeeded(),
        manifest_of_text(events[1].payload()) == Ok::<ProjectManifestView, BuildError>(manifest),
        label_for(request, artifact_name_of(manifest)) is Ok,
        events[9].payload().len() >= VOLUME_ID_OFFSET,
    ensures
        PipelineView::initial(request).run(events).stage == Stage::Succeeded,
        PipelineView::initial(request).run(events).with_assets,
        PipelineView::initial(request).run(events).action() == (ActionView::Succeed {
            image: image_path_of(request.output_root, request.profile),
        }),
{
    let at0 = PipelineView::initial(request);
    let at1 = at0.next(events[0]);
    let at2 = at1.next(events[1]);
    let at3 = at2.next(events[2]);
    let at4 = at3.next(events[3]);
    let at5 = at4.next(events[4]);
    let at6 = at5.next(events[5]);
    let at7 = at6.next(events[6]);
    let at8 = at7.next(events[7]);
    let at9 = at8.next(events[8]);
    let at10 = at9.next(events[9]);
    let at11 = at10.next(events[10]);
    assert(at2.stage == Stage::Compile);
    assert(at10.stage == Stage::WriteImage);
    assert(at11.stage == Stage::Succeeded);
    lemma_run_of_eleven(at0, events);
}

/// Running over eleven events is taking eleven steps.
proof fn lemma_run_of_eleven(p: PipelineView, events: Seq<Event>)
    requires
        events.len() == 11,
    ensures
        p.run(events) == p.next(events[0]).next(events[1]).next(events[2]).next(events[3]).next(
            events[4],
        ).next(events[5]).next(events[6]).next(events[7]).next(events[8]).next(events[9]).next(
            events[10],
        ),
{
    reveal_with_fuel(PipelineView::run, 12);
    let e1 = events.drop_first();
    let e2 = e1.drop_first();
    let e3 = e2.drop_first();
    let e4 = e3.drop_first();
    let e5 = e4.drop_first();
    let e6 = e5.drop_first();
    let e7 = e6.drop_first();
    let e8 = e7.drop_first();
    let e9 = e8.drop_first();
    let e10 = e9.drop_first();
    assert(e10.drop_first().len() == 0);
    assert(e1[0] == events[1] && e2[0] == events[2] && e3[0] == events[3]);
    assert(e4[0] == events[4] && e5[0] == events[5] && e6[0] == events[6]);
    assert(e7[0] == events[7] && e8[0] == events[8] && e9[0] == events[9]);
    assert(e10[0] == events[10]);
}

} // verus!
