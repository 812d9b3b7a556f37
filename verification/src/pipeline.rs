//! The run as a dialogue: the pipeline names the next thing to do on the
//! file system, the caller does it and reports what happened.
//!
//! Every decision of a run is taken here: which entries are looked at, which
//! files are kept, where a kept file goes, when the run ends and why. The
//! caller owns the file system and the loop around [`Pipeline::step`].

use crate::duration::WavHeader;
use crate::error::FilterError;
use crate::path::{
    has_wav_extension, is_wav_name, parent_of, relocated, ComponentPath, SpecPath,
};
use crate::range::LengthRange;
use vstd::prelude::*;

verus! {

/// What kind of thing the walk found at a path. A symbolic link is reported
/// as a link, never as what it points to.
#[derive(Clone, Copy, Debug, PartialEq, Eq, Structural)]
pub enum EntryKind {
    File,
    Directory,
    Symlink,
    Other,
}

/// What the pipeline asks its caller to do next.
#[derive(Debug, PartialEq, Eq)]
pub enum Action<P> {
    /// Find out whether anything is at the input path, and whether it is a
    /// directory.
    ProbeInput { path: P },
    /// Create the directory at `path` and every missing directory above it;
    /// a directory that is already there is no failure.
    CreateDirectories { path: P },
    /// Take the next entry of the walk below the input root, which does not
    /// follow symbolic links.
    NextEntry,
    /// Open the file and read the sample rate and the sample count that its
    /// header declares, without reading the samples.
    ReadHeader { path: P },
    /// Copy the bytes of `source` to `destination`, replacing what is there.
    CopyFile { source: P, destination: P },
    /// The run is over: `copied` files were copied under `output`.
    Report { copied: u64, output: P },
    /// The run is given up.
    Abort { error: FilterError<P> },
}

/// What the caller reports back.
#[derive(Debug, PartialEq, Eq)]
pub enum Event<P> {
    /// The input path was looked at.
    InputProbed { present: bool, is_directory: bool },
    /// The directories asked for are there.
    DirectoriesReady,
    /// The directories asked for could not be created.
    DirectoriesFailed,
    /// The walk produced an entry.
    Entry { path: P, kind: EntryKind },
    /// The walk could not read an entry.
    EntryUnreadable,
    /// The walk has no more entries.
    WalkFinished,
    /// The header of the file was read.
    HeaderRead { header: WavHeader },
    /// The file could not be opened, or its header could not be parsed.
    OpenFailed,
    /// The file was copied.
    Copied,
    /// The file could not be copied.
    CopyFailed,
}

/// Where a run stands.
#[derive(Debug, PartialEq, Eq)]
pub enum Phase<P> {
    /// Nothing is known of the input path yet.
    CheckingInput,
    /// The input is a directory; the output root is being created.
    CreatingOutput,
    /// Between two files: the next entry of the walk is awaited.
    Scanning,
    /// A candidate was found; its header is awaited.
    Probing { path: P },
    /// A file is kept; the directories above its destination are being created.
    CreatingParents { source: P, destination: P },
    /// A file is kept and its destination is ready; the copy is awaited.
    Copying { source: P, destination: P },
    /// The walk is exhausted.
    Finished,
    /// The run was given up.
    Failed { error: FilterError<P> },
}

/// A run: its parameters, the number of files copied so far, and its phase.
#[derive(Debug, PartialEq, Eq)]
pub struct Pipeline<P> {
    /// The root that is scanned.
    pub input: P,
    /// The root under which the copies are placed.
    pub output: P,
    /// The playing times that are kept.
    pub range: LengthRange,
    /// How many files have been copied.
    pub copied: u64,
    /// Where the run stands, which fixes what it asks for.
    pub phase: Phase<P>,
}

impl View for Action<ComponentPath> {
    type V = Action<SpecPath>;

    open spec fn view(&self) -> Action<SpecPath> {
        match *self {
            Action::ProbeInput { path } => Action::ProbeInput { path: path@ },
            Action::CreateDirectories { path } => Action::CreateDirectories { path: path@ },
            Action::NextEntry => Action::NextEntry,
            Action::ReadHeader { path } => Action::ReadHeader { path: path@ },
            Action::CopyFile { source, destination } => Action::CopyFile {
                source: source@,
                destination: destination@,
            },
            Action::Report { copied, output } => Action::Report { copied, output: output@ },
            Action::Abort { error } => Action::Abort { error: error@ },
        }
    }
}

impl View for Event<ComponentPath> {
    type V = Event<SpecPath>;

    open spec fn view(&self) -> Event<SpecPath> {
        match *self {
            Event::InputProbed { present, is_directory } => Event::InputProbed {
                present,
                is_directory,
            },
            Event::DirectoriesReady => Event::DirectoriesReady,
            Event::DirectoriesFailed => Event::DirectoriesFailed,
            Event::Entry { path, kind } => Event::Entry { path: path@, kind },
            Event::EntryUnreadable => Event::EntryUnreadable,
            Event::WalkFinished => Event::WalkFinished,
            Event::HeaderRead { header } => Event::HeaderRead { header },
            Event::OpenFailed => Event::OpenFailed,
            Event::Copied => Event::Copied,
            Event::CopyFailed => Event::CopyFailed,
        }
    }
}

impl View for Phase<ComponentPath> {
    type V = Phase<SpecPath>;

    open spec fn view(&self) -> Phase<SpecPath> {
        match *self {
            Phase::CheckingInput => Phase::CheckingInput,
            Phase::CreatingOutput => Phase::CreatingOutput,
            Phase::Scanning => Phase::Scanning,
            Phase::Probing { path } => Phase::Probing { path: path@ },
            Phase::CreatingParents { source, destination } => Phase::CreatingParents {
                source: source@,
                destination: destination@,
            },
            Phase::Copying { source, destination } => Phase::Copying {
                source: source@,
                destination: destination@,
            },
            Phase::Finished => Phase::Finished,
            Phase::Failed { error } => Phase::Failed { error: error@ },
        }
    }
}

impl View for Pipeline<ComponentPath> {
    type V = Pipeline<SpecPath>;

    open spec fn view(&self) -> Pipeline<SpecPath> {
        Pipeline {
            input: self.input@,
            output: self.output@,
            range: self.range,
            copied: self.copied,
            phase: self.phase@,
        }
    }
}

/// Whether an entry of the walk is looked at more closely: only a regular
/// file whose name carries the extension `wav` is.
pub open spec fn is_candidate(path: SpecPath, kind: EntryKind) -> bool {
    kind is File && path.len() > 0 && is_wav_name(path.last())
}

impl Pipeline<SpecPath> {
    /// A run that has not begun.
    pub open spec fn initial(input: SpecPath, output: SpecPath, range: LengthRange) -> Self {
        Pipeline { input, output, range, copied: 0, phase: Phase::CheckingInput }
    }

    /// The same run in another phase.
    pub open spec fn moved_to(self, phase: Phase<SpecPath>) -> Self {
        Pipeline { phase, ..self }
    }

    /// The same run, given up.
    pub open spec fn failed_with(self, error: FilterError<SpecPath>) -> Self {
        self.moved_to(Phase::Failed { error })
    }

    /// What the run asks for in its present phase.
    pub open spec fn pending_action(self) -> Action<SpecPath> {
        match self.phase {
            Phase::CheckingInput => Action::ProbeInput { path: self.input },
            Phase::CreatingOutput => Action::CreateDirectories { path: self.output },
            Phase::Scanning => Action::NextEntry,
            Phase::Probing { path } => Action::ReadHeader { path },
            Phase::CreatingParents { source, destination } => Action::CreateDirectories {
                path: match parent_of(destination) {
                    Some(dir) => dir,
                    None => destination,
                },
            },
            Phase::Copying { source, destination } => Action::CopyFile { source, destination },
            Phase::Finished => Action::Report { copied: self.copied, output: self.output },
            Phase::Failed { error } => Action::Abort { error },
        }
    }

    /// The run after a file at `path` was found to play for `millis`
    /// milliseconds: back to the walk where that is out of range, else on
    /// the way to the copy, unless the file does not lie under the input
    /// root.
    pub open spec fn after_duration(self, path: SpecPath, millis: int) -> Self {
        if !self.range.admits(millis) {
            self.moved_to(Phase::Scanning)
        } else {
            match relocated(path, self.input, self.output) {
                None => self.failed_with(FilterError::PathRelativization { path }),
                Some(destination) => if destination.len() == 0 {
                    self.moved_to(Phase::Copying { source: path, destination })
                } else {
                    self.moved_to(Phase::CreatingParents { source: path, destination })
                },
            }
        }
    }

    /// The run after one event.
    ///
    /// An event that does not answer the pending action changes nothing; in
    /// particular nothing changes a run that is finished or given up. Nor
    /// does the report of a copy for which the counter has no room.
    pub open spec fn after(self, event: Event<SpecPath>) -> Self {
        match (self.phase, event) {
            (Phase::CheckingInput, Event::InputProbed { present, is_directory }) => {
                if !present {
                    self.failed_with(FilterError::InputMissing { path: self.input })
                } else if !is_directory {
                    self.failed_with(FilterError::InputNotDirectory { path: self.input })
                } else {
                    self.moved_to(Phase::CreatingOutput)
                }
            },
            (Phase::CreatingOutput, Event::DirectoriesReady) => self.moved_to(Phase::Scanning),
            (Phase::CreatingOutput, Event::DirectoriesFailed) => self.failed_with(
                FilterError::CreateOutputDirectory { path: self.output },
            ),
            (Phase::Scanning, Event::Entry { path, kind }) => {
                if is_candidate(path, kind) {
                    self.moved_to(Phase::Probing { path })
                } else {
                    self
                }
            },
            (Phase::Scanning, Event::EntryUnreadable) => self.failed_with(
                FilterError::DirectoryRead,
            ),
            (Phase::Scanning, Event::WalkFinished) => self.moved_to(Phase::Finished),
            (Phase::Probing { path }, Event::HeaderRead { header }) => self.after_duration(
                path,
                header.millis() as int,
            ),
            (Phase::Probing { path }, Event::OpenFailed) => self.failed_with(
                FilterError::FileOpen { path },
            ),
            (Phase::CreatingParents { source, destination }, Event::DirectoriesReady) => {
                self.moved_to(Phase::Copying { source, destination })
            },
            (Phase::CreatingParents { source, destination }, Event::DirectoriesFailed) => {
                self.failed_with(FilterError::CreateParentDirectory { destination })
            },
            (Phase::Copying { source, destination }, Event::Copied) => {
                if self.copied < u64::MAX {
                    Pipeline { copied: (self.copied + 1) as u64, phase: Phase::Scanning, ..self }
                } else {
                    self
                }
            },
            (Phase::Copying { source, destination }, Event::CopyFailed) => self.failed_with(
                FilterError::Copy { source, destination },
            ),
            _ => self,
        }
    }

    /// The run after a sequence of events, taken in order.
    pub open spec fn after_all(self, events: Seq<Event<SpecPath>>) -> Self
        decreases events.len(),
    {
        if events.len() == 0 {
            self
        } else {
            self.after_all(events.drop_last()).after(events.last())
        }
    }
}

impl Pipeline<ComponentPath> {
    /// A run over `input` into `output` that keeps the playing times in
    /// `range`. Nothing was copied yet; the first thing asked for is a look
    /// at the input path.
    pub fn new(input: ComponentPath, output: ComponentPath, range: LengthRange) -> (run: Self)
        ensures
            run@ == Pipeline::initial(input@, output@, range),
    {
        Pipeline { input, output, range, copied: 0, phase: Phase::CheckingInput }
    }

    /// How many files have been copied so far.
    pub fn copied(&self) -> (n: u64)
        ensures
            n == self@.copied,
    {
        self.copied
    }

    /// What the caller is to do next.
    pub fn pending(&self) -> (action: Action<ComponentPath>)
        ensures
            action@ == self@.pending_action(),
    {
        match &self.phase {
            Phase::CheckingInput => Action::ProbeInput { path: self.input.clone() },
            Phase::CreatingOutput => Action::CreateDirectories { path: self.output.clone() },
            Phase::Scanning => Action::NextEntry,
            Phase::Probing { path } => Action::ReadHeader { path: path.clone() },
            Phase::CreatingParents { source, destination } => {
                match destination.parent() {
                    Some(dir) => Action::CreateDirectories { path: dir },
                    None => Action::CreateDirectories { path: destination.clone() },
                }
            },
            Phase::Copying { source, destination } => Action::CopyFile {
                source: source.clone(),
                destination: destination.clone(),
            },
            Phase::Finished => Action::Report { copied: self.copied, output: self.output.clone() },
            Phase::Failed { error } => Action::Abort { error: error.clone() },
        }
    }

    /// Takes the caller's report and moves the run on.
    ///
    /// The one thing asked of the caller is room in the counter for a copy
    /// that it reports.
    pub fn step(self, event: Event<ComponentPath>) -> (next: Self)
        requires
            self.phase is Copying && event is Copied ==> self.copied < u64::MAX,
        ensures
            next@ == self@.after(event@),
    {
        let Pipeline { input, output, range, copied, phase } = self;
        match phase {
            Phase::CheckingInput => match event {
                Event::InputProbed { present, is_directory } => {
                    let phase = if !present {
                        Phase::Failed { error: FilterError::InputMissing { path: input.clone() } }
                    } else if !is_directory {
                        Phase::Failed {
                            error: FilterError::InputNotDirectory { path: input.clone() },
                        }
                    } else {
                        Phase::CreatingOutput
                    };
                    Pipeline { input, output, range, copied, phase }
                },
                _ => Pipeline { input, output, range, copied, phase: Phase::CheckingInput },
            },
            Phase::CreatingOutput => match event {
                Event::DirectoriesReady => Pipeline {
                    input,
                    output,
                    range,
                    copied,
                    phase: Phase::Scanning,
                },
                Event::DirectoriesFailed => {
                    let error = FilterError::CreateOutputDirectory { path: output.clone() };
                    Pipeline { input, output, range, copied, phase: Phase::Failed { error } }
                },
                _ => Pipeline { input, output, range, copied, phase: Phase::CreatingOutput },
            },
            Phase::Scanning => match event {
                Event::Entry { path, kind } => {
                    let phase = if wants(&path, kind) {
                        Phase::Probing { path }
                    } else {
                        Phase::Scanning
                    };
                    Pipeline { input, output, range, copied, phase }
                },
                Event::EntryUnreadable => Pipeline {
                    input,
                    output,
                    range,
                    copied,
                    phase: Phase::Failed { error: FilterError::DirectoryRead },
                },
                Event::WalkFinished => Pipeline {
                    input,
                    output,
                    range,
                    copied,
                    phase: Phase::Finished,
                },
                _ => Pipeline { input, output, range, copied, phase: Phase::Scanning },
            },
            Phase::Probing { path } => match event {
                Event::HeaderRead { header } => {
                    let phase = if !range.contains(header.duration_ms()) {
                        Phase::Scanning
                    } else {
                        match path.relocate(&input, &output) {
                            None => Phase::Failed {
                                error: FilterError::PathRelativization { path },
                            },
                            Some(destination) => if destination.len() == 0 {
                                Phase::Copying { source: path, destination }
                            } else {
                                Phase::CreatingParents { source: path, destination }
                            },
                        }
                    };
                    Pipeline { input, output, range, copied, phase }
                },
                Event::OpenFailed => Pipeline {
                    input,
                    output,
                    range,
                    copied,
                    phase: Phase::Failed { error: FilterError::FileOpen { path } },
                },
                _ => Pipeline { input, output, range, copied, phase: Phase::Probing { path } },
            },
            Phase::CreatingParents { source, destination } => match event {
                Event::DirectoriesReady => Pipeline {
                    input,
                    output,
                    range,
                    copied,
                    phase: Phase::Copying { source, destination },
                },
                Event::DirectoriesFailed => Pipeline {
                    input,
                    output,
                    range,
                    copied,
                    phase: Phase::Failed {
                        error: FilterError::CreateParentDirectory { destination },
                    },
                },
                _ => Pipeline {
                    input,
                    output,
                    range,
                    copied,
                    phase: Phase::CreatingParents { source, destination },
                },
            },
            Phase::Copying { source, destination } => match event {
                Event::Copied => Pipeline {
                    input,
                    output,
                    range,
                    copied: copied + 1,
                    phase: Phase::Scanning,
                },
                Event::CopyFailed => Pipeline {
                    input,
                    output,
                    range,
                    copied,
                    phase: Phase::Failed { error: FilterError::Copy { source, destination } },
                },
                _ => Pipeline {
                    input,
                    output,
                    range,
                    copied,
                    phase: Phase::Copying { source, destination },
                },
            },
            Phase::Finished => Pipeline { input, output, range, copied, phase: Phase::Finished },
            Phase::Failed { error } => Pipeline {
                input,
                output,
                range,
                copied,
                phase: Phase::Failed { error },
            },
        }
    }
}

/// Decides whether an entry of the walk is a candidate.
pub fn wants(path: &ComponentPath, kind: EntryKind) -> (candidate: bool)
    ensures
        candidate == is_candidate(path@, kind),
{
    match kind {
        EntryKind::File => match path.file_name() {
            Some(name) => has_wav_extension(name.as_slice()),
            None => false,
        },
        _ => false,
    }
}

} // verus!
