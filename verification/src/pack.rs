//! The packing run as a state machine.
//!
//! The packer decides what is done next; a driver does it. The driver hands
//! the packer an event, carries out the action that comes back, and reports
//! how that went as the next event, until the action is `Report` or `Abort`.
use vstd::prelude::*;
use vstd::string::*;
use crate::fault::PackFault;
use crate::name::{artifact_path, derive_names, derived, image_path};

verus! {

/// The size that the engine is told to give its inode area, the same in
/// every run.
pub const INODE_AREA: u32 = 1;

/// What the driver reports to the packer.
#[derive(Debug, PartialEq, Eq)]
pub enum PackEvent {
    /// The run begins.
    Start,
    /// The image file is open and has its length.
    Provisioned,
    /// The engine has formatted the image and handed out its root.
    Formatted,
    /// The source directory was listed. The entries stand in the order in
    /// which the host gave them; one is `None` where its name is not text.
    SourceListed { entries: Vec<Option<String>> },
    /// The artifact was read to its end.
    ArtifactRead { data: Vec<u8> },
    /// The engine created the file.
    EntryCreated,
    /// The engine created no file: the name is taken, or the image is full.
    EntryRefused,
    /// The content was handed to the engine.
    ContentWritten,
    /// The root directory was listed.
    RootListed { names: Vec<String> },
    /// The host or the engine failed at the action.
    HostFailed,
}

/// What the packer asks the driver to do.
#[derive(Debug, PartialEq, Eq)]
pub enum PackAction {
    /// Open or create the image file at `path` for reading and writing,
    /// and force it to the length of `total_blocks` blocks.
    Provision { path: String, total_blocks: u32 },
    /// Have the engine format the image, which destroys what it held, and
    /// take the root directory.
    Format { total_blocks: u32, inode_area: u32 },
    /// List the entries of the directory `dir`.
    ListSource { dir: String },
    /// Read the file at `path` to its end.
    ReadArtifact { path: String },
    /// Create the file `name` under the root.
    CreateEntry { name: String },
    /// Write `data` at `offset` of the file `name`, in one call.
    WriteContent { name: String, offset: usize, data: Vec<u8> },
    /// List the root directory.
    ListRoot,
    /// Show `names` to the operator. The run is over.
    Report { names: Vec<String> },
    /// Nothing is left to do.
    Done,
    /// Give the run up with `fault`.
    Abort { fault: PackFault },
}

/// The stage of a run.
#[derive(Debug, Clone, Copy, PartialEq, Eq, Structural)]
pub enum Stage {
    /// Nothing was asked for yet.
    Idle,
    /// The image file is being sized.
    Provisioning,
    /// The engine is formatting the image.
    Formatting,
    /// The source directory is being listed.
    Listing,
    /// An artifact is being read.
    Reading,
    /// The file of an artifact is being created.
    Creating,
    /// The content of an artifact is being written.
    Writing,
    /// The root directory is being listed.
    Confirming,
    /// The run is over and went well.
    Finished,
    /// The run was given up.
    Failed,
}

/// A [`PackEvent`] as the contracts see it.
pub ghost enum EventView {
    Start,
    Provisioned,
    Formatted,
    SourceListed { entries: Seq<Option<Seq<char>>> },
    ArtifactRead { data: Seq<u8> },
    EntryCreated,
    EntryRefused,
    ContentWritten,
    RootListed { names: Seq<Seq<char>> },
    HostFailed,
}

/// A [`PackAction`] as the contracts see it.
pub ghost enum ActionView {
    Provision { path: Seq<char>, total_blocks: u32 },
    Format { total_blocks: u32, inode_area: u32 },
    ListSource { dir: Seq<char> },
    ReadArtifact { path: Seq<char> },
    CreateEntry { name: Seq<char> },
    WriteContent { name: Seq<char>, offset: usize, data: Seq<u8> },
    ListRoot,
    Report { names: Seq<Seq<char>> },
    Done,
    Abort { fault: PackFault },
}

/// Where a run stands, with what it holds at that point.
pub ghost enum PhaseView {
    /// Nothing was asked for yet.
    Idle,
    /// The image file is being sized.
    Provisioning,
    /// The engine is formatting the image.
    Formatting,
    /// The source directory is being listed.
    Listing,
    /// Artifact `next` of `names` is being read.
    Reading { names: Seq<Seq<char>>, next: nat },
    /// The file for artifact `next` is being created; `data` is its content.
    Creating { names: Seq<Seq<char>>, next: nat, data: Seq<u8> },
    /// The content of artifact `next` is being written.
    Writing { names: Seq<Seq<char>>, next: nat },
    /// The root directory is being listed.
    Confirming,
    /// The run is over and went well.
    Finished,
    /// The run was given up.
    Failed { fault: PackFault },
}

/// A [`Packer`] as the contracts see it.
pub ghost struct PackerView {
    /// The directory whose entries name the artifacts.
    pub source: Seq<char>,
    /// The directory that holds the artifacts and takes the image.
    pub target: Seq<char>,
    /// The size of the image in blocks.
    pub total_blocks: u32,
    /// Where the run stands.
    pub phase: PhaseView,
}

impl View for PackEvent {
    type V = EventView;

    open spec fn view(&self) -> EventView {
        match *self {
            PackEvent::Start => EventView::Start,
            PackEvent::Provisioned => EventView::Provisioned,
            PackEvent::Formatted => EventView::Formatted,
            PackEvent::SourceListed { entries } => EventView::SourceListed {
                entries: entries.deep_view(),
            },
            PackEvent::ArtifactRead { data } => EventView::ArtifactRead { data: data@ },
            PackEvent::EntryCreated => EventView::EntryCreated,
            PackEvent::EntryRefused => EventView::EntryRefused,
            PackEvent::ContentWritten => EventView::ContentWritten,
            PackEvent::RootListed { names } => EventView::RootListed { names: names.deep_view() },
            PackEvent::HostFailed => EventView::HostFailed,
        }
    }
}

impl View for PackAction {
    type V = ActionView;

    open spec fn view(&self) -> ActionView {
        match *self {
            PackAction::Provision { path, total_blocks } => ActionView::Provision {
                path: path@,
                total_blocks,
            },
            PackAction::Format { total_blocks, inode_area } => ActionView::Format {
                total_blocks,
                inode_area,
            },
            PackAction::ListSource { dir } => ActionView::ListSource { dir: dir@ },
            PackAction::ReadArtifact { path } => ActionView::ReadArtifact { path: path@ },
            PackAction::CreateEntry { name } => ActionView::CreateEntry { name: name@ },
            PackAction::WriteContent { name, offset, data } => ActionView::WriteContent {
                name: name@,
                offset,
                data: data@,
            },
            PackAction::ListRoot => ActionView::ListRoot,
            PackAction::Report { names } => ActionView::Report { names: names.deep_view() },
            PackAction::Done => ActionView::Done,
            PackAction::Abort { fault } => ActionView::Abort { fault },
        }
    }
}

impl PhaseView {
    /// The stage of this phase.
    pub open spec fn stage(self) -> Stage {
        match self {
            PhaseView::Idle => Stage::Idle,
            PhaseView::Provisioning => Stage::Provisioning,
            PhaseView::Formatting => Stage::Formatting,
            PhaseView::Listing => Stage::Listing,
            PhaseView::Reading { .. } => Stage::Reading,
            PhaseView::Creating { .. } => Stage::Creating,
            PhaseView::Writing { .. } => Stage::Writing,
            PhaseView::Confirming => Stage::Confirming,
            PhaseView::Finished => Stage::Finished,
            PhaseView::Failed { .. } => Stage::Failed,
        }
    }
}

impl PackerView {
    /// This packer in another phase.
    pub open spec fn at(self, phase: PhaseView) -> PackerView {
        PackerView { phase, ..self }
    }

    /// The run given up with `fault`.
    pub open spec fn failed(self, fault: PackFault) -> (PackerView, ActionView) {
        (self.at(PhaseView::Failed { fault }), ActionView::Abort { fault })
    }

    /// The run turned to artifact `next` of `names`: it is read, or, where
    /// none is left, the root is listed.
    pub open spec fn turned_to(self, names: Seq<Seq<char>>, next: nat) -> (
        PackerView,
        ActionView,
    ) {
        if next < names.len() {
            (
                self.at(PhaseView::Reading { names, next }),
                ActionView::ReadArtifact { path: self.target + names[next as int] },
            )
        } else {
            (self.at(PhaseView::Confirming), ActionView::ListRoot)
        }
    }
}

/// The packer's rule: the state that follows `state` on `event`, and the
/// action that is asked for.
///
/// A run that is over stays over. Any failure, and any event that does not
/// answer the action last asked for, gives the whole run up: nothing is
/// retried, skipped or undone.
pub open spec fn respond(state: PackerView, event: EventView) -> (PackerView, ActionView) {
    match (state.phase, event) {
        (PhaseView::Finished, _) => (state, ActionView::Done),
        (PhaseView::Failed { fault }, _) => (state, ActionView::Abort { fault }),
        (_, EventView::HostFailed) => state.failed(PackFault::Host),
        (PhaseView::Idle, EventView::Start) => (
            state.at(PhaseView::Provisioning),
            ActionView::Provision {
                path: state.target + "fs.img"@,
                total_blocks: state.total_blocks,
            },
        ),
        (PhaseView::Provisioning, EventView::Provisioned) => (
            state.at(PhaseView::Formatting),
            ActionView::Format {
                total_blocks: state.total_blocks,
                inode_area: INODE_AREA,
            },
        ),
        (PhaseView::Formatting, EventView::Formatted) => (
            state.at(PhaseView::Listing),
            ActionView::ListSource { dir: state.source },
        ),
        (PhaseView::Listing, EventView::SourceListed { entries }) => match derived(entries) {
            Ok(names) => state.turned_to(names, 0),
            Err(fault) => state.failed(fault),
        },
        (PhaseView::Reading { names, next }, EventView::ArtifactRead { data }) => (
            state.at(PhaseView::Creating { names, next, data }),
            ActionView::CreateEntry { name: names[next as int] },
        ),
        (PhaseView::Creating { names, next, data }, EventView::EntryCreated) => (
            state.at(PhaseView::Writing { names, next }),
            ActionView::WriteContent { name: names[next as int], offset: 0, data },
        ),
        (PhaseView::Creating { names, next, data }, EventView::EntryRefused) => state.failed(
            PackFault::CreateRefused { entry: next as usize },
        ),
        (PhaseView::Writing { names, next }, EventView::ContentWritten) => state.turned_to(
            names,
            next + 1,
        ),
        (PhaseView::Confirming, EventView::RootListed { names }) => (
            state.at(PhaseView::Finished),
            ActionView::Report { names },
        ),
        (_, _) => state.failed(PackFault::OutOfTurn),
    }
}

/// Where a run stands, with what it holds at that point.
enum Phase {
    Idle,
    Provisioning,
    Formatting,
    Listing,
    Reading { names: Vec<String>, next: usize },
    Creating { names: Vec<String>, next: usize, data: Vec<u8> },
    Writing { names: Vec<String>, next: usize },
    Confirming,
    Finished,
    Failed { fault: PackFault },
}

impl View for Phase {
    type V = PhaseView;

    closed spec fn view(&self) -> PhaseView {
        match *self {
            Phase::Idle => PhaseView::Idle,
            Phase::Provisioning => PhaseView::Provisioning,
            Phase::Formatting => PhaseView::Formatting,
            Phase::Listing => PhaseView::Listing,
            Phase::Reading { names, next } => PhaseView::Reading {
                names: names.deep_view(),
                next: next as nat,
            },
            Phase::Creating { names, next, data } => PhaseView::Creating {
                names: names.deep_view(),
                next: next as nat,
                data: data@,
            },
            Phase::Writing { names, next } => PhaseView::Writing {
                names: names.deep_view(),
                next: next as nat,
            },
            Phase::Confirming => PhaseView::Confirming,
            Phase::Finished => PhaseView::Finished,
            Phase::Failed { fault } => PhaseView::Failed { fault },
        }
    }
}

/// One packing run: the directories and the image size it was set up with,
/// and where it stands.
pub struct Packer {
    source: String,
    target: String,
    total_blocks: u32,
    phase: Phase,
}

impl View for Packer {
    type V = PackerView;

    closed spec fn view(&self) -> PackerView {
        PackerView {
            source: self.source@,
            target: self.target@,
            total_blocks: self.total_blocks,
            phase: self.phase@,
        }
    }
}

impl Packer {
    /// While an artifact is in hand, it is one of the names.
    #[verifier::type_invariant]
    spec fn in_hand(&self) -> bool {
        match self.phase {
            Phase::Reading { names, next } => next < names.len(),
            Phase::Creating { names, next, .. } => next < names.len(),
            Phase::Writing { names, next } => next < names.len(),
            _ => true,
        }
    }

    /// A run that has not begun. `source` is the directory whose entries
    /// name the artifacts; `target`, written with its trailing separator,
    /// holds the artifacts and takes the image of `total_blocks` blocks.
    pub fn new(source: String, target: String, total_blocks: u32) -> (packer: Packer)
        ensures
            packer@ == (PackerView {
                source: source@,
                target: target@,
                total_blocks,
                phase: PhaseView::Idle,
            }),
    {
        Packer { source, target, total_blocks, phase: Phase::Idle }
    }

    /// The stage at which the run stands.
    pub fn stage(&self) -> (stage: Stage)
        ensures
            stage == self@.phase.stage(),
    {
        match &self.phase {
            Phase::Idle => Stage::Idle,
            Phase::Provisioning => Stage::Provisioning,
            Phase::Formatting => Stage::Formatting,
            Phase::Listing => Stage::Listing,
            Phase::Reading { .. } => Stage::Reading,
            Phase::Creating { .. } => Stage::Creating,
            Phase::Writing { .. } => Stage::Writing,
            Phase::Confirming => Stage::Confirming,
            Phase::Finished => Stage::Finished,
            Phase::Failed { .. } => Stage::Failed,
        }
    }

    /// The fault with which the run was given up, if it was.
    pub fn fault(&self) -> (fault: Option<PackFault>)
        ensures
            fault == match self@.phase {
                PhaseView::Failed { fault } => Some(fault),
                _ => None,
            },
    {
        match &self.phase {
            Phase::Failed { fault } => Some(*fault),
            _ => None,
        }
    }

    /// Gives the run up with `fault`.
    fn fail(self, fault: PackFault) -> (r: (Packer, PackAction))
        ensures
            (r.0@, r.1@) == self@.failed(fault),
    {
        (
            Packer {
                source: self.source,
                target: self.target,
                total_blocks: self.total_blocks,
                phase: Phase::Failed { fault },
            },
            PackAction::Abort { fault },
        )
    }

    /// Turns to artifact `next` of `names`, or to the listing of the root
    /// where none is left.
    fn turn_to(self, names: Vec<String>, next: usize) -> (r: (Packer, PackAction))
        ensures
            (r.0@, r.1@) == self@.turned_to(names.deep_view(), next as nat),
    {
        if next < names.len() {
            let path = artifact_path(self.target.as_str(), names[next].as_str());
            (
                Packer {
                    source: self.source,
                    target: self.target,
                    total_blocks: self.total_blocks,
                    phase: Phase::Reading { names, next },
                },
                PackAction::ReadArtifact { path },
            )
        } else {
            (
                Packer {
                    source: self.source,
                    target: self.target,
                    total_blocks: self.total_blocks,
                    phase: Phase::Confirming,
                },
                PackAction::ListRoot,
            )
        }
    }

    /// Takes what the driver reports and says what is to be done next, by
    /// the rule of [`respond`]. The run begins with the event `Start`.
    pub fn step(self, event: PackEvent) -> (r: (Packer, PackAction))
        ensures
            (r.0@, r.1@) == respond(self@, event@),
    {
        proof {
            use_type_invariant(&self);
        }
        let Packer { source, target, total_blocks, phase } = self;
        match (phase, event) {
            (Phase::Finished, _) => (
                Packer { source, target, total_blocks, phase: Phase::Finished },
                PackAction::Done,
            ),
            (Phase::Failed { fault }, _) => (
                Packer { source, target, total_blocks, phase: Phase::Failed { fault } },
                PackAction::Abort { fault },
            ),
            (phase, PackEvent::HostFailed) => {
                Packer { source, target, total_blocks, phase }.fail(PackFault::Host)
            },
            (Phase::Idle, PackEvent::Start) => {
                let path = image_path(target.as_str());
                (
                    Packer { source, target, total_blocks, phase: Phase::Provisioning },
                    PackAction::Provision { path, total_blocks },
                )
            },
            (Phase::Provisioning, PackEvent::Provisioned) => (
                Packer { source, target, total_blocks, phase: Phase::Formatting },
                PackAction::Format { total_blocks, inode_area: INODE_AREA },
            ),
            (Phase::Formatting, PackEvent::Formatted) => {
                let dir = source.clone();
                (
                    Packer { source, target, total_blocks, phase: Phase::Listing },
                    PackAction::ListSource { dir },
                )
            },
            (Phase::Listing, PackEvent::SourceListed { entries }) => {
                let packer = Packer { source, target, total_blocks, phase: Phase::Listing };
                match derive_names(&entries) {
                    Ok(names) => packer.turn_to(names, 0),
                    Err(fault) => packer.fail(fault),
                }
            },
            (Phase::Reading { names, next }, PackEvent::ArtifactRead { data }) => {
                let name = names[next].clone();
                (
                    Packer {
                        source,
                        target,
                        total_blocks,
                        phase: Phase::Creating { names, next, data },
                    },
                    PackAction::CreateEntry { name },
                )
            },
            (Phase::Creating { names, next, data }, PackEvent::EntryCreated) => {
                let name = names[next].clone();
                (
                    Packer { source, target, total_blocks, phase: Phase::Writing { names, next } },
                    PackAction::WriteContent { name, offset: 0, data },
                )
            },
            (Phase::Creating { names, next, data }, PackEvent::EntryRefused) => {
                Packer { source, target, total_blocks, phase: Phase::Listing }.fail(
                    PackFault::CreateRefused { entry: next },
                )
            },
            (Phase::Writing { names, next }, PackEvent::ContentWritten) => {
                Packer { source, target, total_blocks, phase: Phase::Listing }.turn_to(
                    names,
                    next + 1,
                )
            },
            (Phase::Confirming, PackEvent::RootListed { names }) => (
                Packer { source, target, total_blocks, phase: Phase::Finished },
                PackAction::Report { names },
            ),
            (phase, _) => Packer { source, target, total_blocks, phase }.fail(PackFault::OutOfTurn),
        }
    }
}

} // verus!
