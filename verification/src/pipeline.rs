//! The import of one file, step by step.
//!
//! The library decides; the caller acts. For each item the caller asks which
//! action the item's state calls for, performs it, and reports what happened;
//! the state moves on until it is final. Every item starts at `Discovered`.

use crate::error::ImportError;
use crate::index::{key_of, recorded};
use crate::photo::{destination, Photo, PhotoView};
use vstd::prelude::*;

verus! {

/// How far the import of one file has come.
#[derive(Debug, Clone, Copy, PartialEq, Eq, Structural)]
pub enum ItemState {
    Discovered,
    Hashed,
    MetadataRead,
    PathDerived,
    DedupChecked,
    Skipped,
    Copied,
    MetadataWritten,
    Indexed,
    Done,
    Failed(ImportError),
}

/// What the caller is to do for an item.
#[derive(Debug, Clone, Copy, PartialEq, Eq, Structural)]
pub enum Action {
    /// Read the file and compute the checksum of its content.
    ComputeChecksum,
    /// Ask the metadata tool for the file's record.
    ReadMetadata,
    /// Derive the destination from the record.
    DerivePath,
    /// Look whether a file exists at the destination.
    CheckDestination,
    /// Create the destination's folders and copy the file there.
    CopyFile,
    /// Have the metadata tool tag the copy.
    WriteMetadata,
    /// Record the checksum with the destination in the index.
    RecordChecksum,
    /// Report the item as imported.
    Finish,
    /// Nothing: the item is through.
    Nothing,
}

/// What came of an action.
#[derive(Debug, Clone, Copy, PartialEq, Eq, Structural)]
pub enum Event {
    Succeeded,
    DestinationPresent,
    DestinationAbsent,
    Failed(ImportError),
}

/// The state after an action that can only succeed or fail.
pub open spec fn after(state: ItemState, event: Event, success: ItemState) -> ItemState {
    match event {
        Event::Succeeded => success,
        Event::Failed(e) => ItemState::Failed(e),
        _ => state,
    }
}

impl ItemState {
    /// No action is left for the item.
    pub open spec fn is_terminal(self) -> bool {
        self == ItemState::Done || self == ItemState::Skipped || self is Failed
    }

    /// The action that the state calls for.
    pub open spec fn action(self) -> Action {
        match self {
            ItemState::Discovered => Action::ComputeChecksum,
            ItemState::Hashed => Action::ReadMetadata,
            ItemState::MetadataRead => Action::DerivePath,
            ItemState::PathDerived => Action::CheckDestination,
            ItemState::DedupChecked => Action::CopyFile,
            ItemState::Copied => Action::WriteMetadata,
            ItemState::MetadataWritten => Action::RecordChecksum,
            ItemState::Indexed => Action::Finish,
            ItemState::Done => Action::Nothing,
            ItemState::Skipped => Action::Nothing,
            ItemState::Failed(_) => Action::Nothing,
        }
    }

    /// The state that follows when the state's action ended in `event`. A
    /// failure ends the item wherever it happens, and undoes nothing. An
    /// existing destination ends it as skipped. An event that does not
    /// answer the state's action leaves the state as it is.
    pub open spec fn next(self, event: Event) -> ItemState {
        match self {
            ItemState::Discovered => after(self, event, ItemState::Hashed),
            ItemState::Hashed => after(self, event, ItemState::MetadataRead),
            ItemState::MetadataRead => after(self, event, ItemState::PathDerived),
            ItemState::PathDerived => match event {
                Event::DestinationPresent => ItemState::Skipped,
                Event::DestinationAbsent => ItemState::DedupChecked,
                Event::Failed(e) => ItemState::Failed(e),
                Event::Succeeded => self,
            },
            ItemState::DedupChecked => after(self, event, ItemState::Copied),
            ItemState::Copied => after(self, event, ItemState::MetadataWritten),
            ItemState::MetadataWritten => after(self, event, ItemState::Indexed),
            ItemState::Indexed => after(self, event, ItemState::Done),
            ItemState::Done => self,
            ItemState::Skipped => self,
            ItemState::Failed(_) => self,
        }
    }

    /// Whether the item is through.
    pub fn is_final(&self) -> (through: bool)
        ensures
            through == self.is_terminal(),
    {
        match self {
            ItemState::Done => true,
            ItemState::Skipped => true,
            ItemState::Failed(_) => true,
            _ => false,
        }
    }

    /// The action that this state calls for.
    pub fn action_for(&self) -> (action: Action)
        ensures
            action == self.action(),
    {
        match self {
            ItemState::Discovered => Action::ComputeChecksum,
            ItemState::Hashed => Action::ReadMetadata,
            ItemState::MetadataRead => Action::DerivePath,
            ItemState::PathDerived => Action::CheckDestination,
            ItemState::DedupChecked => Action::CopyFile,
            ItemState::Copied => Action::WriteMetadata,
            ItemState::MetadataWritten => Action::RecordChecksum,
            ItemState::Indexed => Action::Finish,
            ItemState::Done => Action::Nothing,
            ItemState::Skipped => Action::Nothing,
            ItemState::Failed(_) => Action::Nothing,
        }
    }

    /// Moves on by what came of this state's action, and says what to do
    /// next.
    pub fn step(&self, event: Event) -> (moved: (ItemState, Action))
        ensures
            moved.0 == self.next(event),
            moved.1 == self.next(event).action(),
    {
        let success = match self {
            ItemState::Discovered => ItemState::Hashed,
            ItemState::Hashed => ItemState::MetadataRead,
            ItemState::MetadataRead => ItemState::PathDerived,
            ItemState::PathDerived => ItemState::PathDerived,
            ItemState::DedupChecked => ItemState::Copied,
            ItemState::Copied => ItemState::MetadataWritten,
            ItemState::MetadataWritten => ItemState::Indexed,
            ItemState::Indexed => ItemState::Done,
            ItemState::Done => ItemState::Done,
            ItemState::Skipped => ItemState::Skipped,
            ItemState::Failed(e) => ItemState::Failed(*e),
        };
        let checking = match self {
            ItemState::PathDerived => true,
            _ => false,
        };
        let state = if self.is_final() {
            *self
        } else {
            match event {
                Event::Succeeded => success,
                Event::Failed(e) => ItemState::Failed(e),
                Event::DestinationPresent => if checking { ItemState::Skipped } else { *self },
                Event::DestinationAbsent => if checking { ItemState::DedupChecked } else { *self },
            }
        };
        (state, state.action_for())
    }
}

/// What a run has to show: the photos that went through, in the order of
/// their files, and the failure of each file that was dropped.
#[derive(Debug, Clone)]
pub struct RunReport {
    pub imported: Vec<Photo>,
    pub failed: Vec<ImportError>,
}

impl RunReport {
    /// The report of a run that has not seen a file yet.
    pub fn new() -> (report: RunReport)
        ensures
            report.imported@.len() == 0,
            report.failed@.len() == 0,
    {
        RunReport { imported: Vec::new(), failed: Vec::new() }
    }

    /// Takes the outcome of one file: a photo joins the imported ones, a
    /// failure is noted and the file dropped. Neither ends the run.
    pub fn note(&mut self, outcome: Result<Photo, ImportError>)
        ensures
            outcome matches Ok(photo) ==> final(self).imported@ == old(self).imported@.push(photo),
            outcome is Ok ==> final(self).failed@ == old(self).failed@,
            outcome matches Err(e) ==> final(self).failed@ == old(self).failed@.push(e),
            outcome is Err ==> final(self).imported@ == old(self).imported@,
    {
        match outcome {
            Ok(photo) => self.imported.push(photo),
            Err(e) => self.failed.push(e),
        }
    }
}

/// What the import can see and change outside itself: the files under the
/// output directory, and the checksum index.
pub struct World {
    pub files: Set<Seq<char>>,
    pub index: Map<Seq<char>, Seq<char>>,
}

/// One file on its way: where it is to go, under which key its content is
/// known, and which path the index is to hold for it.
pub struct Job {
    pub destination: Seq<char>,
    pub key: Seq<char>,
    pub fragment: Seq<char>,
}

/// The way of a photo into `output_dir`.
pub open spec fn job_for(output_dir: Seq<char>, photo: PhotoView) -> Job {
    Job {
        destination: destination(output_dir, photo),
        key: key_of(photo.checksum),
        fragment: photo.output_filename,
    }
}

/// How a world in which nothing fails answers an action, and what the action
/// leaves of it.
pub open spec fn respond(world: World, action: Action, job: Job) -> (World, Event) {
    match action {
        Action::CheckDestination => (
            world,
            if world.files.contains(job.destination) {
                Event::DestinationPresent
            } else {
                Event::DestinationAbsent
            },
        ),
        Action::CopyFile => (
            World { files: world.files.insert(job.destination), index: world.index },
            Event::Succeeded,
        ),
        Action::RecordChecksum => (
            World { files: world.files, index: recorded(world.index, job.key, job.fragment) },
            Event::Succeeded,
        ),
        _ => (world, Event::Succeeded),
    }
}

/// Where an item and the world stand after at most `steps` actions.
pub open spec fn run(state: ItemState, world: World, job: Job, steps: nat) -> (ItemState, World)
    decreases steps,
{
    if steps == 0 || state.is_terminal() {
        (state, world)
    } else {
        let answer = respond(world, state.action(), job);
        run(state.next(answer.1), answer.0, job, (steps - 1) as nat)
    }
}

/// The import of one file from its discovery to its end, in a world in which
/// nothing fails.
pub open spec fn import(world: World, job: Job) -> (ItemState, World) {
    run(ItemState::Discovered, world, job, 9)
}

/// An item that is through stays as it is, and nothing is done for it.
pub proof fn terminal_states_are_final(state: ItemState, event: Event)
    requires
        state.is_terminal(),
    ensures
        state.next(event) == state,
        state.action() == Action::Nothing,
{
}

/// A failure ends an item at whatever step it happens, with the failure's
/// kind.
pub proof fn failure_drops_the_item(state: ItemState, e: ImportError)
    requires
        !state.is_terminal(),
    ensures
        state.next(Event::Failed(e)) == ItemState::Failed(e),
        state.next(Event::Failed(e)).action() == Action::Nothing,
{
}

/// A file is copied only after its destination was looked for and not found:
/// copying is the action of one state, and the only way into that state is
/// the answer that the destination is absent.
pub proof fn copy_needs_absent_destination(state: ItemState, event: Event)
    ensures
        state.action() == Action::CopyFile <==> state == ItemState::DedupChecked,
        state != ItemState::DedupChecked && state.next(event) == ItemState::DedupChecked ==> state
            == ItemState::PathDerived && event == Event::DestinationAbsent,
        ItemState::PathDerived.next(Event::DestinationPresent) == ItemState::Skipped,
{
}

/// A record without a date fails the item before anything is copied: the
/// failure comes at the step that derives the path, and the item ends there.
pub proof fn missing_timestamp_copies_nothing(event: Event)
    ensures
        ItemState::MetadataRead.next(Event::Failed(ImportError::MissingTimestamp))
            == ItemState::Failed(ImportError::MissingTimestamp),
        ItemState::Failed(ImportError::MissingTimestamp).action() == Action::Nothing,
        ItemState::Failed(ImportError::MissingTimestamp).next(event) == ItemState::Failed(
            ImportError::MissingTimestamp,
        ),
{
}

/// Where nothing fails, an import ends: as done, with the file at its
/// destination and its checksum recorded, or as skipped, with the world as it
/// was, because the destination was there already.
pub proof fn import_ends(world: World, job: Job)
    ensures
        world.files.contains(job.destination) ==> import(world, job) == (ItemState::Skipped, world),
        !world.files.contains(job.destination) ==> import(world, job) == (
            ItemState::Done,
            World {
                files: world.files.insert(job.destination),
                index: recorded(world.index, job.key, job.fragment),
            },
        ),
{
    reveal_with_fuel(run, 10);
}

/// Importing a file a second time changes nothing: the second import is
/// skipped, and files and index are as the first left them, with the file at
/// its destination.
pub proof fn second_import_is_skipped(world: World, job: Job)
    ensures
        import(import(world, job).1, job) == (ItemState::Skipped, import(world, job).1),
        import(world, job).1.files.contains(job.destination),
        import(world, job).1.files == world.files.insert(job.destination),
{
    import_ends(world, job);
    import_ends(import(world, job).1, job);
    if world.files.contains(job.destination) {
        assert(world.files.insert(job.destination) =~= world.files);
    }
}

/// The same photo imported twice into one output directory is copied once:
/// after both imports there is the one file at its destination, and the
/// second import was skipped and left files and index alone.
pub proof fn photo_is_imported_once(world: World, output_dir: Seq<char>, photo: PhotoView)
    ensures
        ({
            let job = job_for(output_dir, photo);
            let first = import(world, job);
            let second = import(first.1, job);
            &&& second.0 == ItemState::Skipped
            &&& second.1 == first.1
            &&& second.1.files == world.files.insert(destination(output_dir, photo))
        }),
{
    second_import_is_skipped(world, job_for(output_dir, photo));
}

} // verus!
