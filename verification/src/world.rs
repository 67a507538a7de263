//! A model of what stands at the two paths, and of what each operation does to it.
//!
//! The engine never looks at the disk. It is handed a `World`, the caller's
//! observation of the source and the destination, and predicts on it what
//! each operation of its plan will leave behind.

use vstd::prelude::*;
use vstd::string::*;

use crate::error::{HookError, HookErrorView};

verus! {

/// One of the two paths of a pair.
#[derive(Debug, Clone, Copy, PartialEq, Eq, Structural)]
pub enum Side {
    Source,
    Destination,
}

impl Side {
    /// The other path of the pair.
    pub open spec fn other(self) -> Side {
        match self {
            Side::Source => Side::Destination,
            Side::Destination => Side::Source,
        }
    }

    /// The path of this side, of the two given.
    pub open spec fn path(self, source: Seq<char>, destination: Seq<char>) -> Seq<char> {
        match self {
            Side::Source => source,
            Side::Destination => destination,
        }
    }

    /// The other path of the pair.
    pub fn opposite(self) -> (side: Side)
        ensures
            side == self.other(),
    {
        match self {
            Side::Source => Side::Destination,
            Side::Destination => Side::Source,
        }
    }
}

/// Whether a pair is reconciled as a file or as a directory.
#[derive(Debug, Clone, Copy, PartialEq, Eq, Structural)]
pub enum EntryShape {
    FileShape,
    DirectoryShape,
}

/// What a path resolves to, symbolic links followed.
#[derive(Debug, Clone, Copy, PartialEq, Eq, Structural)]
pub enum ExistenceKind {
    Missing,
    File,
    Directory,
}

/// What an attempt to list a directory showed.
#[derive(Debug, Clone, Copy, PartialEq, Eq, Structural)]
pub enum Listing {
    /// The directory could not be read.
    Unreadable,
    /// The directory was read and holds nothing.
    Empty,
    /// The directory holds at least one entry.
    Occupied,
}

/// What stands at one path.
///
/// `origin` says whose data an entry holds: `Some(side)` for what stood at
/// `side` when the world was observed, `None` for what an operation created.
/// An operation that moves an entry moves its origin with it, so the origin
/// of what ends up at a path tells whose data survived there.
#[derive(Debug, Clone, PartialEq, Eq)]
pub enum Entry {
    /// Nothing.
    Missing,
    /// A file.
    File { origin: Option<Side> },
    /// A directory.
    Directory { origin: Option<Side>, listing: Listing },
    /// A symbolic link with its recorded target, and what the link resolves to.
    Link { target: String, leads_to: ExistenceKind },
}

/// An `Entry` with the link's target taken as its sequence of characters.
pub enum EntryView {
    Missing,
    File { origin: Option<Side> },
    Directory { origin: Option<Side>, listing: Listing },
    Link { target: Seq<char>, leads_to: ExistenceKind },
}

impl View for Entry {
    type V = EntryView;

    open spec fn view(&self) -> EntryView {
        match self {
            Entry::Missing => EntryView::Missing,
            Entry::File { origin } => EntryView::File { origin: *origin },
            Entry::Directory { origin, listing } => EntryView::Directory {
                origin: *origin,
                listing: *listing,
            },
            Entry::Link { target, leads_to } => EntryView::Link {
                target: target@,
                leads_to: *leads_to,
            },
        }
    }
}

impl EntryView {
    /// What the path resolves to: the entry's own kind, or for a link that of its target.
    pub open spec fn kind(self) -> ExistenceKind {
        match self {
            EntryView::Missing => ExistenceKind::Missing,
            EntryView::File { .. } => ExistenceKind::File,
            EntryView::Directory { .. } => ExistenceKind::Directory,
            EntryView::Link { leads_to, .. } => leads_to,
        }
    }

    /// The path resolves to a file or a directory.
    pub open spec fn is_present(self) -> bool {
        self.kind() != ExistenceKind::Missing
    }

    /// The entry is a file or a directory of its own, not a link and not missing.
    pub open spec fn holds_data(self) -> bool {
        self is File || self is Directory
    }

    /// The entry is a directory that was listed and holds nothing. A
    /// directory that could not be read is not known to be empty, and is
    /// not taken for one.
    pub open spec fn is_empty_directory(self) -> bool {
        self matches EntryView::Directory { listing, .. } && listing == Listing::Empty
    }

    /// What was found at `side` when the world was observed: `kind`, listed as `listing`.
    pub open spec fn found(kind: ExistenceKind, listing: Listing, side: Side) -> EntryView {
        match kind {
            ExistenceKind::Missing => EntryView::Missing,
            ExistenceKind::File => EntryView::File { origin: Some(side) },
            ExistenceKind::Directory => EntryView::Directory { origin: Some(side), listing },
        }
    }
}

impl Entry {
    /// The entry for what was found at `side`: nothing, a file, or a
    /// directory listed as `listing`.
    pub fn found(kind: ExistenceKind, listing: Listing, side: Side) -> (entry: Entry)
        ensures
            entry@ == EntryView::found(kind, listing, side),
    {
        match kind {
            ExistenceKind::Missing => Entry::Missing,
            ExistenceKind::File => Entry::File { origin: Some(side) },
            ExistenceKind::Directory => Entry::Directory { origin: Some(side), listing },
        }
    }

    /// The entry for a symbolic link found with `target` recorded in it,
    /// which resolves to `leads_to`.
    pub fn link(target: String, leads_to: ExistenceKind) -> (entry: Entry)
        ensures
            entry@ == (EntryView::Link { target: target@, leads_to }),
    {
        Entry::Link { target, leads_to }
    }

    /// What the path resolves to.
    pub fn kind(&self) -> (kind: ExistenceKind)
        ensures
            kind == self@.kind(),
    {
        match self {
            Entry::Missing => ExistenceKind::Missing,
            Entry::File { .. } => ExistenceKind::File,
            Entry::Directory { .. } => ExistenceKind::Directory,
            Entry::Link { leads_to, .. } => *leads_to,
        }
    }

    /// Tells whether the path resolves to a file or a directory.
    pub fn is_present(&self) -> (present: bool)
        ensures
            present == self@.is_present(),
    {
        match self.kind() {
            ExistenceKind::Missing => false,
            _ => true,
        }
    }

    /// Tells whether the entry is a symbolic link.
    pub fn is_symlink(&self) -> (is_link: bool)
        ensures
            is_link == (self@ is Link),
    {
        match self {
            Entry::Link { .. } => true,
            _ => false,
        }
    }
}

/// What stands at the source and at the destination.
#[derive(Debug, Clone, PartialEq, Eq)]
pub struct World {
    pub source: Entry,
    pub destination: Entry,
}

/// A `World` of entry views.
pub struct WorldView {
    pub source: EntryView,
    pub destination: EntryView,
}

impl View for World {
    type V = WorldView;

    open spec fn view(&self) -> WorldView {
        WorldView { source: self.source@, destination: self.destination@ }
    }
}

/// One change to what stands at the two paths.
#[derive(Debug, Clone, PartialEq, Eq)]
pub enum Operation {
    /// Remove the file, or the link, at a path.
    RemoveFile { at: Side },
    /// Remove the directory at a path with all it holds.
    RemoveDirectory { at: Side },
    /// Create an empty file at a path.
    CreateFile { at: Side },
    /// Create a directory at a path, with the directories above it.
    CreateDirectory { at: Side },
    /// Rename the file at `from` to the other path.
    MoveFile { from: Side },
    /// Rename the directory at `from` to the other path.
    MoveDirectory { from: Side },
    /// Create at the destination a link to a file, with `target` recorded in it.
    SymlinkFile { target: String },
    /// Create at the destination a link to a directory, with `target` recorded in it.
    SymlinkDirectory { target: String },
}

/// An `Operation` with the link's target taken as its sequence of characters.
pub enum OperationView {
    RemoveFile { at: Side },
    RemoveDirectory { at: Side },
    CreateFile { at: Side },
    CreateDirectory { at: Side },
    MoveFile { from: Side },
    MoveDirectory { from: Side },
    SymlinkFile { target: Seq<char> },
    SymlinkDirectory { target: Seq<char> },
}

impl View for Operation {
    type V = OperationView;

    open spec fn view(&self) -> OperationView {
        match self {
            Operation::RemoveFile { at } => OperationView::RemoveFile { at: *at },
            Operation::RemoveDirectory { at } => OperationView::RemoveDirectory { at: *at },
            Operation::CreateFile { at } => OperationView::CreateFile { at: *at },
            Operation::CreateDirectory { at } => OperationView::CreateDirectory { at: *at },
            Operation::MoveFile { from } => OperationView::MoveFile { from: *from },
            Operation::MoveDirectory { from } => OperationView::MoveDirectory { from: *from },
            Operation::SymlinkFile { target } => OperationView::SymlinkFile { target: target@ },
            Operation::SymlinkDirectory { target } => OperationView::SymlinkDirectory {
                target: target@,
            },
        }
    }
}

impl OperationView {
    /// The line that announces the operation on the pair `source`, `destination`.
    pub open spec fn describe(self, source: Seq<char>, destination: Seq<char>) -> Seq<char> {
        match self {
            OperationView::RemoveFile { at } => "Removing file: "@ + at.path(source, destination),
            OperationView::RemoveDirectory { at } => "Removing directory: "@ + at.path(
                source,
                destination,
            ),
            OperationView::CreateFile { at } => "Creating file: "@ + at.path(source, destination),
            OperationView::CreateDirectory { at } => "Creating directory: "@ + at.path(
                source,
                destination,
            ),
            OperationView::MoveFile { from } => "Moving file: "@ + from.path(source, destination)
                + " to "@ + from.other().path(source, destination),
            OperationView::MoveDirectory { from } => "Moving directory: "@ + from.path(
                source,
                destination,
            ) + " to "@ + from.other().path(source, destination),
            OperationView::SymlinkFile { target } => "Creating symlink: "@ + destination + " -> "@
                + target,
            OperationView::SymlinkDirectory { target } => "Creating symlink: "@ + destination
                + " -> "@ + target,
        }
    }

    /// The error that reports that the system refused the operation, saying `reported`.
    pub open spec fn failure(self, reported: Seq<char>) -> HookErrorView {
        match self {
            OperationView::RemoveFile { .. } => HookErrorView::ExecutionError(
                "Error removing file: "@ + reported,
            ),
            OperationView::RemoveDirectory { .. } => HookErrorView::ExecutionError(
                "Error removing directory: "@ + reported,
            ),
            OperationView::CreateFile { .. } => HookErrorView::ExecutionError(
                "Error creating file: "@ + reported,
            ),
            OperationView::CreateDirectory { .. } => HookErrorView::ExecutionError(
                "Error creating directory: "@ + reported,
            ),
            OperationView::MoveFile { .. } => HookErrorView::ExecutionError(
                "Error moving file: "@ + reported,
            ),
            OperationView::MoveDirectory { .. } => HookErrorView::ExecutionError(
                "Error moving directory: "@ + reported,
            ),
            OperationView::SymlinkFile { .. } => HookErrorView::SymlinkCreationError(reported),
            OperationView::SymlinkDirectory { .. } => HookErrorView::SymlinkCreationError(reported),
        }
    }
}

/// One item of a plan: a line to print, or an operation to perform.
#[derive(Debug, Clone, PartialEq, Eq)]
pub enum Step {
    Say(String),
    Do(Operation),
}

/// A `Step` with its strings taken as sequences of characters.
pub enum StepView {
    Say(Seq<char>),
    Do(OperationView),
}

impl View for Step {
    type V = StepView;

    open spec fn view(&self) -> StepView {
        match self {
            Step::Say(line) => StepView::Say(line@),
            Step::Do(operation) => StepView::Do(operation@),
        }
    }
}

impl WorldView {
    /// What stands at `side`.
    pub open spec fn at(self, side: Side) -> EntryView {
        match side {
            Side::Source => self.source,
            Side::Destination => self.destination,
        }
    }

    /// The world with `entry` at `side`.
    pub open spec fn with(self, side: Side, entry: EntryView) -> WorldView {
        match side {
            Side::Source => WorldView { source: entry, ..self },
            Side::Destination => WorldView { destination: entry, ..self },
        }
    }

    /// The world as it was observed: each entry that holds data is marked as
    /// the data of its own side, and the source is taken as what it resolves to.
    pub open spec fn observed(self) -> bool {
        &&& self.source matches EntryView::File { origin } ==> origin == Some(Side::Source)
        &&& self.source matches EntryView::Directory { origin, .. } ==> origin == Some(
            Side::Source,
        )
        &&& !(self.source is Link)
        &&& self.destination matches EntryView::File { origin } ==> origin == Some(
            Side::Destination,
        )
        &&& self.destination matches EntryView::Directory { origin, .. } ==> origin == Some(
            Side::Destination,
        )
    }

    /// The world that `operation` leaves behind when it succeeds.
    ///
    /// A removal leaves nothing at its path. A creation leaves an empty entry
    /// that is nobody's data. A move carries the entry to the other path and
    /// leaves nothing behind. A link stands at the destination and resolves
    /// to what the source resolves to.
    pub open spec fn after(self, operation: OperationView) -> WorldView {
        match operation {
            OperationView::RemoveFile { at } => self.with(at, EntryView::Missing),
            OperationView::RemoveDirectory { at } => self.with(at, EntryView::Missing),
            OperationView::CreateFile { at } => self.with(at, EntryView::File { origin: None }),
            OperationView::CreateDirectory { at } => self.with(
                at,
                EntryView::Directory { origin: None, listing: Listing::Empty },
            ),
            OperationView::MoveFile { from } => self.with(from.other(), self.at(from)).with(
                from,
                EntryView::Missing,
            ),
            OperationView::MoveDirectory { from } => self.with(from.other(), self.at(from)).with(
                from,
                EntryView::Missing,
            ),
            OperationView::SymlinkFile { target } => self.with(
                Side::Destination,
                EntryView::Link { target, leads_to: self.source.kind() },
            ),
            OperationView::SymlinkDirectory { target } => self.with(
                Side::Destination,
                EntryView::Link { target, leads_to: self.source.kind() },
            ),
        }
    }

    /// The world that `step` leaves behind: a line changes nothing.
    pub open spec fn after_step(self, step: StepView) -> WorldView {
        match step {
            StepView::Say(_) => self,
            StepView::Do(operation) => self.after(operation),
        }
    }

    /// The world that the steps leave behind, carried out in order.
    pub open spec fn run(self, steps: Seq<StepView>) -> WorldView
        decreases steps.len(),
    {
        if steps.len() == 0 {
            self
        } else {
            self.run(steps.drop_last()).after_step(steps.last())
        }
    }
}

/// The steps of a plan, each taken by its view.
pub open spec fn steps_view(steps: Seq<Step>) -> Seq<StepView> {
    steps.map_values(|step: Step| step@)
}

/// Carrying out `first` and then `second` is carrying out their concatenation.
pub proof fn lemma_run_concat(world: WorldView, first: Seq<StepView>, second: Seq<StepView>)
    ensures
        world.run(first + second) == world.run(first).run(second),
    decreases second.len(),
{
    if second.len() == 0 {
        assert(first + second =~= first);
    } else {
        lemma_run_concat(world, first, second.drop_last());
        assert((first + second).drop_last() =~= first + second.drop_last());
        assert((first + second).last() == second.last());
    }
}

impl Operation {
    /// A copy of the operation.
    pub fn duplicate(&self) -> (copy: Operation)
        ensures
            copy@ == self@,
    {
        match self {
            Operation::RemoveFile { at } => Operation::RemoveFile { at: *at },
            Operation::RemoveDirectory { at } => Operation::RemoveDirectory { at: *at },
            Operation::CreateFile { at } => Operation::CreateFile { at: *at },
            Operation::CreateDirectory { at } => Operation::CreateDirectory { at: *at },
            Operation::MoveFile { from } => Operation::MoveFile { from: *from },
            Operation::MoveDirectory { from } => Operation::MoveDirectory { from: *from },
            Operation::SymlinkFile { target } => Operation::SymlinkFile { target: target.clone() },
            Operation::SymlinkDirectory { target } => Operation::SymlinkDirectory {
                target: target.clone(),
            },
        }
    }

    /// The line that announces the operation on the pair `source`, `destination`.
    pub fn describe(&self, source: &str, destination: &str) -> (line: String)
        ensures
            line@ == self@.describe(source@, destination@),
    {
        match self {
            Operation::RemoveFile { at } => String::from_str("Removing file: ").concat(
                path_of(*at, source, destination),
            ),
            Operation::RemoveDirectory { at } => String::from_str("Removing directory: ").concat(
                path_of(*at, source, destination),
            ),
            Operation::CreateFile { at } => String::from_str("Creating file: ").concat(
                path_of(*at, source, destination),
            ),
            Operation::CreateDirectory { at } => String::from_str("Creating directory: ").concat(
                path_of(*at, source, destination),
            ),
            Operation::MoveFile { from } => String::from_str("Moving file: ").concat(
                path_of(*from, source, destination),
            ).concat(" to ").concat(path_of(from.opposite(), source, destination)),
            Operation::MoveDirectory { from } => String::from_str("Moving directory: ").concat(
                path_of(*from, source, destination),
            ).concat(" to ").concat(path_of(from.opposite(), source, destination)),
            Operation::SymlinkFile { target } => String::from_str("Creating symlink: ").concat(
                destination,
            ).concat(" -> ").concat(target.as_str()),
            Operation::SymlinkDirectory { target } => String::from_str(
                "Creating symlink: ",
            ).concat(destination).concat(" -> ").concat(target.as_str()),
        }
    }

    /// The error that reports that the system refused the operation, saying `reported`.
    pub fn failure(&self, reported: &str) -> (error: HookError)
        ensures
            error@ == self@.failure(reported@),
    {
        match self {
            Operation::RemoveFile { .. } => HookError::ExecutionError(
                String::from_str("Error removing file: ").concat(reported),
            ),
            Operation::RemoveDirectory { .. } => HookError::ExecutionError(
                String::from_str("Error removing directory: ").concat(reported),
            ),
            Operation::CreateFile { .. } => HookError::ExecutionError(
                String::from_str("Error creating file: ").concat(reported),
            ),
            Operation::CreateDirectory { .. } => HookError::ExecutionError(
                String::from_str("Error creating directory: ").concat(reported),
            ),
            Operation::MoveFile { .. } => HookError::ExecutionError(
                String::from_str("Error moving file: ").concat(reported),
            ),
            Operation::MoveDirectory { .. } => HookError::ExecutionError(
                String::from_str("Error moving directory: ").concat(reported),
            ),
            Operation::SymlinkFile { .. } => HookError::SymlinkCreationError(
                String::from_str(reported),
            ),
            Operation::SymlinkDirectory { .. } => HookError::SymlinkCreationError(
                String::from_str(reported),
            ),
        }
    }
}

impl Step {
    /// A copy of the step.
    pub fn duplicate(&self) -> (copy: Step)
        ensures
            copy@ == self@,
    {
        match self {
            Step::Say(line) => Step::Say(line.clone()),
            Step::Do(operation) => Step::Do(operation.duplicate()),
        }
    }
}

/// The path of `side`, of the two given.
pub fn path_of<'a>(side: Side, source: &'a str, destination: &'a str) -> (path: &'a str)
    ensures
        path@ == side.path(source@, destination@),
{
    match side {
        Side::Source => source,
        Side::Destination => destination,
    }
}

impl World {
    /// The world in which `source` and `destination` stand at the two paths.
    pub fn new(source: Entry, destination: Entry) -> (world: World)
        ensures
            world@ == (WorldView { source: source@, destination: destination@ }),
    {
        World { source, destination }
    }

    /// Replaces what stands at `side` by `entry`.
    pub fn put(&mut self, side: Side, entry: Entry)
        ensures
            final(self)@ == old(self)@.with(side, entry@),
    {
        match side {
            Side::Source => {
                self.source = entry;
            },
            Side::Destination => {
                self.destination = entry;
            },
        }
    }

    /// Carries what stands at `from` to the other path, leaving nothing behind.
    pub fn carry(&mut self, from: Side)
        ensures
            final(self)@ == old(self)@.with(from.other(), old(self)@.at(from)).with(
                from,
                EntryView::Missing,
            ),
    {
        core::mem::swap(&mut self.source, &mut self.destination);
        self.put(from, Entry::Missing);
    }

    /// Predicts `operation`: leaves in `self` what the operation leaves behind.
    pub fn apply(&mut self, operation: &Operation)
        ensures
            final(self)@ == old(self)@.after(operation@),
    {
        match operation {
            Operation::RemoveFile { at } => self.put(*at, Entry::Missing),
            Operation::RemoveDirectory { at } => self.put(*at, Entry::Missing),
            Operation::CreateFile { at } => self.put(*at, Entry::File { origin: None }),
            Operation::CreateDirectory { at } => self.put(
                *at,
                Entry::Directory { origin: None, listing: Listing::Empty },
            ),
            Operation::MoveFile { from } => self.carry(*from),
            Operation::MoveDirectory { from } => self.carry(*from),
            Operation::SymlinkFile { target } => {
                let leads_to = self.source.kind();
                self.put(Side::Destination, Entry::Link { target: target.clone(), leads_to });
            },
            Operation::SymlinkDirectory { target } => {
                let leads_to = self.source.kind();
                self.put(Side::Destination, Entry::Link { target: target.clone(), leads_to });
            },
        }
    }

    /// Predicts a whole plan: leaves in `self` what its operations leave
    /// behind, carried out in order.
    pub fn carry_out(&mut self, steps: &Vec<Step>)
        ensures
            final(self)@ == old(self)@.run(steps_view(steps@)),
    {
        let mut i: usize = 0;
        while i < steps.len()
            invariant
                i <= steps.len(),
                self@ == old(self)@.run(steps_view(steps@).take(i as int)),
            decreases steps.len() - i,
        {
            proof {
                let all = steps_view(steps@);
                assert(all.take(i + 1).drop_last() =~= all.take(i as int));
                assert(all.take(i + 1).last() == steps@[i as int]@);
            }
            match &steps[i] {
                Step::Say(_) => {},
                Step::Do(operation) => self.apply(operation),
            }
            i = i + 1;
        }
        proof {
            let all = steps_view(steps@);
            assert(all.take(steps.len() as int) =~= all);
        }
    }
}

} // verus!
