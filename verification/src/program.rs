//! The engine: from a pair of paths and what stands at them to one symbolic link.
//!
//! Every function here decides and predicts; none acts. What is to be
//! printed and performed is collected, in order, in a `Draft`, together with
//! the world that the operations will leave behind.

use vstd::prelude::*;
use vstd::string::*;

use crate::args::HookArgs;
use crate::error::{HookError, HookErrorView};
use crate::paths;
use crate::prompt::{Decision, Prompt};
use crate::world::{
    Entry, EntryShape, EntryView, ExistenceKind, Operation, OperationView, Side, Step, StepView,
    World, WorldView, steps_view,
};

verus! {

/// Why the engine stops before the link is made: it needs an answer, or it fails.
#[derive(Debug, Clone, PartialEq, Eq)]
pub enum Stop {
    Ask(Prompt),
    Fail(HookError),
}

/// A `Stop` with its error taken by its view.
pub enum StopView {
    Ask(Prompt),
    Fail(HookErrorView),
}

impl View for Stop {
    type V = StopView;

    open spec fn view(&self) -> StopView {
        match self {
            Stop::Ask(prompt) => StopView::Ask(*prompt),
            Stop::Fail(error) => StopView::Fail(error@),
        }
    }
}

/// A result with its stop taken by its view.
pub open spec fn stop_view<T>(result: Result<T, Stop>) -> Result<T, StopView> {
    match result {
        Ok(value) => Ok(value),
        Err(stop) => Err(stop@),
    }
}

/// The steps planned so far, and the world that their operations leave behind.
#[derive(Debug, Clone, PartialEq, Eq)]
pub struct Draft {
    pub world: World,
    pub steps: Vec<Step>,
}

/// A `Draft` taken by the views of its world and of its steps.
pub struct DraftView {
    pub world: WorldView,
    pub steps: Seq<StepView>,
}

impl View for Draft {
    type V = DraftView;

    open spec fn view(&self) -> DraftView {
        DraftView { world: self.world@, steps: steps_view(self.steps@) }
    }
}

/// The steps that stand for one operation: its announcement unless the
/// configuration is quiet, and the operation itself unless the run is dry.
pub open spec fn announced(
    args: HookArgs,
    source: Seq<char>,
    destination: Seq<char>,
    operation: OperationView,
) -> Seq<StepView> {
    (if args.quiet {
        Seq::<StepView>::empty()
    } else {
        seq![StepView::Say(operation.describe(source, destination))]
    }) + (if args.dry_run {
        Seq::<StepView>::empty()
    } else {
        seq![StepView::Do(operation)]
    })
}

impl DraftView {
    /// The draft of a run that starts from `world`.
    pub open spec fn start(world: WorldView) -> DraftView {
        DraftView { world, steps: Seq::empty() }
    }

    /// The draft with one more line to print.
    pub open spec fn say(self, line: Seq<char>) -> DraftView {
        DraftView { steps: self.steps.push(StepView::Say(line)), ..self }
    }

    /// The draft with one more operation: announced and performed as the
    /// configuration has it, and predicted on the world in any case.
    pub open spec fn planned(
        self,
        args: HookArgs,
        source: Seq<char>,
        destination: Seq<char>,
        operation: OperationView,
    ) -> DraftView {
        DraftView {
            world: self.world.after(operation),
            steps: self.steps + announced(args, source, destination, operation),
        }
    }
}

impl Draft {
    /// The draft of a run that starts from `world`: nothing planned yet.
    pub fn start(world: World) -> (draft: Draft)
        ensures
            draft@ == DraftView::start(world@),
    {
        let draft = Draft { world, steps: Vec::new() };
        assert(draft@.steps =~= Seq::empty());
        draft
    }

    /// Plans one more line to print.
    pub fn say(&mut self, line: String)
        ensures
            final(self)@ == old(self)@.say(line@),
    {
        self.steps.push(Step::Say(line));
        assert(final(self)@.steps =~= old(self)@.steps.push(StepView::Say(line@)));
    }

    /// Plans one more operation on the pair `source`, `destination`: its
    /// announcement unless `args.quiet`, the operation itself unless
    /// `args.dry_run`, and its effect on the predicted world in any case.
    pub fn execute(&mut self, operation: Operation, source: &str, destination: &str, args: &HookArgs)
        ensures
            final(self)@ == old(self)@.planned(*args, source@, destination@, operation@),
    {
        self.world.apply(&operation);
        if !args.quiet {
            let line = operation.describe(source, destination);
            self.steps.push(Step::Say(line));
        }
        if !args.dry_run {
            self.steps.push(Step::Do(operation));
        }
        assert(final(self)@.steps =~= old(self)@.steps + announced(
            *args,
            source@,
            destination@,
            operation@,
        ));
    }
}

impl EntryShape {
    /// The operation that removes what stands at `at`.
    pub open spec fn removal(self, at: Side) -> OperationView {
        match self {
            EntryShape::FileShape => OperationView::RemoveFile { at },
            EntryShape::DirectoryShape => OperationView::RemoveDirectory { at },
        }
    }

    /// The operation that moves what stands at `from` to the other path.
    pub open spec fn movement(self, from: Side) -> OperationView {
        match self {
            EntryShape::FileShape => OperationView::MoveFile { from },
            EntryShape::DirectoryShape => OperationView::MoveDirectory { from },
        }
    }

    /// The operation that creates the link with `target` recorded in it.
    pub open spec fn symlink(self, target: Seq<char>) -> OperationView {
        match self {
            EntryShape::FileShape => OperationView::SymlinkFile { target },
            EntryShape::DirectoryShape => OperationView::SymlinkDirectory { target },
        }
    }

    /// The line that says, to who asked for more, what is about to be tried.
    pub open spec fn intent(self, source: Seq<char>, destination: Seq<char>) -> Seq<char> {
        match self {
            EntryShape::FileShape => "Trying to create symlink file: "@ + destination + " -> "@
                + source,
            EntryShape::DirectoryShape => "Trying to create symlink directory: "@ + destination
                + " -> "@ + source,
        }
    }
}

/// Plans the removal of the file, or of the link, at `at`.
pub fn remove_file(at: Side, source: &str, destination: &str, args: &HookArgs, draft: &mut Draft)
    ensures
        final(draft)@ == old(draft)@.planned(
            *args,
            source@,
            destination@,
            EntryShape::FileShape.removal(at),
        ),
{
    draft.execute(Operation::RemoveFile { at }, source, destination, args);
}

/// Plans the removal of the directory at `at`, with all it holds.
pub fn remove_directory(
    at: Side,
    source: &str,
    destination: &str,
    args: &HookArgs,
    draft: &mut Draft,
)
    ensures
        final(draft)@ == old(draft)@.planned(
            *args,
            source@,
            destination@,
            EntryShape::DirectoryShape.removal(at),
        ),
{
    draft.execute(Operation::RemoveDirectory { at }, source, destination, args);
}

/// Plans the creation of a directory at `at`.
pub fn create_directory(
    at: Side,
    source: &str,
    destination: &str,
    args: &HookArgs,
    draft: &mut Draft,
)
    ensures
        final(draft)@ == old(draft)@.planned(
            *args,
            source@,
            destination@,
            OperationView::CreateDirectory { at },
        ),
{
    draft.execute(Operation::CreateDirectory { at }, source, destination, args);
}

/// Plans the creation of an empty file at `at`.
pub fn create_file(at: Side, source: &str, destination: &str, args: &HookArgs, draft: &mut Draft)
    ensures
        final(draft)@ == old(draft)@.planned(
            *args,
            source@,
            destination@,
            OperationView::CreateFile { at },
        ),
{
    draft.execute(Operation::CreateFile { at }, source, destination, args);
}

/// Plans the move of the file at `from` to the other path.
pub fn move_file(from: Side, source: &str, destination: &str, args: &HookArgs, draft: &mut Draft)
    ensures
        final(draft)@ == old(draft)@.planned(
            *args,
            source@,
            destination@,
            EntryShape::FileShape.movement(from),
        ),
{
    draft.execute(Operation::MoveFile { from }, source, destination, args);
}

/// Plans the move of the directory at `from` to the other path.
pub fn move_directory(
    from: Side,
    source: &str,
    destination: &str,
    args: &HookArgs,
    draft: &mut Draft,
)
    ensures
        final(draft)@ == old(draft)@.planned(
            *args,
            source@,
            destination@,
            EntryShape::DirectoryShape.movement(from),
        ),
{
    draft.execute(Operation::MoveDirectory { from }, source, destination, args);
}

/// What the link records as its target, once a relative path has been
/// looked for: the path found, or the failure to find one.
pub open spec fn relative_target_of(
    source: Seq<char>,
    destination: Seq<char>,
    relative: Option<Seq<char>>,
) -> Result<Seq<char>, HookErrorView> {
    match relative {
        Some(target) => Ok(target),
        None => Err(HookErrorView::PathDiff { source, destination }),
    }
}

/// What the link records as its target: the source as it stands, or under
/// `args.relative` the path from the destination's directory to the source.
/// A destination without a directory above it, or a source that no relative
/// path leads to, is an error: the link is never made absolute instead.
pub open spec fn link_target(args: HookArgs, source: Seq<char>, destination: Seq<char>) -> Result<
    Seq<char>,
    HookErrorView,
> {
    if !args.relative {
        Ok(source)
    } else {
        match paths::parent_of(destination) {
            None => Err(HookErrorView::ExecutionError("Destination path has no parent"@)),
            Some(directory) => relative_target_of(
                source,
                destination,
                paths::relative_path(source, directory),
            ),
        }
    }
}

/// A string result with both sides taken by their views.
pub open spec fn target_view(result: Result<String, HookError>) -> Result<
    Seq<char>,
    HookErrorView,
> {
    match result {
        Ok(target) => Ok(target@),
        Err(error) => Err(error@),
    }
}

/// Turns the relative path that was looked for into the link's target.
pub fn relative_target(source: &str, destination: &str, relative: Option<String>) -> (target:
    Result<String, HookError>)
    ensures
        target_view(target) == relative_target_of(source@, destination@, paths::text(relative)),
{
    match relative {
        Some(target) => Ok(target),
        None => Err(
            HookError::PathDiff {
                source: String::from_str(source),
                destination: String::from_str(destination),
            },
        ),
    }
}

/// Computes what the link at `destination` is to record as its target.
pub fn target_for(source: &str, destination: &str, args: &HookArgs) -> (target: Result<
    String,
    HookError,
>)
    ensures
        target_view(target) == link_target(*args, source@, destination@),
{
    if !args.relative {
        return Ok(String::from_str(source));
    }
    match paths::parent(destination) {
        None => Err(
            HookError::ExecutionError(String::from_str("Destination path has no parent")),
        ),
        Some(directory) => {
            let relative = paths::diff_paths(source, directory.as_str());
            relative_target(source, destination, relative)
        },
    }
}

/// Where a part of the engine leaves the run: the draft after it, and
/// whether the run goes on.
pub struct Course {
    pub draft: DraftView,
    pub end: Result<(), StopView>,
}

impl DraftView {
    /// The draft with the link planned at the end, or the failure to name its target.
    pub open spec fn linked(
        self,
        args: HookArgs,
        source: Seq<char>,
        destination: Seq<char>,
        shape: EntryShape,
    ) -> Course {
        match link_target(args, source, destination) {
            Ok(target) => Course {
                draft: self.planned(args, source, destination, shape.symlink(target)),
                end: Ok(()),
            },
            Err(error) => Course { draft: self, end: Err(StopView::Fail(error)) },
        }
    }
}

/// Plans the link to a file: at `destination`, pointing to `source`.
pub fn create_symlink_file_op(
    source: &str,
    destination: &str,
    args: &HookArgs,
    draft: &mut Draft,
) -> (end: Result<(), Stop>)
    ensures
        final(draft)@ == old(draft)@.linked(
            *args,
            source@,
            destination@,
            EntryShape::FileShape,
        ).draft,
        stop_view(end) == old(draft)@.linked(
            *args,
            source@,
            destination@,
            EntryShape::FileShape,
        ).end,
{
    match target_for(source, destination, args) {
        Ok(target) => {
            draft.execute(Operation::SymlinkFile { target }, source, destination, args);
            Ok(())
        },
        Err(error) => Err(Stop::Fail(error)),
    }
}

/// Plans the link to a directory: at `destination`, pointing to `source`.
pub fn create_symlink_directory_op(
    source: &str,
    destination: &str,
    args: &HookArgs,
    draft: &mut Draft,
) -> (end: Result<(), Stop>)
    ensures
        final(draft)@ == old(draft)@.linked(
            *args,
            source@,
            destination@,
            EntryShape::DirectoryShape,
        ).draft,
        stop_view(end) == old(draft)@.linked(
            *args,
            source@,
            destination@,
            EntryShape::DirectoryShape,
        ).end,
{
    match target_for(source, destination, args) {
        Ok(target) => {
            draft.execute(Operation::SymlinkDirectory { target }, source, destination, args);
            Ok(())
        },
        Err(error) => Err(Stop::Fail(error)),
    }
}

/// What a run reports when it finds the link already in place.
pub open spec fn already_linked(source: Seq<char>, destination: Seq<char>) -> Seq<char> {
    "The destination path is already a symlink to the source path | Source: "@ + source
        + " | Destination: "@ + destination
}

impl DraftView {
    /// What is done about a link that stands at the destination, `same`
    /// telling whether its recorded target is the source.
    ///
    /// A link to the source ends the run: nothing is left to do. Any other
    /// link is in the way. Without `force` and without `interactive` the run
    /// fails. Under `interactive` the user decides: to overwrite, to cancel,
    /// or, as long as neither is said, to be asked. Under `force` alone the
    /// link is removed.
    pub open spec fn link_settled(
        self,
        args: HookArgs,
        source: Seq<char>,
        destination: Seq<char>,
        same: bool,
        decision: Option<Decision>,
    ) -> Course {
        if same {
            Course {
                draft: self,
                end: Err(
                    StopView::Fail(HookErrorView::Skipping(already_linked(source, destination))),
                ),
            }
        } else if !args.may_overwrite() {
            Course { draft: self, end: Err(StopView::Fail(HookErrorView::FilesAlreadyExists)) }
        } else if args.interactive && decision == Some(Decision::Cancel) {
            Course { draft: self, end: Err(StopView::Fail(HookErrorView::CancelledByUser)) }
        } else if args.interactive && decision != Some(Decision::Overwrite) {
            Course { draft: self, end: Err(StopView::Ask(Prompt::OverwriteLink)) }
        } else {
            Course {
                draft: self.planned(
                    args,
                    source,
                    destination,
                    OperationView::RemoveFile { at: Side::Destination },
                ),
                end: Ok(()),
            }
        }
    }

    /// The first part of a reconciliation: a link at the destination is
    /// dealt with, anything else is left as it stands.
    pub open spec fn cleared(
        self,
        args: HookArgs,
        source: Seq<char>,
        destination: Seq<char>,
        decision: Option<Decision>,
    ) -> Course {
        match self.world.destination {
            EntryView::Link { target, .. } => self.link_settled(
                args,
                source,
                destination,
                paths::same(target, source),
                decision,
            ),
            _ => Course { draft: self, end: Ok(()) },
        }
    }
}

/// Decides what is done about the link at the destination, `same` telling
/// whether its recorded target is the source, and plans its removal where
/// the run goes on.
pub fn settle_link(
    same: bool,
    source: &str,
    destination: &str,
    args: &HookArgs,
    decision: Option<Decision>,
    draft: &mut Draft,
) -> (end: Result<(), Stop>)
    ensures
        final(draft)@ == old(draft)@.link_settled(
            *args,
            source@,
            destination@,
            same,
            decision,
        ).draft,
        stop_view(end) == old(draft)@.link_settled(
            *args,
            source@,
            destination@,
            same,
            decision,
        ).end,
{
    if same {
        let message = String::from_str(
            "The destination path is already a symlink to the source path | Source: ",
        ).concat(source).concat(" | Destination: ").concat(destination);
        return Err(Stop::Fail(HookError::Skipping(message)));
    }
    if !args.force && !args.interactive {
        return Err(Stop::Fail(HookError::FilesAlreadyExists));
    }
    if args.interactive {
        match decision {
            Some(Decision::Overwrite) => {},
            Some(Decision::Cancel) => {
                return Err(Stop::Fail(HookError::CancelledByUser));
            },
            _ => {
                return Err(Stop::Ask(Prompt::OverwriteLink));
            },
        }
    }
    remove_file(Side::Destination, source, destination, args, draft);
    Ok(())
}

/// Deals with a destination that is already a link, with `target` recorded in it.
pub fn handle_symlink_different_target(
    source: &str,
    destination: &str,
    target: &str,
    args: &HookArgs,
    decision: Option<Decision>,
    draft: &mut Draft,
) -> (end: Result<(), Stop>)
    ensures
        final(draft)@ == old(draft)@.link_settled(
            *args,
            source@,
            destination@,
            paths::same(target@, source@),
            decision,
        ).draft,
        stop_view(end) == old(draft)@.link_settled(
            *args,
            source@,
            destination@,
            paths::same(target@, source@),
            decision,
        ).end,
{
    let same = paths::same_path(target, source);
    settle_link(same, source, destination, args, decision, draft)
}

/// How a pair is brought to one link, once it is settled whose data stays.
#[derive(Debug, Clone, Copy, PartialEq, Eq, Structural)]
pub enum Resolution {
    /// Only the source holds data: the link is all that is missing.
    LinkNow,
    /// Only the destination holds data: it moves to the source first.
    MoveThenLink,
    /// Both hold data and the source's stays: the destination's is removed.
    KeepSource,
    /// Both hold data and the destination's stays: the source's is removed
    /// and the destination's moves to the source.
    KeepDestination,
}

/// Settles whose data stays where both paths hold some.
///
/// Without `force` and without `interactive` nobody may choose, and the run
/// fails. Under `interactive` the user chooses: the source, the
/// destination, to cancel, or, as long as none of these is said, to be
/// asked. Under `force` alone the destination's data stays.
pub open spec fn conflict_settled(args: HookArgs, decision: Option<Decision>) -> Result<
    Resolution,
    StopView,
> {
    if !args.may_overwrite() {
        Err(StopView::Fail(HookErrorView::FilesAlreadyExists))
    } else if args.interactive {
        match decision {
            Some(Decision::KeepSource) => Ok(Resolution::KeepSource),
            Some(Decision::KeepDestination) => Ok(Resolution::KeepDestination),
            Some(Decision::Cancel) => Err(StopView::Fail(HookErrorView::CancelledByUser)),
            _ => Err(StopView::Ask(Prompt::WhichToKeep)),
        }
    } else {
        Ok(Resolution::KeepDestination)
    }
}

/// How the pair in `world` is brought to one link.
///
/// With nothing at either path there is nothing to reconcile. Data at one
/// path only is linked to, after it has moved to the source if need be.
/// Of two directories an empty one gives way without a question, the
/// destination first. Anything else is a conflict.
pub open spec fn resolution(
    args: HookArgs,
    shape: EntryShape,
    world: WorldView,
    decision: Option<Decision>,
) -> Result<Resolution, StopView> {
    if !world.destination.is_present() && !world.source.is_present() {
        Err(StopView::Fail(HookErrorView::PathsDontExist))
    } else if !world.destination.is_present() {
        Ok(Resolution::LinkNow)
    } else if !world.source.is_present() {
        Ok(Resolution::MoveThenLink)
    } else if shape == EntryShape::DirectoryShape && world.destination.is_empty_directory() {
        Ok(Resolution::KeepSource)
    } else if shape == EntryShape::DirectoryShape && world.source.is_empty_directory() {
        Ok(Resolution::KeepDestination)
    } else {
        conflict_settled(args, decision)
    }
}

/// Both paths hold something, and neither gives way by itself.
pub open spec fn in_conflict(shape: EntryShape, world: WorldView) -> bool {
    &&& world.destination.is_present()
    &&& world.source.is_present()
    &&& shape == EntryShape::DirectoryShape ==> !world.destination.is_empty_directory()
        && !world.source.is_empty_directory()
}

/// The user has settled whose data stays. The question was put by an
/// earlier call, which also planned what goes before the question, so that
/// the call that brings the answer does not plan it again.
pub open spec fn conflict_answered(
    args: HookArgs,
    shape: EntryShape,
    world: WorldView,
    decision: Option<Decision>,
) -> bool {
    &&& in_conflict(shape, world)
    &&& args.interactive
    &&& decision matches Some(answer)
    &&& Prompt::WhichToKeep.offers(answer)
}

impl DraftView {
    /// The draft with the operations of `resolution` planned, short of the link.
    pub open spec fn resolved(
        self,
        args: HookArgs,
        source: Seq<char>,
        destination: Seq<char>,
        shape: EntryShape,
        resolution: Resolution,
    ) -> DraftView {
        match resolution {
            Resolution::LinkNow => self,
            Resolution::MoveThenLink => self.planned(
                args,
                source,
                destination,
                shape.movement(Side::Destination),
            ),
            Resolution::KeepSource => self.planned(
                args,
                source,
                destination,
                shape.removal(Side::Destination),
            ),
            Resolution::KeepDestination => self.planned(
                args,
                source,
                destination,
                shape.removal(Side::Source),
            ).planned(args, source, destination, shape.movement(Side::Destination)),
        }
    }

    /// The second part of a reconciliation, on a destination that is no
    /// link: the pair is resolved and linked, or the run stops.
    pub open spec fn settled(
        self,
        args: HookArgs,
        source: Seq<char>,
        destination: Seq<char>,
        shape: EntryShape,
        decision: Option<Decision>,
    ) -> Course {
        match resolution(args, shape, self.world, decision) {
            Ok(resolution) => self.resolved(args, source, destination, shape, resolution).linked(
                args,
                source,
                destination,
                shape,
            ),
            Err(stop) => Course { draft: self, end: Err(stop) },
        }
    }

    /// A whole reconciliation of one shape: a link at the destination is
    /// dealt with, the intent is said to who asked for more, unless it was
    /// said before the question that is now answered, and the pair is
    /// resolved and linked.
    pub open spec fn reconciled(
        self,
        args: HookArgs,
        source: Seq<char>,
        destination: Seq<char>,
        shape: EntryShape,
        decision: Option<Decision>,
    ) -> Course {
        let cleared = self.cleared(args, source, destination, decision);
        if cleared.end is Err {
            cleared
        } else if args.verbose && !conflict_answered(
            args,
            shape,
            cleared.draft.world,
            decision,
        ) {
            cleared.draft.say(shape.intent(source, destination)).settled(
                args,
                source,
                destination,
                shape,
                decision,
            )
        } else {
            cleared.draft.settled(args, source, destination, shape, decision)
        }
    }
}

/// Settles whose data stays where both paths hold some.
pub fn settle_conflict(args: &HookArgs, decision: Option<Decision>) -> (settled: Result<
    Resolution,
    Stop,
>)
    ensures
        stop_view(settled) == conflict_settled(*args, decision),
{
    if !args.force && !args.interactive {
        return Err(Stop::Fail(HookError::FilesAlreadyExists));
    }
    if args.interactive {
        match decision {
            Some(Decision::KeepSource) => Ok(Resolution::KeepSource),
            Some(Decision::KeepDestination) => Ok(Resolution::KeepDestination),
            Some(Decision::Cancel) => Err(Stop::Fail(HookError::CancelledByUser)),
            _ => Err(Stop::Ask(Prompt::WhichToKeep)),
        }
    } else {
        Ok(Resolution::KeepDestination)
    }
}

/// Tells whether `entry` is a directory that was listed and holds nothing:
/// the only kind that may be discarded without asking. A directory that
/// could not be read is not reported empty.
pub fn is_dir_empty(entry: &Entry) -> (empty: bool)
    ensures
        empty == entry@.is_empty_directory(),
        empty <==> (entry@ matches EntryView::Directory { listing, .. } && listing
            == crate::world::Listing::Empty),
{
    match entry {
        Entry::Directory { listing, .. } => match listing {
            crate::world::Listing::Empty => true,
            _ => false,
        },
        _ => false,
    }
}

/// Plans the operations of `way` on a pair of `shape`, short of the link.
pub fn carry_through(
    way: Resolution,
    shape: EntryShape,
    source: &str,
    destination: &str,
    args: &HookArgs,
    draft: &mut Draft,
)
    ensures
        final(draft)@ == old(draft)@.resolved(*args, source@, destination@, shape, way),
{
    match way {
        Resolution::LinkNow => {},
        Resolution::MoveThenLink => {
            carry(shape, source, destination, args, draft);
        },
        Resolution::KeepSource => {
            discard(shape, Side::Destination, source, destination, args, draft);
        },
        Resolution::KeepDestination => {
            discard(shape, Side::Source, source, destination, args, draft);
            carry(shape, source, destination, args, draft);
        },
    }
}

/// Plans the removal of what stands at `at`, as its shape has it.
fn discard(
    shape: EntryShape,
    at: Side,
    source: &str,
    destination: &str,
    args: &HookArgs,
    draft: &mut Draft,
)
    ensures
        final(draft)@ == old(draft)@.planned(*args, source@, destination@, shape.removal(at)),
{
    match shape {
        EntryShape::FileShape => remove_file(at, source, destination, args, draft),
        EntryShape::DirectoryShape => remove_directory(at, source, destination, args, draft),
    }
}

/// Plans the move of what stands at the destination to the source, as its shape has it.
fn carry(shape: EntryShape, source: &str, destination: &str, args: &HookArgs, draft: &mut Draft)
    ensures
        final(draft)@ == old(draft)@.planned(
            *args,
            source@,
            destination@,
            shape.movement(Side::Destination),
        ),
{
    match shape {
        EntryShape::FileShape => move_file(Side::Destination, source, destination, args, draft),
        EntryShape::DirectoryShape => move_directory(
            Side::Destination,
            source,
            destination,
            args,
            draft,
        ),
    }
}

/// Tells whether `decision` settles a conflict that stands in `world`.
pub fn conflict_is_answered(
    shape: EntryShape,
    args: &HookArgs,
    decision: Option<Decision>,
    world: &World,
) -> (answered: bool)
    ensures
        answered == conflict_answered(*args, shape, world@, decision),
{
    let offered = match decision {
        Some(Decision::KeepSource) => true,
        Some(Decision::KeepDestination) => true,
        Some(Decision::Cancel) => true,
        _ => false,
    };
    if !args.interactive || !offered {
        return false;
    }
    if !world.destination.is_present() || !world.source.is_present() {
        return false;
    }
    match shape {
        EntryShape::FileShape => true,
        EntryShape::DirectoryShape => !is_dir_empty(&world.destination) && !is_dir_empty(
            &world.source,
        ),
    }
}

/// Says what is about to be tried, where the configuration asks for more
/// and it has not been said before a question already.
fn say_intent(
    shape: EntryShape,
    source: &str,
    destination: &str,
    args: &HookArgs,
    decision: Option<Decision>,
    draft: &mut Draft,
)
    ensures
        final(draft)@ == if args.verbose && !conflict_answered(
            *args,
            shape,
            old(draft)@.world,
            decision,
        ) {
            old(draft)@.say(shape.intent(source@, destination@))
        } else {
            old(draft)@
        },
{
    if args.verbose && !conflict_is_answered(shape, args, decision, &draft.world) {
        let opening = match shape {
            EntryShape::FileShape => String::from_str("Trying to create symlink file: "),
            EntryShape::DirectoryShape => String::from_str("Trying to create symlink directory: "),
        };
        draft.say(opening.concat(destination).concat(" -> ").concat(source));
    }
}

/// Deals with a link that stands at the destination, if one does.
fn clear_destination(
    source: &str,
    destination: &str,
    args: &HookArgs,
    decision: Option<Decision>,
    draft: &mut Draft,
) -> (end: Result<(), Stop>)
    ensures
        final(draft)@ == old(draft)@.cleared(*args, source@, destination@, decision).draft,
        stop_view(end) == old(draft)@.cleared(*args, source@, destination@, decision).end,
{
    let recorded = match &draft.world.destination {
        Entry::Link { target, .. } => Some(target.clone()),
        _ => None,
    };
    match recorded {
        Some(target) => handle_symlink_different_target(
            source,
            destination,
            target.as_str(),
            args,
            decision,
            draft,
        ),
        None => Ok(()),
    }
}

/// Reconciles a pair of file shape: plans what brings `destination` to be
/// a link to a file at `source`.
pub fn create_symlink_file(
    source: &str,
    destination: &str,
    args: &HookArgs,
    decision: Option<Decision>,
    draft: &mut Draft,
) -> (end: Result<(), Stop>)
    ensures
        final(draft)@ == old(draft)@.reconciled(
            *args,
            source@,
            destination@,
            EntryShape::FileShape,
            decision,
        ).draft,
        stop_view(end) == old(draft)@.reconciled(
            *args,
            source@,
            destination@,
            EntryShape::FileShape,
            decision,
        ).end,
{
    match clear_destination(source, destination, args, decision, draft) {
        Ok(()) => {},
        Err(stop) => {
            return Err(stop);
        },
    }
    say_intent(EntryShape::FileShape, source, destination, args, decision, draft);
    let way = match (draft.world.destination.is_present(), draft.world.source.is_present()) {
        (false, true) => Resolution::LinkNow,
        (true, false) => Resolution::MoveThenLink,
        (true, true) => match settle_conflict(args, decision) {
            Ok(way) => way,
            Err(stop) => {
                return Err(stop);
            },
        },
        (false, false) => {
            return Err(Stop::Fail(HookError::PathsDontExist));
        },
    };
    carry_through(way, EntryShape::FileShape, source, destination, args, draft);
    create_symlink_file_op(source, destination, args, draft)
}

/// How many of the two paths resolve to something.
pub open spec fn presence(world: WorldView) -> nat {
    (if world.source.is_present() {
        1nat
    } else {
        0nat
    }) + (if world.destination.is_present() {
        1nat
    } else {
        0nat
    })
}

/// Reconciles a pair of directory shape: plans what brings `destination`
/// to be a link to a directory at `source`.
///
/// An empty directory that stands in the way is removed without a
/// question, and the pair is looked at again: once at most, since one path
/// is then free.
pub fn create_symlink_directory(
    source: &str,
    destination: &str,
    args: &HookArgs,
    decision: Option<Decision>,
    draft: &mut Draft,
) -> (end: Result<(), Stop>)
    ensures
        final(draft)@ == old(draft)@.reconciled(
            *args,
            source@,
            destination@,
            EntryShape::DirectoryShape,
            decision,
        ).draft,
        stop_view(end) == old(draft)@.reconciled(
            *args,
            source@,
            destination@,
            EntryShape::DirectoryShape,
            decision,
        ).end,
{
    match clear_destination(source, destination, args, decision, draft) {
        Ok(()) => {},
        Err(stop) => {
            return Err(stop);
        },
    }
    say_intent(EntryShape::DirectoryShape, source, destination, args, decision, draft);
    let ghost goal = draft@.settled(
        *args,
        source@,
        destination@,
        EntryShape::DirectoryShape,
        decision,
    );
    loop
        invariant
            draft@.settled(*args, source@, destination@, EntryShape::DirectoryShape, decision)
                == goal,
            goal == old(draft)@.reconciled(
                *args,
                source@,
                destination@,
                EntryShape::DirectoryShape,
                decision,
            ),
        decreases presence(draft.world@),
    {
        let at_destination = draft.world.destination.is_present();
        let at_source = draft.world.source.is_present();
        if at_destination && at_source {
            if is_dir_empty(&draft.world.destination) {
                remove_directory(Side::Destination, source, destination, args, draft);
            } else if is_dir_empty(&draft.world.source) {
                remove_directory(Side::Source, source, destination, args, draft);
            } else {
                match settle_conflict(args, decision) {
                    Ok(way) => {
                        carry_through(
                            way,
                            EntryShape::DirectoryShape,
                            source,
                            destination,
                            args,
                            draft,
                        );
                        return create_symlink_directory_op(source, destination, args, draft);
                    },
                    Err(stop) => {
                        return Err(stop);
                    },
                }
            }
        } else if at_destination {
            move_directory(Side::Destination, source, destination, args, draft);
            return create_symlink_directory_op(source, destination, args, draft);
        } else if at_source {
            return create_symlink_directory_op(source, destination, args, draft);
        } else {
            return Err(Stop::Fail(HookError::PathsDontExist));
        }
    }
}

/// How a reconciliation ends for the caller: with a question, or with a
/// complete plan and the result to report once the plan is carried out.
#[derive(Debug, PartialEq, Eq)]
pub enum Outcome {
    /// The user has to decide first. The steps, all of them lines, go
    /// before the question; nothing is to be done yet.
    Ask { steps: Vec<Step>, prompt: Prompt },
    /// The steps to carry out, in order, and what the run then reports.
    /// Where the system refuses an operation, `interrupt` says how the run
    /// ends instead.
    Complete { steps: Vec<Step>, result: Result<(), HookError> },
}

/// An `Outcome` with its steps and its error taken by their views.
pub enum OutcomeView {
    Ask { steps: Seq<StepView>, prompt: Prompt },
    Complete { steps: Seq<StepView>, result: Result<(), HookErrorView> },
}

impl View for Outcome {
    type V = OutcomeView;

    open spec fn view(&self) -> OutcomeView {
        match self {
            Outcome::Ask { steps, prompt } => OutcomeView::Ask {
                steps: steps_view(steps@),
                prompt: *prompt,
            },
            Outcome::Complete { steps, result } => OutcomeView::Complete {
                steps: steps_view(steps@),
                result: crate::error::result_view(*result),
            },
        }
    }
}

impl Course {
    /// The course as the caller sees it.
    pub open spec fn outcome(self) -> OutcomeView {
        match self.end {
            Ok(()) => OutcomeView::Complete { steps: self.draft.steps, result: Ok(()) },
            Err(StopView::Fail(error)) => OutcomeView::Complete {
                steps: self.draft.steps,
                result: Err(error),
            },
            Err(StopView::Ask(prompt)) => OutcomeView::Ask { steps: self.draft.steps, prompt },
        }
    }
}

/// What a file at the source says of a directory at the destination.
pub open spec fn file_meets_directory() -> Seq<char> {
    "The destination path must be a file if the source path is a file."@
}

/// What a directory at the source says of a file at the destination.
pub open spec fn directory_meets_file() -> Seq<char> {
    "The destination path must be a directory if the source path is a directory."@
}

/// The shape of the pair in `world`: that of whichever path resolves to
/// something. A pair of which neither path does has no shape, and a file
/// on one side never goes with a directory on the other.
pub open spec fn shape_of(world: WorldView) -> Result<EntryShape, HookErrorView> {
    match (world.source.kind(), world.destination.kind()) {
        (ExistenceKind::Missing, ExistenceKind::Missing) => Err(HookErrorView::PathsDontExist),
        (ExistenceKind::File, ExistenceKind::Directory) => Err(
            HookErrorView::ExecutionError(file_meets_directory()),
        ),
        (ExistenceKind::Directory, ExistenceKind::File) => Err(
            HookErrorView::ExecutionError(directory_meets_file()),
        ),
        (ExistenceKind::File, _) => Ok(EntryShape::FileShape),
        (_, ExistenceKind::File) => Ok(EntryShape::FileShape),
        _ => Ok(EntryShape::DirectoryShape),
    }
}

/// Where the reconciliation of the pair in `world` leaves the run: the
/// plan, the world it predicts, and how the run ends.
pub open spec fn course(
    args: HookArgs,
    source: Seq<char>,
    destination: Seq<char>,
    world: WorldView,
    decision: Option<Decision>,
) -> Course {
    match shape_of(world) {
        Ok(shape) => DraftView::start(world).reconciled(
            args,
            source,
            destination,
            shape,
            decision,
        ),
        Err(error) => Course { draft: DraftView::start(world), end: Err(StopView::Fail(error)) },
    }
}

/// The reconciliation of the pair in `world`, as the caller sees it.
pub open spec fn reconciliation(
    args: HookArgs,
    source: Seq<char>,
    destination: Seq<char>,
    world: WorldView,
    decision: Option<Decision>,
) -> OutcomeView {
    course(args, source, destination, world, decision).outcome()
}

/// Finds the shape of the pair in `world`, or why it has none.
pub fn classify(world: &World) -> (shape: Result<EntryShape, HookError>)
    ensures
        crate::error::result_view(shape) == shape_of(world@),
{
    match (world.source.kind(), world.destination.kind()) {
        (ExistenceKind::Missing, ExistenceKind::Missing) => Err(HookError::PathsDontExist),
        (ExistenceKind::File, ExistenceKind::Directory) => Err(
            HookError::ExecutionError(
                String::from_str(
                    "The destination path must be a file if the source path is a file.",
                ),
            ),
        ),
        (ExistenceKind::Directory, ExistenceKind::File) => Err(
            HookError::ExecutionError(
                String::from_str(
                    "The destination path must be a directory if the source path is a directory.",
                ),
            ),
        ),
        (ExistenceKind::File, _) => Ok(EntryShape::FileShape),
        (_, ExistenceKind::File) => Ok(EntryShape::FileShape),
        _ => Ok(EntryShape::DirectoryShape),
    }
}

/// Reconciles `source` and `destination`, of which `world` says what
/// stands at them, into one link at `destination` to the data at `source`.
///
/// `decision` is what the user has answered so far, if anything. Where the
/// engine needs an answer that `decision` does not give, it returns the
/// question with the lines that go before it; the caller prints them, asks,
/// and calls again with the answer. The plan that the second call returns
/// goes on from the question: it does not hold those lines again.
pub fn check_valid_paths_and_create_symlink(
    source: &str,
    destination: &str,
    args: &HookArgs,
    world: World,
    decision: Option<Decision>,
) -> (outcome: Outcome)
    ensures
        outcome@ == reconciliation(*args, source@, destination@, world@, decision),
{
    let shape = classify(&world);
    let mut draft = Draft::start(world);
    let end = match shape {
        Ok(EntryShape::FileShape) => create_symlink_file(
            source,
            destination,
            args,
            decision,
            &mut draft,
        ),
        Ok(EntryShape::DirectoryShape) => create_symlink_directory(
            source,
            destination,
            args,
            decision,
            &mut draft,
        ),
        Err(error) => Err(Stop::Fail(error)),
    };
    match end {
        Ok(()) => Outcome::Complete { steps: draft.steps, result: Ok(()) },
        Err(Stop::Fail(error)) => Outcome::Complete { steps: draft.steps, result: Err(error) },
        Err(Stop::Ask(prompt)) => Outcome::Ask { steps: draft.steps, prompt },
    }
}

/// How a run opens: with a question, with the pair to look at, or with a refusal.
#[derive(Debug, PartialEq, Eq)]
pub enum Opening {
    /// The user has to decide first; the steps, all of them lines, go
    /// before the question.
    Ask { steps: Vec<Step>, prompt: Prompt },
    /// The lines to print, and the destination to go on with: the caller
    /// observes what stands at the source and at this destination.
    Inspect { steps: Vec<Step>, destination: String },
    /// The lines to print, and why the run goes no further.
    Refuse { steps: Vec<Step>, error: HookError },
}

/// An `Opening` with its strings taken as sequences of characters.
pub enum OpeningView {
    Ask { steps: Seq<StepView>, prompt: Prompt },
    Inspect { steps: Seq<StepView>, destination: Seq<char> },
    Refuse { steps: Seq<StepView>, error: HookErrorView },
}

impl View for Opening {
    type V = OpeningView;

    open spec fn view(&self) -> OpeningView {
        match self {
            Opening::Ask { steps, prompt } => OpeningView::Ask {
                steps: steps_view(steps@),
                prompt: *prompt,
            },
            Opening::Inspect { steps, destination } => OpeningView::Inspect {
                steps: steps_view(steps@),
                destination: destination@,
            },
            Opening::Refuse { steps, error } => OpeningView::Refuse {
                steps: steps_view(steps@),
                error: error@,
            },
        }
    }
}

/// What a configuration that sets both `force` and `interactive` is told.
pub open spec fn contradiction() -> Seq<char> {
    "The arguments --force and --interactive cannot be used together."@
}

/// The destination that the source's name suggests: the destination as
/// entered, with its last component replaced by that of the source. A
/// source without a name suggests none.
pub open spec fn expected_destination_of(source: Seq<char>, destination: Seq<char>) -> Option<
    Seq<char>,
> {
    match paths::base_name(source) {
        Some(name) => Some(paths::renamed(destination, name)),
        None => None,
    }
}

/// The destination to go on with, where the two paths end in different
/// names and `expected` is the destination that the source's name suggests.
///
/// Under `force` the destination stands as entered. Otherwise, without
/// `interactive`, the run fails; so it does where no destination can be
/// suggested. Under `interactive` the user chooses: the destination as
/// entered, the suggested one, to cancel, or, as long as none of these is
/// said, to be asked.
pub open spec fn names_settled(
    args: HookArgs,
    destination: Seq<char>,
    expected: Option<Seq<char>>,
    decision: Option<Decision>,
) -> Result<Seq<char>, StopView> {
    if args.force {
        Ok(destination)
    } else if !args.interactive {
        Err(StopView::Fail(HookErrorView::DifferentNames))
    } else {
        match expected {
            None => Err(StopView::Fail(HookErrorView::DifferentNames)),
            Some(expected) => match decision {
                Some(Decision::Entered) => Ok(destination),
                Some(Decision::Expected) => Ok(expected),
                Some(Decision::Cancel) => Err(StopView::Fail(HookErrorView::CancelledByUser)),
                _ => Err(StopView::Ask(Prompt::WhichDestination)),
            },
        }
    }
}

/// The destination to go on with: as entered where the two paths end in
/// the same name, and as `names_settled` has it where they do not.
pub open spec fn destination_settled(
    args: HookArgs,
    source: Seq<char>,
    destination: Seq<char>,
    decision: Option<Decision>,
) -> Result<Seq<char>, StopView> {
    if paths::base_name(source) == paths::base_name(destination) {
        Ok(destination)
    } else {
        names_settled(
            args,
            destination,
            expected_destination_of(source, destination),
            decision,
        )
    }
}

/// The lines that open a run for who asked for more: the two paths, and
/// under `relative` the path from the one to the other.
pub open spec fn opening_notes(args: HookArgs, source: Seq<char>, destination: Seq<char>) -> Seq<
    StepView,
> {
    if !args.verbose {
        Seq::<StepView>::empty()
    } else if !args.relative {
        seq![StepView::Say("Source: "@ + source), StepView::Say("Destination: "@ + destination)]
    } else {
        seq![
            StepView::Say("Source: "@ + source),
            StepView::Say("Destination: "@ + destination),
            StepView::Say(
                "Relative destination: "@ + (match paths::relative_path(source, destination) {
                    Some(relative) => relative,
                    None => "N/A"@,
                }),
            ),
        ]
    }
}

/// The user has settled which destination was meant. The question was put
/// by an earlier call, which also planned the opening lines, so that the
/// call that brings the answer does not plan them again.
pub open spec fn names_answered(
    args: HookArgs,
    source: Seq<char>,
    destination: Seq<char>,
    decision: Option<Decision>,
) -> bool {
    &&& paths::base_name(source) != paths::base_name(destination)
    &&& !args.force
    &&& args.interactive
    &&& expected_destination_of(source, destination) is Some
    &&& decision matches Some(answer)
    &&& Prompt::WhichDestination.offers(answer)
}

/// The lines that a call plans at its opening: those of `opening_notes`,
/// or none where they went before the question that is now answered.
pub open spec fn opening_steps(
    args: HookArgs,
    source: Seq<char>,
    destination: Seq<char>,
    decision: Option<Decision>,
) -> Seq<StepView> {
    if names_answered(args, source, destination, decision) {
        Seq::<StepView>::empty()
    } else {
        opening_notes(args, source, destination)
    }
}

/// How a run opens on the pair `source`, `destination`.
///
/// A configuration that contradicts itself is refused before anything
/// else. A pair whose names agree, or whose disagreement is settled, is to
/// be looked at. A disagreement that is not settled is asked about, or
/// refused.
pub open spec fn opened(
    args: HookArgs,
    source: Seq<char>,
    destination: Seq<char>,
    decision: Option<Decision>,
) -> OpeningView {
    if args.contradictory() {
        OpeningView::Refuse {
            steps: Seq::empty(),
            error: HookErrorView::ExecutionError(contradiction()),
        }
    } else {
        match destination_settled(args, source, destination, decision) {
            Ok(chosen) => OpeningView::Inspect {
                steps: opening_steps(args, source, destination, decision),
                destination: chosen,
            },
            Err(StopView::Ask(prompt)) => OpeningView::Ask {
                steps: opening_steps(args, source, destination, decision),
                prompt,
            },
            Err(StopView::Fail(error)) => OpeningView::Refuse {
                steps: opening_steps(args, source, destination, decision),
                error,
            },
        }
    }
}

/// The destination that the source's name suggests.
pub fn expected_destination(source: &str, destination: &str) -> (expected: Option<String>)
    ensures
        paths::text(expected) == expected_destination_of(source@, destination@),
{
    match paths::file_name(source) {
        Some(name) => Some(paths::with_file_name(destination, name.as_str())),
        None => None,
    }
}

/// Tells whether two names, each the last component of a path, differ.
pub fn names_differ(first: &Option<String>, second: &Option<String>) -> (differ: bool)
    ensures
        differ == (paths::text(*first) != paths::text(*second)),
{
    match (first, second) {
        (Some(a), Some(b)) => {
            let same = *a == *b;
            !same
        },
        (None, None) => false,
        _ => true,
    }
}

/// Settles the destination of a pair whose paths end in different names,
/// `expected` being the destination that the source's name suggests.
pub fn settle_names(
    destination: &str,
    expected: Option<String>,
    args: &HookArgs,
    decision: Option<Decision>,
) -> (chosen: Result<String, Stop>)
    ensures
        chosen_view(chosen) == names_settled(
            *args,
            destination@,
            paths::text(expected),
            decision,
        ),
{
    if args.force {
        return Ok(String::from_str(destination));
    }
    if !args.interactive {
        return Err(Stop::Fail(HookError::DifferentNames));
    }
    match expected {
        None => Err(Stop::Fail(HookError::DifferentNames)),
        Some(expected) => match decision {
            Some(Decision::Entered) => Ok(String::from_str(destination)),
            Some(Decision::Expected) => Ok(expected),
            Some(Decision::Cancel) => Err(Stop::Fail(HookError::CancelledByUser)),
            _ => Err(Stop::Ask(Prompt::WhichDestination)),
        },
    }
}

/// A chosen path, or the stop that came instead, both taken by their views.
pub open spec fn chosen_view(chosen: Result<String, Stop>) -> Result<Seq<char>, StopView> {
    match chosen {
        Ok(path) => Ok(path@),
        Err(stop) => Err(stop@),
    }
}

/// Settles the destination of a pair whose paths end in different names.
pub fn handle_different_base_names(
    source: &str,
    destination: &str,
    args: &HookArgs,
    decision: Option<Decision>,
) -> (chosen: Result<String, Stop>)
    ensures
        chosen_view(chosen) == names_settled(
            *args,
            destination@,
            expected_destination_of(source@, destination@),
            decision,
        ),
{
    let expected = expected_destination(source, destination);
    settle_names(destination, expected, args, decision)
}

/// Collects the lines that open a run for who asked for more, unless
/// `answered` says that they went before a question already.
fn say_opening(source: &str, destination: &str, args: &HookArgs, answered: bool) -> (steps: Vec<
    Step,
>)
    ensures
        steps_view(steps@) == if answered {
            Seq::<StepView>::empty()
        } else {
            opening_notes(*args, source@, destination@)
        },
{
    let mut steps: Vec<Step> = Vec::new();
    if answered {
        assert(steps_view(steps@) =~= Seq::<StepView>::empty());
        return steps;
    }
    if args.verbose {
        steps.push(Step::Say(String::from_str("Source: ").concat(source)));
        steps.push(Step::Say(String::from_str("Destination: ").concat(destination)));
        if args.relative {
            let shown = match paths::diff_paths(source, destination) {
                Some(relative) => relative,
                None => String::from_str("N/A"),
            };
            steps.push(
                Step::Say(String::from_str("Relative destination: ").concat(shown.as_str())),
            );
        }
    }
    assert(steps_view(steps@) =~= opening_notes(*args, source@, destination@));
    steps
}

/// Opens a run on the resolved paths `source` and `destination`.
///
/// `decision` is what the user has answered so far, if anything. Where the
/// names of the two paths disagree and only the user can settle it, the
/// question is returned with the lines that go before it; the caller
/// prints them, asks, and calls again with the answer. The second call
/// does not return those lines again.
pub fn run(args: &HookArgs, source: &str, destination: &str, decision: Option<Decision>) -> (opening:
    Opening)
    ensures
        opening@ == opened(*args, source@, destination@, decision),
        args.contradictory() ==> opening@ is Refuse,
{
    if args.is_contradictory() {
        let steps: Vec<Step> = Vec::new();
        assert(steps_view(steps@) =~= Seq::empty());
        return Opening::Refuse {
            steps,
            error: HookError::ExecutionError(
                String::from_str("The arguments --force and --interactive cannot be used together."),
            ),
        };
    }
    let source_name = paths::file_name(source);
    let destination_name = paths::file_name(destination);
    let differ = names_differ(&source_name, &destination_name);
    let chosen = if differ {
        handle_different_base_names(source, destination, args, decision)
    } else {
        Ok(String::from_str(destination))
    };
    let offered = match decision {
        Some(Decision::Entered) => true,
        Some(Decision::Expected) => true,
        Some(Decision::Cancel) => true,
        _ => false,
    };
    let unsettled = match &chosen {
        Err(Stop::Fail(HookError::DifferentNames)) => true,
        _ => false,
    };
    let answered = differ && !args.force && args.interactive && offered && !unsettled;
    let steps = say_opening(source, destination, args, answered);
    match chosen {
        Ok(destination_chosen) => Opening::Inspect { steps, destination: destination_chosen },
        Err(Stop::Ask(prompt)) => Opening::Ask { steps, prompt },
        Err(Stop::Fail(error)) => Opening::Refuse { steps, error },
    }
}

/// How a plan ends that a failing operation cut short: what the run
/// reports, and the steps that had been carried out by then.
#[derive(Debug, PartialEq, Eq)]
pub struct Interruption {
    pub error: HookError,
    pub performed: Vec<Step>,
}

/// An `Interruption` with its error and its steps taken by their views.
pub struct InterruptionView {
    pub error: HookErrorView,
    pub performed: Seq<StepView>,
}

impl View for Interruption {
    type V = InterruptionView;

    open spec fn view(&self) -> InterruptionView {
        InterruptionView { error: self.error@, performed: steps_view(self.performed@) }
    }
}

/// What becomes of a plan when the system refuses its step number
/// `failed`, saying `reported`.
///
/// The run stops there. It reports the failure of that operation, whatever
/// the plan would have reported at its end; the steps before it stay
/// carried out, and none after it is. Only an operation can be refused: a
/// number that names a line, or no step at all, interrupts nothing.
pub open spec fn interrupted(steps: Seq<StepView>, failed: int, reported: Seq<char>) -> Option<
    InterruptionView,
> {
    if 0 <= failed < steps.len() && steps[failed] is Do {
        Some(
            InterruptionView {
                error: steps[failed]->Do_0.failure(reported),
                performed: steps.take(failed),
            },
        )
    } else {
        None
    }
}

/// Cuts a plan short at the operation that the system refused.
pub fn interrupt(steps: &Vec<Step>, failed: usize, reported: &str) -> (cut: Option<
    Interruption,
>)
    ensures
        match interrupted(steps_view(steps@), failed as int, reported@) {
            Some(expected) => cut matches Some(found) && found@ == expected,
            None => cut is None,
        },
{
    if failed >= steps.len() {
        return None;
    }
    match &steps[failed] {
        Step::Say(_) => None,
        Step::Do(operation) => {
            let error = operation.failure(reported);
            let mut performed: Vec<Step> = Vec::new();
            let mut i: usize = 0;
            while i < failed
                invariant
                    i <= failed < steps.len(),
                    steps_view(performed@) == steps_view(steps@).take(i as int),
                decreases failed - i,
            {
                let ghost before = performed@;
                let copy = steps[i].duplicate();
                performed.push(copy);
                assert(steps_view(performed@) =~= steps_view(before).push(copy@));
                assert(steps_view(steps@).take(i + 1) =~= steps_view(steps@).take(i as int).push(
                    steps@[i as int]@,
                ));
                i = i + 1;
            }
            Some(Interruption { error, performed })
        },
    }
}

} // verus!
