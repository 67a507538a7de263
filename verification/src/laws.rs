//! What holds of every reconciliation, proved from the engine's own definitions.

use vstd::prelude::*;

use crate::args::HookArgs;
use crate::error::HookErrorView;
use crate::paths;
use crate::program::{
    already_linked, announced, conflict_answered, course, link_target, opened, reconciliation,
    resolution, shape_of,
    DraftView, OpeningView, OutcomeView, StopView,
};
use crate::prompt::Decision;
use crate::world::{EntryShape, EntryView, OperationView, Side, StepView, WorldView};

verus! {

/// The steps that only print: none of them touches the disk.
pub open spec fn harmless(steps: Seq<StepView>) -> bool {
    forall|i: int| 0 <= i < steps.len() ==> steps[i] is Say
}

/// The lines among the steps, in their order.
pub open spec fn spoken(steps: Seq<StepView>) -> Seq<StepView>
    decreases steps.len(),
{
    if steps.len() == 0 {
        steps
    } else if steps.last() is Say {
        spoken(steps.drop_last()).push(steps.last())
    } else {
        spoken(steps.drop_last())
    }
}

/// The configuration `args` with `dry_run` set as given.
pub open spec fn with_dry_run(args: HookArgs, dry_run: bool) -> HookArgs {
    HookArgs { dry_run, ..args }
}

/// Steps that only print leave the world as it is.
pub proof fn lemma_harmless_steps_change_nothing(world: WorldView, steps: Seq<StepView>)
    requires
        harmless(steps),
    ensures
        world.run(steps) == world,
    decreases steps.len(),
{
    if steps.len() > 0 {
        lemma_harmless_steps_change_nothing(world, steps.drop_last());
    }
}

/// The lines of two runs of steps, one after the other, are the lines of
/// the first followed by the lines of the second.
pub proof fn lemma_spoken_concat(first: Seq<StepView>, second: Seq<StepView>)
    ensures
        spoken(first + second) == spoken(first) + spoken(second),
    decreases second.len(),
{
    if second.len() == 0 {
        assert(first + second =~= first);
        assert(spoken(first) + spoken(second) =~= spoken(first));
    } else {
        lemma_spoken_concat(first, second.drop_last());
        assert((first + second).drop_last() =~= first + second.drop_last());
        assert((first + second).last() == second.last());
        if second.last() is Say {
            assert(spoken(first) + spoken(second.drop_last()).push(second.last()) =~= (spoken(
                first,
            ) + spoken(second.drop_last())).push(second.last()));
        }
    }
}

/// A draft of a dry run beside the draft of the same run made in earnest:
/// both predict the same world, and the dry one holds the lines of the
/// other and nothing else.
pub open spec fn shadows(dry: DraftView, wet: DraftView) -> bool {
    &&& dry.world == wet.world
    &&& dry.steps == spoken(wet.steps)
    &&& harmless(dry.steps)
}

/// Planning one line keeps a dry draft the shadow of the other.
pub proof fn lemma_say_shadows(dry: DraftView, wet: DraftView, line: Seq<char>)
    requires
        shadows(dry, wet),
    ensures
        shadows(dry.say(line), wet.say(line)),
{
    assert(wet.say(line).steps.drop_last() =~= wet.steps);
}

/// Planning one operation keeps a dry draft the shadow of the other.
pub proof fn lemma_planned_shadows(
    dry: DraftView,
    wet: DraftView,
    args: HookArgs,
    source: Seq<char>,
    destination: Seq<char>,
    operation: OperationView,
)
    requires
        shadows(dry, wet),
    ensures
        shadows(
            dry.planned(with_dry_run(args, true), source, destination, operation),
            wet.planned(with_dry_run(args, false), source, destination, operation),
        ),
{
    let said = announced(with_dry_run(args, true), source, destination, operation);
    let done = announced(with_dry_run(args, false), source, destination, operation);
    lemma_spoken_concat(wet.steps, done);
    assert(done =~= said.push(StepView::Do(operation)));
    assert(done.drop_last() =~= said);
    assert(spoken(said) =~= said) by {
        if said.len() > 0 {
            assert(said.drop_last() =~= Seq::<StepView>::empty());
            assert(spoken(said.drop_last()).push(said.last()) =~= said);
        }
    }
}

/// One reconciliation of one shape, dry and in earnest, from drafts of
/// which the first is the shadow of the second: the two end alike, and the
/// dry draft is still the shadow of the other.
pub proof fn lemma_reconciled_shadows(
    dry: DraftView,
    wet: DraftView,
    args: HookArgs,
    source: Seq<char>,
    destination: Seq<char>,
    shape: EntryShape,
    decision: Option<Decision>,
)
    requires
        shadows(dry, wet),
    ensures
        dry.reconciled(with_dry_run(args, true), source, destination, shape, decision).end
            == wet.reconciled(with_dry_run(args, false), source, destination, shape, decision).end,
        shadows(
            dry.reconciled(with_dry_run(args, true), source, destination, shape, decision).draft,
            wet.reconciled(with_dry_run(args, false), source, destination, shape, decision).draft,
        ),
{
    let on = with_dry_run(args, true);
    let off = with_dry_run(args, false);
    let unlink = OperationView::RemoveFile { at: Side::Destination };
    lemma_planned_shadows(dry, wet, args, source, destination, unlink);
    let dry_cleared = dry.cleared(on, source, destination, decision);
    let wet_cleared = wet.cleared(off, source, destination, decision);
    assert(dry_cleared.end == wet_cleared.end);
    assert(shadows(dry_cleared.draft, wet_cleared.draft));
    if dry_cleared.end is Ok {
        let line = shape.intent(source, destination);
        lemma_say_shadows(dry_cleared.draft, wet_cleared.draft, line);
        let said = args.verbose && !conflict_answered(on, shape, dry_cleared.draft.world, decision);
        let dry_noted = if said {
            dry_cleared.draft.say(line)
        } else {
            dry_cleared.draft
        };
        let wet_noted = if said {
            wet_cleared.draft.say(line)
        } else {
            wet_cleared.draft
        };
        assert(shadows(dry_noted, wet_noted));
        lemma_settled_shadows(dry_noted, wet_noted, args, source, destination, shape, decision);
    }
}

/// The second part of a reconciliation, dry and in earnest, from drafts of
/// which the first is the shadow of the second.
pub proof fn lemma_settled_shadows(
    dry: DraftView,
    wet: DraftView,
    args: HookArgs,
    source: Seq<char>,
    destination: Seq<char>,
    shape: EntryShape,
    decision: Option<Decision>,
)
    requires
        shadows(dry, wet),
    ensures
        dry.settled(with_dry_run(args, true), source, destination, shape, decision).end
            == wet.settled(with_dry_run(args, false), source, destination, shape, decision).end,
        shadows(
            dry.settled(with_dry_run(args, true), source, destination, shape, decision).draft,
            wet.settled(with_dry_run(args, false), source, destination, shape, decision).draft,
        ),
{
    let on = with_dry_run(args, true);
    let off = with_dry_run(args, false);
    let chosen = resolution(on, shape, dry.world, decision);
    assert(chosen == resolution(off, shape, wet.world, decision));
    if let Ok(way) = chosen {
        let remove_source = shape.removal(Side::Source);
        let remove_destination = shape.removal(Side::Destination);
        let carry = shape.movement(Side::Destination);
        lemma_planned_shadows(dry, wet, args, source, destination, remove_destination);
        lemma_planned_shadows(dry, wet, args, source, destination, carry);
        lemma_planned_shadows(dry, wet, args, source, destination, remove_source);
        lemma_planned_shadows(
            dry.planned(on, source, destination, remove_source),
            wet.planned(off, source, destination, remove_source),
            args,
            source,
            destination,
            carry,
        );
        let dry_resolved = dry.resolved(on, source, destination, shape, way);
        let wet_resolved = wet.resolved(off, source, destination, shape, way);
        assert(shadows(dry_resolved, wet_resolved));
        assert(link_target(on, source, destination) == link_target(off, source, destination));
        if let Ok(target) = link_target(on, source, destination) {
            lemma_planned_shadows(
                dry_resolved,
                wet_resolved,
                args,
                source,
                destination,
                shape.symlink(target),
            );
        }
    }
}

/// A dry run changes nothing and says everything.
///
/// Take any configuration twice, once with `dry_run` and once without, and
/// reconcile the same pair in the same world with the same answer. Both
/// runs end alike and predict the same world. The dry run plans no
/// operation, so that carrying out its plan leaves the world as it was; and
/// its plan is, line for line, what the other run prints.
pub proof fn law_dry_run_changes_nothing(
    args: HookArgs,
    source: Seq<char>,
    destination: Seq<char>,
    world: WorldView,
    decision: Option<Decision>,
)
    ensures
        ({
            let dry = course(with_dry_run(args, true), source, destination, world, decision);
            let wet = course(with_dry_run(args, false), source, destination, world, decision);
            &&& dry.end == wet.end
            &&& dry.draft.world == wet.draft.world
            &&& harmless(dry.draft.steps)
            &&& world.run(dry.draft.steps) == world
            &&& dry.draft.steps == spoken(wet.draft.steps)
        }),
{
    let start = DraftView::start(world);
    assert(shadows(start, start));
    if let Ok(shape) = shape_of(world) {
        lemma_reconciled_shadows(start, start, args, source, destination, shape, decision);
    }
    let dry = course(with_dry_run(args, true), source, destination, world, decision);
    lemma_harmless_steps_change_nothing(world, dry.draft.steps);
}

/// The steps of `draft`, carried out from `origin`, lead to the world
/// that the draft predicts; those of a dry run lead nowhere.
pub open spec fn faithful(draft: DraftView, origin: WorldView, args: HookArgs) -> bool {
    origin.run(draft.steps) == if args.dry_run {
        origin
    } else {
        draft.world
    }
}

/// Planning one line keeps a draft faithful.
pub proof fn lemma_say_faithful(
    draft: DraftView,
    origin: WorldView,
    args: HookArgs,
    line: Seq<char>,
)
    requires
        faithful(draft, origin, args),
    ensures
        faithful(draft.say(line), origin, args),
{
    assert(draft.say(line).steps.drop_last() =~= draft.steps);
}

/// Planning one operation keeps a draft faithful.
pub proof fn lemma_planned_faithful(
    draft: DraftView,
    origin: WorldView,
    args: HookArgs,
    source: Seq<char>,
    destination: Seq<char>,
    operation: OperationView,
)
    requires
        faithful(draft, origin, args),
    ensures
        faithful(draft.planned(args, source, destination, operation), origin, args),
{
    let added = announced(args, source, destination, operation);
    crate::world::lemma_run_concat(origin, draft.steps, added);
    let reached = origin.run(draft.steps);
    assert(reached.run(added) == if args.dry_run {
        reached
    } else {
        reached.after(operation)
    }) by {
        reveal_with_fuel(WorldView::run, 3);
        if added.len() > 0 {
            let before = added.drop_last();
            assert(before.len() > 0 ==> before[0] is Say);
            assert(before.len() > 0 ==> before.drop_last().len() == 0);
        }
    }
}

/// A whole reconciliation keeps a draft faithful.
pub proof fn lemma_reconciled_faithful(
    draft: DraftView,
    origin: WorldView,
    args: HookArgs,
    source: Seq<char>,
    destination: Seq<char>,
    shape: EntryShape,
    decision: Option<Decision>,
)
    requires
        faithful(draft, origin, args),
    ensures
        faithful(
            draft.reconciled(args, source, destination, shape, decision).draft,
            origin,
            args,
        ),
{
    let unlink = OperationView::RemoveFile { at: Side::Destination };
    lemma_planned_faithful(draft, origin, args, source, destination, unlink);
    let cleared = draft.cleared(args, source, destination, decision);
    assert(faithful(cleared.draft, origin, args));
    if cleared.end is Ok {
        let line = shape.intent(source, destination);
        lemma_say_faithful(cleared.draft, origin, args, line);
        let noted = if args.verbose && !conflict_answered(
            args,
            shape,
            cleared.draft.world,
            decision,
        ) {
            cleared.draft.say(line)
        } else {
            cleared.draft
        };
        if let Ok(way) = resolution(args, shape, noted.world, decision) {
            let remove_source = shape.removal(Side::Source);
            let carry = shape.movement(Side::Destination);
            lemma_planned_faithful(
                noted,
                origin,
                args,
                source,
                destination,
                shape.removal(Side::Destination),
            );
            lemma_planned_faithful(noted, origin, args, source, destination, carry);
            lemma_planned_faithful(noted, origin, args, source, destination, remove_source);
            lemma_planned_faithful(
                noted.planned(args, source, destination, remove_source),
                origin,
                args,
                source,
                destination,
                carry,
            );
            let resolved = noted.resolved(args, source, destination, shape, way);
            if let Ok(target) = link_target(args, source, destination) {
                lemma_planned_faithful(
                    resolved,
                    origin,
                    args,
                    source,
                    destination,
                    shape.symlink(target),
                );
            }
        }
    }
}

/// The plan does what the engine predicts.
///
/// Carried out from the world that was observed, with every operation
/// succeeding, the steps of a reconciliation lead to the world that the
/// engine predicted; those of a dry run leave the world as it was.
pub proof fn law_plan_leads_to_prediction(
    args: HookArgs,
    source: Seq<char>,
    destination: Seq<char>,
    world: WorldView,
    decision: Option<Decision>,
)
    ensures
        faithful(course(args, source, destination, world, decision).draft, world, args),
{
    let start = DraftView::start(world);
    assert(faithful(start, world, args));
    if let Ok(shape) = shape_of(world) {
        lemma_reconciled_faithful(start, world, args, source, destination, shape, decision);
    }
}

/// Nothing is lost.
///
/// Where a reconciliation of an observed world succeeds, the world it
/// predicts has at the destination a link that records the target the
/// engine computed and resolves to what stands at the source; and at the
/// source stands, as it was, the data that one of the two paths held when
/// the world was observed. Where both held data that mattered, that is
/// where neither was an empty directory, one of them went only because the
/// configuration allowed it.
pub proof fn law_nothing_is_lost(
    args: HookArgs,
    source: Seq<char>,
    destination: Seq<char>,
    world: WorldView,
    decision: Option<Decision>,
)
    requires
        world.observed(),
        course(args, source, destination, world, decision).end is Ok,
    ensures
        ({
            let after = course(args, source, destination, world, decision).draft.world;
            &&& link_target(args, source, destination) is Ok
            &&& after.destination == (EntryView::Link {
                target: link_target(args, source, destination)->Ok_0,
                leads_to: after.source.kind(),
            })
            &&& after.source.holds_data()
            &&& after.source == world.source || after.source == world.destination
            &&& world.source.holds_data() && world.destination.holds_data()
                && !world.source.is_empty_directory() && !world.destination.is_empty_directory()
                ==> args.may_overwrite()
        }),
{
}

/// Only an empty directory goes unasked.
///
/// Let a reconciliation of an observed world succeed under a configuration
/// that allows no overwriting, both paths holding data. Then what did not
/// survive was a directory that had been listed and held nothing: a file, a
/// directory with entries, and a directory that could not be read are
/// never removed without `force` or an answer from the user.
pub proof fn law_only_empty_directories_go_unasked(
    args: HookArgs,
    source: Seq<char>,
    destination: Seq<char>,
    world: WorldView,
    decision: Option<Decision>,
)
    requires
        world.observed(),
        world.source.holds_data(),
        world.destination.holds_data(),
        !args.may_overwrite(),
        course(args, source, destination, world, decision).end is Ok,
    ensures
        ({
            let after = course(args, source, destination, world, decision).draft.world;
            &&& after.source == world.source ==> world.destination
                == (EntryView::Directory {
                origin: Some(Side::Destination),
                listing: crate::world::Listing::Empty,
            })
            &&& after.source == world.destination ==> world.source == (EntryView::Directory {
                origin: Some(Side::Source),
                listing: crate::world::Listing::Empty,
            })
            &&& after.source == world.source || after.source == world.destination
        }),
{
}

/// A second run finds nothing to do.
///
/// Let a run succeed and leave at the destination a link whose recorded
/// target names the source. Then any run on the world so left, observed
/// anew, with the same configuration and whatever answer, ends by
/// reporting that the link is in place, and plans nothing: not a line, not
/// an operation.
pub proof fn law_second_run_is_satisfied(
    args: HookArgs,
    source: Seq<char>,
    destination: Seq<char>,
    world: WorldView,
    decision: Option<Decision>,
    observed_again: WorldView,
    answer: Option<Decision>,
)
    requires
        world.observed(),
        course(args, source, destination, world, decision).end is Ok,
        paths::same(link_target(args, source, destination)->Ok_0, source),
        observed_again.destination == course(
            args,
            source,
            destination,
            world,
            decision,
        ).draft.world.destination,
        observed_again.source.kind() == course(
            args,
            source,
            destination,
            world,
            decision,
        ).draft.world.source.kind(),
    ensures
        reconciliation(args, source, destination, observed_again, answer)
            == (OutcomeView::Complete {
            steps: Seq::empty(),
            result: Err(HookErrorView::Skipping(already_linked(source, destination))),
        }),
{
    law_nothing_is_lost(args, source, destination, world, decision);
}

/// Without `relative` the link records the source itself, so that a
/// second run always finds it in place.
pub proof fn law_absolute_link_names_the_source(
    args: HookArgs,
    source: Seq<char>,
    destination: Seq<char>,
)
    requires
        !args.relative,
    ensures
        link_target(args, source, destination) == Ok::<Seq<char>, HookErrorView>(source),
        paths::same(link_target(args, source, destination)->Ok_0, source),
{
}

/// A configuration that sets both `force` and `interactive` is refused
/// before anything is looked at, asked or printed.
pub proof fn law_contradiction_is_refused(
    args: HookArgs,
    source: Seq<char>,
    destination: Seq<char>,
    decision: Option<Decision>,
)
    requires
        args.force && args.interactive,
    ensures
        opened(args, source, destination, decision) == (OpeningView::Refuse {
            steps: Seq::empty(),
            error: HookErrorView::ExecutionError(crate::program::contradiction()),
        }),
{
}

/// A run that the user cancels, or that nobody may settle, touches nothing.
pub proof fn law_refusal_touches_nothing(
    args: HookArgs,
    source: Seq<char>,
    destination: Seq<char>,
    world: WorldView,
    decision: Option<Decision>,
)
    requires
        ({
            let end = course(args, source, destination, world, decision).end;
            ||| end == Err::<(), StopView>(StopView::Fail(HookErrorView::CancelledByUser))
            ||| end == Err::<(), StopView>(StopView::Fail(HookErrorView::FilesAlreadyExists))
            ||| end is Err && end->Err_0 is Ask
        }),
    ensures
        harmless(course(args, source, destination, world, decision).draft.steps),
        course(args, source, destination, world, decision).draft.world == world,
        world.run(course(args, source, destination, world, decision).draft.steps) == world,
{
    let steps = course(args, source, destination, world, decision).draft.steps;
    if let Ok(shape) = shape_of(world) {
        let start = DraftView::start(world);
        let cleared = start.cleared(args, source, destination, decision);
        if cleared.end is Ok {
            assert(args.verbose ==> cleared.draft.say(shape.intent(source, destination)).steps
                =~= cleared.draft.steps.push(StepView::Say(shape.intent(source, destination))));
        }
    }
    lemma_harmless_steps_change_nothing(world, steps);
}

} // verus!
