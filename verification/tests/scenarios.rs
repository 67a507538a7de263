use hook::args::HookArgs;
use hook::error::HookError;
use hook::program::{check_valid_paths_and_create_symlink, Outcome};
use hook::prompt::{Decision, Prompt};
use hook::world::{Entry, ExistenceKind, Listing, Operation, Side, Step, World};

fn plain() -> HookArgs {
    HookArgs {
        source: String::from("/a/x.txt"),
        destination: String::from("/b/x.txt"),
        relative: false,
        interactive: false,
        force: false,
        quiet: false,
        verbose: false,
        dry_run: false,
    }
}

fn file(side: Side) -> Entry {
    Entry::found(ExistenceKind::File, Listing::Empty, side)
}

fn directory(side: Side, listing: Listing) -> Entry {
    Entry::found(ExistenceKind::Directory, listing, side)
}

fn say(line: &str) -> Step {
    Step::Say(String::from(line))
}

fn link_file(target: &str) -> Step {
    Step::Do(Operation::SymlinkFile { target: String::from(target) })
}

fn link_directory(target: &str) -> Step {
    Step::Do(Operation::SymlinkDirectory { target: String::from(target) })
}

fn complete(steps: Vec<Step>, result: Result<(), HookError>) -> Outcome {
    Outcome::Complete { steps, result }
}

fn after(world: &World, outcome: &Outcome) -> World {
    let mut reached = world.clone();
    match outcome {
        Outcome::Complete { steps, .. } => reached.carry_out(steps),
        Outcome::Ask { .. } => {}
    }
    reached
}

#[test]
fn source_file_alone_is_linked_to() {
    let world = World::new(file(Side::Source), Entry::Missing);
    let outcome =
        check_valid_paths_and_create_symlink("/a/x.txt", "/b/x.txt", &plain(), world.clone(), None);
    assert_eq!(
        outcome,
        complete(
            vec![say("Creating symlink: /b/x.txt -> /a/x.txt"), link_file("/a/x.txt")],
            Ok(())
        )
    );
    let reached = after(&world, &outcome);
    assert_eq!(reached.source, file(Side::Source));
    assert_eq!(
        reached.destination,
        Entry::link(String::from("/a/x.txt"), ExistenceKind::File)
    );
}

#[test]
fn destination_file_alone_moves_to_the_source() {
    let world = World::new(Entry::Missing, file(Side::Destination));
    let outcome =
        check_valid_paths_and_create_symlink("/a/x.txt", "/b/x.txt", &plain(), world.clone(), None);
    assert_eq!(
        outcome,
        complete(
            vec![
                say("Moving file: /b/x.txt to /a/x.txt"),
                Step::Do(Operation::MoveFile { from: Side::Destination }),
                say("Creating symlink: /b/x.txt -> /a/x.txt"),
                link_file("/a/x.txt"),
            ],
            Ok(())
        )
    );
    let reached = after(&world, &outcome);
    assert_eq!(reached.source, file(Side::Destination));
    assert_eq!(
        reached.destination,
        Entry::link(String::from("/a/x.txt"), ExistenceKind::File)
    );
}

#[test]
fn two_files_without_authority_fail_untouched() {
    let world = World::new(file(Side::Source), file(Side::Destination));
    let outcome =
        check_valid_paths_and_create_symlink("/a/x.txt", "/b/x.txt", &plain(), world.clone(), None);
    assert_eq!(outcome, complete(vec![], Err(HookError::FilesAlreadyExists)));
    assert_eq!(after(&world, &outcome), world);
}

#[test]
fn empty_destination_directory_gives_way() {
    let world = World::new(
        directory(Side::Source, Listing::Occupied),
        directory(Side::Destination, Listing::Empty),
    );
    let outcome = check_valid_paths_and_create_symlink("/a/d", "/b/d", &plain(), world.clone(), None);
    assert_eq!(
        outcome,
        complete(
            vec![
                say("Removing directory: /b/d"),
                Step::Do(Operation::RemoveDirectory { at: Side::Destination }),
                say("Creating symlink: /b/d -> /a/d"),
                link_directory("/a/d"),
            ],
            Ok(())
        )
    );
    let reached = after(&world, &outcome);
    assert_eq!(reached.source, directory(Side::Source, Listing::Occupied));
    assert_eq!(
        reached.destination,
        Entry::link(String::from("/a/d"), ExistenceKind::Directory)
    );
}

#[test]
fn link_already_in_place_is_reported() {
    let world = World::new(
        file(Side::Source),
        Entry::link(String::from("/a/x.txt"), ExistenceKind::File),
    );
    let outcome =
        check_valid_paths_and_create_symlink("/a/x.txt", "/b/x.txt", &plain(), world.clone(), None);
    assert_eq!(
        outcome,
        complete(
            vec![],
            Err(HookError::Skipping(String::from(
                "The destination path is already a symlink to the source path | Source: /a/x.txt | Destination: /b/x.txt"
            )))
        )
    );
    assert_eq!(after(&world, &outcome), world);
}

#[test]
fn second_run_finds_the_link_in_place() {
    let mut args = plain();
    args.force = true;
    let world = World::new(file(Side::Source), file(Side::Destination));
    let first =
        check_valid_paths_and_create_symlink("/a/x.txt", "/b/x.txt", &args, world.clone(), None);
    let reached = after(&world, &first);
    let observed_again = World::new(file(Side::Source), reached.destination.clone());
    let second =
        check_valid_paths_and_create_symlink("/a/x.txt", "/b/x.txt", &args, observed_again, None);
    match second {
        Outcome::Complete { steps, result: Err(HookError::Skipping(_)) } => assert!(steps.is_empty()),
        other => panic!("unexpected outcome {:?}", other),
    }
}

#[test]
fn force_keeps_what_the_destination_holds() {
    let mut args = plain();
    args.force = true;
    let world = World::new(file(Side::Source), file(Side::Destination));
    let outcome =
        check_valid_paths_and_create_symlink("/a/x.txt", "/b/x.txt", &args, world.clone(), None);
    assert_eq!(
        outcome,
        complete(
            vec![
                say("Removing file: /a/x.txt"),
                Step::Do(Operation::RemoveFile { at: Side::Source }),
                say("Moving file: /b/x.txt to /a/x.txt"),
                Step::Do(Operation::MoveFile { from: Side::Destination }),
                say("Creating symlink: /b/x.txt -> /a/x.txt"),
                link_file("/a/x.txt"),
            ],
            Ok(())
        )
    );
    let reached = after(&world, &outcome);
    assert_eq!(reached.source, file(Side::Destination));
}

#[test]
fn interactive_conflict_is_asked_then_settled() {
    let mut args = plain();
    args.interactive = true;
    let world = World::new(file(Side::Source), file(Side::Destination));
    let asked =
        check_valid_paths_and_create_symlink("/a/x.txt", "/b/x.txt", &args, world.clone(), None);
    assert_eq!(asked, Outcome::Ask { steps: vec![], prompt: Prompt::WhichToKeep });
    let kept_source = check_valid_paths_and_create_symlink(
        "/a/x.txt",
        "/b/x.txt",
        &args,
        world.clone(),
        Some(Decision::KeepSource),
    );
    assert_eq!(
        kept_source,
        complete(
            vec![
                say("Removing file: /b/x.txt"),
                Step::Do(Operation::RemoveFile { at: Side::Destination }),
                say("Creating symlink: /b/x.txt -> /a/x.txt"),
                link_file("/a/x.txt"),
            ],
            Ok(())
        )
    );
    assert_eq!(after(&world, &kept_source).source, file(Side::Source));
    let kept_destination = check_valid_paths_and_create_symlink(
        "/a/x.txt",
        "/b/x.txt",
        &args,
        world.clone(),
        Some(Decision::KeepDestination),
    );
    assert_eq!(after(&world, &kept_destination).source, file(Side::Destination));
    let cancelled = check_valid_paths_and_create_symlink(
        "/a/x.txt",
        "/b/x.txt",
        &args,
        world.clone(),
        Some(Decision::Cancel),
    );
    assert_eq!(cancelled, complete(vec![], Err(HookError::CancelledByUser)));
}

#[test]
fn dry_run_says_the_same_and_does_nothing() {
    let mut wet = plain();
    wet.force = true;
    let mut dry = wet.clone();
    dry.dry_run = true;
    let world = World::new(file(Side::Source), file(Side::Destination));
    let in_earnest =
        check_valid_paths_and_create_symlink("/a/x.txt", "/b/x.txt", &wet, world.clone(), None);
    let rehearsed =
        check_valid_paths_and_create_symlink("/a/x.txt", "/b/x.txt", &dry, world.clone(), None);
    assert_eq!(
        rehearsed,
        complete(
            vec![
                say("Removing file: /a/x.txt"),
                say("Moving file: /b/x.txt to /a/x.txt"),
                say("Creating symlink: /b/x.txt -> /a/x.txt"),
            ],
            Ok(())
        )
    );
    assert_eq!(after(&world, &rehearsed), world);
    let spoken: Vec<Step> = match in_earnest {
        Outcome::Complete { steps, .. } => {
            steps.into_iter().filter(|step| matches!(step, Step::Say(_))).collect()
        }
        Outcome::Ask { .. } => panic!("no question was due"),
    };
    match rehearsed {
        Outcome::Complete { steps, .. } => assert_eq!(steps, spoken),
        Outcome::Ask { .. } => panic!("no question was due"),
    }
}

#[test]
fn quiet_run_plans_only_operations() {
    let mut args = plain();
    args.quiet = true;
    let world = World::new(Entry::Missing, file(Side::Destination));
    let outcome = check_valid_paths_and_create_symlink("/a/x.txt", "/b/x.txt", &args, world, None);
    assert_eq!(
        outcome,
        complete(
            vec![Step::Do(Operation::MoveFile { from: Side::Destination }), link_file("/a/x.txt")],
            Ok(())
        )
    );
}

#[test]
fn verbose_run_says_what_it_tries() {
    let mut args = plain();
    args.verbose = true;
    let world = World::new(directory(Side::Source, Listing::Occupied), Entry::Missing);
    let outcome = check_valid_paths_and_create_symlink("/a/d", "/b/d", &args, world, None);
    assert_eq!(
        outcome,
        complete(
            vec![
                say("Trying to create symlink directory: /b/d -> /a/d"),
                say("Creating symlink: /b/d -> /a/d"),
                link_directory("/a/d"),
            ],
            Ok(())
        )
    );
}

#[test]
fn lines_before_a_question_are_said_once() {
    let mut args = plain();
    args.interactive = true;
    args.verbose = true;
    let world = World::new(file(Side::Source), file(Side::Destination));
    let asked =
        check_valid_paths_and_create_symlink("/a/x.txt", "/b/x.txt", &args, world.clone(), None);
    assert_eq!(
        asked,
        Outcome::Ask {
            steps: vec![say("Trying to create symlink file: /b/x.txt -> /a/x.txt")],
            prompt: Prompt::WhichToKeep,
        }
    );
    let answered = check_valid_paths_and_create_symlink(
        "/a/x.txt",
        "/b/x.txt",
        &args,
        world.clone(),
        Some(Decision::KeepSource),
    );
    assert_eq!(
        answered,
        complete(
            vec![
                say("Removing file: /b/x.txt"),
                Step::Do(Operation::RemoveFile { at: Side::Destination }),
                say("Creating symlink: /b/x.txt -> /a/x.txt"),
                link_file("/a/x.txt"),
            ],
            Ok(())
        )
    );
    let cancelled = check_valid_paths_and_create_symlink(
        "/a/x.txt",
        "/b/x.txt",
        &args,
        world,
        Some(Decision::Cancel),
    );
    assert_eq!(cancelled, complete(vec![], Err(HookError::CancelledByUser)));
    let other_link = World::new(
        file(Side::Source),
        Entry::link(String::from("/elsewhere"), ExistenceKind::File),
    );
    assert_eq!(
        check_valid_paths_and_create_symlink("/a/x.txt", "/b/x.txt", &args, other_link.clone(), None),
        Outcome::Ask { steps: vec![], prompt: Prompt::OverwriteLink }
    );
    assert_eq!(
        check_valid_paths_and_create_symlink(
            "/a/x.txt",
            "/b/x.txt",
            &args,
            other_link,
            Some(Decision::Overwrite)
        ),
        complete(
            vec![
                say("Removing file: /b/x.txt"),
                Step::Do(Operation::RemoveFile { at: Side::Destination }),
                say("Trying to create symlink file: /b/x.txt -> /a/x.txt"),
                say("Creating symlink: /b/x.txt -> /a/x.txt"),
                link_file("/a/x.txt"),
            ],
            Ok(())
        )
    );
}

#[test]
fn verbose_failure_still_says_what_was_tried() {
    let mut args = plain();
    args.verbose = true;
    let world = World::new(file(Side::Source), file(Side::Destination));
    assert_eq!(
        check_valid_paths_and_create_symlink(
            "/a/x.txt",
            "/b/x.txt",
            &args,
            world,
            Some(Decision::KeepSource)
        ),
        complete(
            vec![say("Trying to create symlink file: /b/x.txt -> /a/x.txt")],
            Err(HookError::FilesAlreadyExists)
        )
    );
}
