use hook::args::HookArgs;
use hook::error::HookError;
use hook::program::{
    expected_destination, handle_different_base_names, names_differ, run, settle_names, Opening, Stop,
};
use hook::prompt::{Decision, Prompt};
use hook::world::Step;

fn configured() -> HookArgs {
    HookArgs {
        source: String::from("/a/x.txt"),
        destination: String::from("/b/y.txt"),
        relative: false,
        interactive: false,
        force: false,
        quiet: false,
        verbose: false,
        dry_run: false,
    }
}

fn line(text: &str) -> Step {
    Step::Say(String::from(text))
}

#[test]
fn same_names_go_on_to_inspection() {
    let opening = run(&configured(), "/a/x.txt", "/b/x.txt", None);
    assert_eq!(
        opening,
        Opening::Inspect { steps: vec![], destination: String::from("/b/x.txt") }
    );
}

#[test]
fn different_names_are_refused_without_authority() {
    let opening = run(&configured(), "/a/x.txt", "/b/y.txt", None);
    assert_eq!(opening, Opening::Refuse { steps: vec![], error: HookError::DifferentNames });
}

#[test]
fn force_goes_on_with_the_destination_as_entered() {
    let mut args = configured();
    args.force = true;
    let opening = run(&args, "/a/x.txt", "/b/y.txt", None);
    assert_eq!(
        opening,
        Opening::Inspect { steps: vec![], destination: String::from("/b/y.txt") }
    );
}

#[test]
fn interactive_asks_which_destination_was_meant() {
    let mut args = configured();
    args.interactive = true;
    assert_eq!(
        run(&args, "/a/x.txt", "/b/y.txt", None),
        Opening::Ask { steps: vec![], prompt: Prompt::WhichDestination }
    );
    assert_eq!(
        run(&args, "/a/x.txt", "/b/y.txt", Some(Decision::KeepSource)),
        Opening::Ask { steps: vec![], prompt: Prompt::WhichDestination }
    );
    assert_eq!(
        run(&args, "/a/x.txt", "/b/y.txt", Some(Decision::Entered)),
        Opening::Inspect { steps: vec![], destination: String::from("/b/y.txt") }
    );
    assert_eq!(
        run(&args, "/a/x.txt", "/b/y.txt", Some(Decision::Expected)),
        Opening::Inspect { steps: vec![], destination: String::from("/b/x.txt") }
    );
    assert_eq!(
        run(&args, "/a/x.txt", "/b/y.txt", Some(Decision::Cancel)),
        Opening::Refuse { steps: vec![], error: HookError::CancelledByUser }
    );
}

#[test]
fn force_with_interactive_is_refused_first() {
    let mut args = configured();
    args.force = true;
    args.interactive = true;
    args.verbose = true;
    assert!(args.is_contradictory());
    let opening = run(&args, "/a/x.txt", "/b/x.txt", None);
    assert_eq!(
        opening,
        Opening::Refuse {
            steps: vec![],
            error: HookError::ExecutionError(String::from(
                "The arguments --force and --interactive cannot be used together."
            )),
        }
    );
    args.interactive = false;
    assert!(!args.is_contradictory());
}

#[test]
fn verbose_opening_shows_the_paths() {
    let mut args = configured();
    args.verbose = true;
    assert_eq!(
        run(&args, "/a/x.txt", "/b/x.txt", None),
        Opening::Inspect {
            steps: vec![line("Source: /a/x.txt"), line("Destination: /b/x.txt")],
            destination: String::from("/b/x.txt"),
        }
    );
    args.relative = true;
    assert_eq!(
        run(&args, "/a/x.txt", "/b/y.txt", None),
        Opening::Refuse {
            steps: vec![
                line("Source: /a/x.txt"),
                line("Destination: /b/y.txt"),
                line("Relative destination: ../../a/x.txt"),
            ],
            error: HookError::DifferentNames,
        }
    );
    assert_eq!(
        run(&args, "a/x.txt", "/b/x.txt", None),
        Opening::Inspect {
            steps: vec![
                line("Source: a/x.txt"),
                line("Destination: /b/x.txt"),
                line("Relative destination: N/A"),
            ],
            destination: String::from("/b/x.txt"),
        }
    );
}

#[test]
fn expected_destination_takes_the_name_of_the_source() {
    assert_eq!(expected_destination("/a/x.txt", "/b/y.txt"), Some(String::from("/b/x.txt")));
    assert_eq!(expected_destination("/a/dir/", "/b/other"), Some(String::from("/b/dir")));
    assert_eq!(expected_destination("/", "/b/y.txt"), None);
    assert_eq!(expected_destination("/a/..", "/b/y.txt"), None);
}

#[test]
fn source_without_a_name_cannot_be_settled_by_asking() {
    let mut args = configured();
    args.interactive = true;
    assert_eq!(
        run(&args, "/", "/b/y.txt", Some(Decision::Expected)),
        Opening::Refuse { steps: vec![], error: HookError::DifferentNames }
    );
    assert_eq!(
        handle_different_base_names("/", "/b/y.txt", &args, None),
        Err(Stop::Fail(HookError::DifferentNames))
    );
}

#[test]
fn names_are_compared_as_they_stand() {
    let x = Some(String::from("x.txt"));
    let y = Some(String::from("y.txt"));
    assert!(names_differ(&x, &y));
    assert!(!names_differ(&x, &x.clone()));
    assert!(names_differ(&x, &None));
    assert!(names_differ(&None, &y));
    assert!(!names_differ(&None, &None));
}

#[test]
fn settling_names_follows_the_decision() {
    let mut args = configured();
    args.interactive = true;
    let expected = Some(String::from("/b/x.txt"));
    assert_eq!(
        settle_names("/b/y.txt", expected.clone(), &args, None),
        Err(Stop::Ask(Prompt::WhichDestination))
    );
    assert_eq!(
        settle_names("/b/y.txt", expected.clone(), &args, Some(Decision::Expected)),
        Ok(String::from("/b/x.txt"))
    );
    assert_eq!(
        settle_names("/b/y.txt", expected.clone(), &args, Some(Decision::Entered)),
        Ok(String::from("/b/y.txt"))
    );
    assert_eq!(
        settle_names("/b/y.txt", None, &args, Some(Decision::Entered)),
        Err(Stop::Fail(HookError::DifferentNames))
    );
    args.interactive = false;
    assert_eq!(
        settle_names("/b/y.txt", expected.clone(), &args, Some(Decision::Expected)),
        Err(Stop::Fail(HookError::DifferentNames))
    );
    args.force = true;
    assert_eq!(
        settle_names("/b/y.txt", expected, &args, Some(Decision::Expected)),
        Ok(String::from("/b/y.txt"))
    );
}

#[test]
fn answers_are_read_without_the_space_around_them() {
    assert_eq!(Prompt::WhichDestination.interpret(" d \n"), Some(Decision::Entered));
    assert_eq!(Prompt::WhichDestination.interpret("D"), Some(Decision::Entered));
    assert_eq!(Prompt::WhichDestination.interpret("e\n"), Some(Decision::Expected));
    assert_eq!(Prompt::WhichDestination.interpret("E"), Some(Decision::Expected));
    assert_eq!(Prompt::WhichDestination.interpret("n"), Some(Decision::Cancel));
    assert_eq!(Prompt::WhichDestination.interpret("s"), None);
    assert_eq!(Prompt::WhichDestination.interpret("y"), None);
    assert_eq!(Prompt::WhichDestination.interpret(""), None);
    assert_eq!(Prompt::WhichDestination.interpret("dd"), None);
    assert_eq!(Prompt::OverwriteLink.interpret("y\n"), Some(Decision::Overwrite));
    assert_eq!(Prompt::OverwriteLink.interpret("\tY"), Some(Decision::Overwrite));
    assert_eq!(Prompt::OverwriteLink.interpret("N\r\n"), Some(Decision::Cancel));
    assert_eq!(Prompt::OverwriteLink.interpret("d"), None);
    assert_eq!(Prompt::OverwriteLink.interpret("yes"), None);
    assert_eq!(Prompt::WhichToKeep.interpret("s"), Some(Decision::KeepSource));
    assert_eq!(Prompt::WhichToKeep.interpret("S\n"), Some(Decision::KeepSource));
    assert_eq!(Prompt::WhichToKeep.interpret("d"), Some(Decision::KeepDestination));
    assert_eq!(Prompt::WhichToKeep.interpret("D"), Some(Decision::KeepDestination));
    assert_eq!(Prompt::WhichToKeep.interpret(" n"), Some(Decision::Cancel));
    assert_eq!(Prompt::WhichToKeep.interpret("e"), None);
    assert_eq!(Prompt::WhichToKeep.interpret("\n"), None);
}

#[test]
fn trimmed_answers_are_read_letter_by_letter() {
    assert_eq!(Prompt::WhichToKeep.decide("s"), Some(Decision::KeepSource));
    assert_eq!(Prompt::WhichToKeep.decide(" s"), None);
    assert_eq!(Prompt::OverwriteLink.decide("y"), Some(Decision::Overwrite));
    assert_eq!(Prompt::OverwriteLink.decide("é"), None);
}

#[test]
fn backslashes_become_slashes() {
    assert_eq!(hook::paths::forward_slashes("C:\\a\\b"), "C:/a/b");
    assert_eq!(hook::paths::forward_slashes("a\\\\b"), "a/b");
    assert_eq!(hook::paths::forward_slashes("a\\\\\\b"), "a//b");
    assert_eq!(hook::paths::forward_slashes("/a/b"), "/a/b");
}

#[test]
fn opening_lines_go_before_the_question_and_not_after() {
    let mut args = configured();
    args.interactive = true;
    args.verbose = true;
    assert_eq!(
        run(&args, "/a/x.txt", "/b/y.txt", None),
        Opening::Ask {
            steps: vec![line("Source: /a/x.txt"), line("Destination: /b/y.txt")],
            prompt: Prompt::WhichDestination,
        }
    );
    assert_eq!(
        run(&args, "/a/x.txt", "/b/y.txt", Some(Decision::Expected)),
        Opening::Inspect { steps: vec![], destination: String::from("/b/x.txt") }
    );
    assert_eq!(
        run(&args, "/a/x.txt", "/b/y.txt", Some(Decision::Cancel)),
        Opening::Refuse { steps: vec![], error: HookError::CancelledByUser }
    );
    assert_eq!(
        run(&args, "/a/x.txt", "/b/x.txt", Some(Decision::Expected)),
        Opening::Inspect {
            steps: vec![line("Source: /a/x.txt"), line("Destination: /b/x.txt")],
            destination: String::from("/b/x.txt"),
        }
    );
    assert_eq!(
        run(&args, "/", "/b/y.txt", Some(Decision::Expected)),
        Opening::Refuse {
            steps: vec![line("Source: /"), line("Destination: /b/y.txt")],
            error: HookError::DifferentNames,
        }
    );
}
