use feature_runner::command::CargoCommand;
use feature_runner::runner::TestRunner;
use std::path::PathBuf;

fn strings(items: &[&str]) -> Vec<String> {
    items.iter().map(|s| s.to_string()).collect()
}

fn build(features: &[&str], primary: &[&str], secondary: &[&str]) -> TestRunner {
    TestRunner::new(
        CargoCommand::Clippy,
        String::from("demo"),
        strings(features),
        &strings(primary),
        &strings(secondary),
        PathBuf::from("/work/demo"),
    )
}

#[test]
fn empty_feature_set_emits_no_feature_flag() {
    let runner = build(&[], &[], &[]);
    assert_eq!(runner.args(), &strings(&["clippy", "--no-default-features"]));
    assert_eq!(runner.features(), "");
}

#[test]
fn single_feature_is_passed_without_commas() {
    let runner = build(&["serde"], &[], &[]);
    assert_eq!(
        runner.args(),
        &strings(&["clippy", "--no-default-features", "--features", "serde"])
    );
    assert_eq!(runner.features(), "serde");
}

#[test]
fn features_are_joined_by_commas() {
    let runner = build(&["a", "b", "c"], &[], &[]);
    assert_eq!(
        runner.args(),
        &strings(&["clippy", "--no-default-features", "--features", "a,b,c"])
    );
    assert_eq!(runner.features(), "a,b,c");
}

#[test]
fn one_empty_feature_name_still_emits_the_flag() {
    let runner = build(&[""], &[], &[]);
    assert_eq!(
        runner.args(),
        &strings(&["clippy", "--no-default-features", "--features", ""])
    );
}

#[test]
fn no_default_features_is_always_second() {
    for features in [&[][..], &["x"][..], &["x", "y"][..]] {
        for primary in [&[][..], &["--release"][..], &["a", "--", "b"][..]] {
            for secondary in [&[][..], &["-D", "warnings"][..]] {
                let runner = build(features, primary, secondary);
                assert_eq!(runner.args()[0], "clippy");
                assert_eq!(runner.args()[1], "--no-default-features");
            }
        }
    }
}

#[test]
fn embedded_separator_splits_primary_args() {
    let runner = build(&[], &["a", "b", "--", "x", "y"], &[]);
    assert_eq!(
        runner.args(),
        &strings(&["clippy", "--no-default-features", "a", "b", "--", "x", "y"])
    );
}

#[test]
fn secondary_args_follow_one_separator() {
    let runner = build(&[], &["a", "b"], &["x", "y"]);
    assert_eq!(
        runner.args(),
        &strings(&["clippy", "--no-default-features", "a", "b", "--", "x", "y"])
    );
}

#[test]
fn segments_behind_a_second_separator_are_dropped() {
    let runner = build(&[], &["a", "--", "b", "--", "c"], &[]);
    assert_eq!(
        runner.args(),
        &strings(&["clippy", "--no-default-features", "a", "--", "b"])
    );
}

#[test]
fn secondary_args_keep_primary_separators_verbatim() {
    let runner = build(&[], &["a", "--", "b"], &["x"]);
    assert_eq!(
        runner.args(),
        &strings(&["clippy", "--no-default-features", "a", "--", "b", "--", "x"])
    );
}

#[test]
fn trailing_separator_opens_an_empty_linter_batch() {
    let runner = build(&[], &["a", "--"], &[]);
    assert_eq!(
        runner.args(),
        &strings(&["clippy", "--no-default-features", "a", "--"])
    );
}

#[test]
fn leading_separator_leaves_no_direct_args() {
    let runner = build(&["f"], &["--", "x"], &[]);
    assert_eq!(
        runner.args(),
        &strings(&["clippy", "--no-default-features", "--features", "f", "--", "x"])
    );
}

#[test]
fn primary_without_separator_adds_no_linter_batch() {
    let runner = build(&["f", "g"], &["--release", "-v"], &[]);
    assert_eq!(
        runner.args(),
        &strings(&["clippy", "--no-default-features", "--features", "f,g", "--release", "-v"])
    );
}

#[test]
fn tokens_that_only_resemble_the_separator_are_passed_on() {
    let runner = build(&[], &["-", "---", "--x", " --"], &[]);
    assert_eq!(
        runner.args(),
        &strings(&["clippy", "--no-default-features", "-", "---", "--x", " --"])
    );
}

#[test]
fn subcommand_comes_first_for_every_kind() {
    let kinds = [
        (CargoCommand::Build, "build"),
        (CargoCommand::Check, "check"),
        (CargoCommand::Clippy, "clippy"),
        (CargoCommand::Test, "test"),
    ];
    for (kind, word) in kinds {
        let runner = TestRunner::new(
            kind,
            String::from("demo"),
            Vec::new(),
            &[],
            &[],
            PathBuf::from("."),
        );
        assert_eq!(runner.args(), &strings(&[word, "--no-default-features"]));
        assert_eq!(runner.cargo_command(), kind);
    }
}

#[test]
fn runner_keeps_name_and_working_dir() {
    let runner = build(&["a"], &[], &[]);
    assert_eq!(runner.crate_name(), "demo");
    assert_eq!(runner.working_dir(), &PathBuf::from("/work/demo"));
}

#[test]
fn status_line_names_crate_and_features() {
    let runner = build(&["a", "b"], &["--", "x"], &[]);
    assert_eq!(runner.status_line(), "crate=demo features=[a,b]");
    assert_eq!(runner.status_label(), "   Clippy   ");
}

#[test]
fn status_line_with_no_features() {
    let runner = build(&[], &[], &[]);
    assert_eq!(runner.status_line(), "crate=demo features=[]");
}
