//! One invocation of the build tool: its command line, and what is shown of it.

use crate::command::CargoCommand;
use crate::features::{feature_args, join_features, joined};
use crate::passthrough::{route_args, routed};
use std::path::PathBuf;
use vstd::prelude::*;
use vstd::string::StringExecFns;

verus! {

/// `std::path::PathBuf`, declared so that a working directory can be carried
/// through. Nothing is claimed of what a path holds.
#[verifier::external_type_specification]
#[verifier::external_body]
pub struct ExPathBuf(PathBuf);

/// The flag that every invocation carries, so that the feature set alone
/// decides what is enabled.
pub open spec fn no_default_features() -> Seq<char> {
    "--no-default-features"@
}

/// The arguments handed to the build tool, in order: the subcommand, the flag
/// that disables default features, the feature selection, then the
/// pass-through arguments.
pub open spec fn command_line(
    command: CargoCommand,
    features: Seq<Seq<char>>,
    primary: Seq<Seq<char>>,
    secondary: Seq<Seq<char>>,
) -> Seq<Seq<char>> {
    seq![command.name(), no_default_features()] + feature_args(features) + routed(
        primary,
        secondary,
    )
}

/// Every command line carries the flag that disables default features, right
/// behind the subcommand, whatever the feature set and the pass-through lists hold.
pub proof fn lemma_defaults_always_disabled(
    command: CargoCommand,
    features: Seq<Seq<char>>,
    primary: Seq<Seq<char>>,
    secondary: Seq<Seq<char>>,
)
    ensures
        command_line(command, features, primary, secondary).len() >= 2,
        command_line(command, features, primary, secondary)[0] == command.name(),
        command_line(command, features, primary, secondary)[1] == no_default_features(),
        command_line(command, features, primary, secondary).contains(no_default_features()),
{
    let line = command_line(command, features, primary, secondary);
    assert(line[1] == no_default_features());
}

/// The feature selection stands right behind the fixed part: the flag and
/// the joined names where the set is not empty, and nothing where it is, so
/// that the pass-through arguments follow at once.
pub proof fn lemma_feature_selection(
    command: CargoCommand,
    features: Seq<Seq<char>>,
    primary: Seq<Seq<char>>,
    secondary: Seq<Seq<char>>,
)
    ensures
        features.len() > 0 ==> command_line(command, features, primary, secondary) == seq![
            command.name(),
            no_default_features(),
            "--features"@,
            joined(features),
        ] + routed(primary, secondary),
        features.len() == 0 ==> command_line(command, features, primary, secondary) == seq![
            command.name(),
            no_default_features(),
        ] + routed(primary, secondary),
{
    let line = command_line(command, features, primary, secondary);
    let rest = routed(primary, secondary);
    if features.len() > 0 {
        assert(line =~= seq![
            command.name(),
            no_default_features(),
            "--features"@,
            joined(features),
        ] + rest);
    } else {
        assert(line =~= seq![command.name(), no_default_features()] + rest);
    }
}

/// The line shown behind the banner before a run.
pub open spec fn status_text(crate_name: Seq<char>, features: Seq<char>) -> Seq<char> {
    "crate="@ + crate_name + " features=["@ + features + "]"@
}

/// A fully assembled invocation of the build tool for one feature set.
pub struct TestRunner {
    args: Vec<String>,
    crate_name: String,
    /// A comma separated list of features
    features: String,
    working_dir: PathBuf,
    cargo_command: CargoCommand,
}

impl TestRunner {
    #[verifier::type_invariant]
    spec fn well_formed(&self) -> bool {
        &&& self.args.len() >= 2
        &&& self.args[0]@ == self.cargo_command.name()
        &&& self.args[1]@ == no_default_features()
        &&& self.features@.len() > 0 ==> {
            &&& self.args.len() >= 4
            &&& self.args[2]@ == "--features"@
            &&& self.args[3]@ == self.features@
        }
    }

    /// The arguments of the invocation, the program's name left out.
    pub closed spec fn spec_args(&self) -> Seq<Seq<char>> {
        self.args.deep_view()
    }

    pub closed spec fn spec_crate_name(&self) -> Seq<char> {
        self.crate_name@
    }

    /// The comma-joined feature list.
    pub closed spec fn spec_features(&self) -> Seq<char> {
        self.features@
    }

    pub closed spec fn spec_working_dir(&self) -> PathBuf {
        self.working_dir
    }

    pub closed spec fn spec_command(&self) -> CargoCommand {
        self.cargo_command
    }

    /// Assembles the invocation. Nothing is validated: names and arguments
    /// are passed on as they are.
    pub fn new(
        cargo_command: CargoCommand,
        crate_name: String,
        feature_set: Vec<String>,
        cargo_args: &[String],
        last: &[String],
        working_dir: PathBuf,
    ) -> (runner: Self)
        ensures
            runner.spec_args() == command_line(
                cargo_command,
                feature_set.deep_view(),
                cargo_args.deep_view(),
                last.deep_view(),
            ),
            runner.spec_features() == joined(feature_set.deep_view()),
            runner.spec_crate_name() == crate_name@,
            runner.spec_working_dir() == working_dir,
            runner.spec_command() == cargo_command,
    {
        let mut args: Vec<String> = Vec::new();
        args.push(String::from_str(cargo_command.get_name()));
        args.push(String::from_str("--no-default-features"));

        let features = join_features(&feature_set);
        if feature_set.len() > 0 {
            args.push(String::from_str("--features"));
            args.push(features.clone());
        }
        proof {
            assert(args.deep_view() == seq![cargo_command.name(), no_default_features()]
                + feature_args(feature_set.deep_view()));
            if feature_set.len() == 0 {
                assert(features@.len() == 0);
            }
        }
        let ghost fixed = args.deep_view();
        route_args(&mut args, cargo_args, last);
        proof {
            let all = args.deep_view();
            assert(all.len() == args.len() && all.len() >= fixed.len());
            assert(all[0] == fixed[0] && all[0] == args[0]@);
            assert(all[1] == fixed[1] && all[1] == args[1]@);
            if feature_set.len() > 0 {
                assert(all[2] == fixed[2] && all[2] == args[2]@);
                assert(all[3] == fixed[3] && all[3] == args[3]@);
            }
        }
        TestRunner { args, crate_name, features, working_dir, cargo_command }
    }

    /// The arguments to hand to the build tool. Whatever the feature set and
    /// the pass-through lists were, the subcommand comes first and the flag
    /// that disables default features second.
    pub fn args(&self) -> (args: &Vec<String>)
        ensures
            args.deep_view() == self.spec_args(),
            args.len() >= 2,
            args[0]@ == self.spec_command().name(),
            args[1]@ == no_default_features(),
    {
        proof {
            use_type_invariant(self);
        }
        &self.args
    }

    pub fn crate_name(&self) -> (name: &String)
        ensures
            name@ == self.spec_crate_name(),
    {
        &self.crate_name
    }

    /// The feature list as it was passed: the names joined by commas.
    pub fn features(&self) -> (list: &String)
        ensures
            list@ == self.spec_features(),
    {
        &self.features
    }

    pub fn working_dir(&self) -> (dir: &PathBuf)
        ensures
            *dir == self.spec_working_dir(),
    {
        &self.working_dir
    }

    pub fn cargo_command(&self) -> (command: CargoCommand)
        ensures
            command == self.spec_command(),
    {
        self.cargo_command
    }

    /// The banner shown before the run, to be set off in colour.
    pub fn status_label(&self) -> (label: &'static str)
        ensures
            label@ == self.spec_command().label(),
    {
        self.cargo_command.get_label()
    }

    /// The line shown behind the banner: the crate and the features passed.
    pub fn status_line(&self) -> (line: String)
        ensures
            line@ == status_text(self.spec_crate_name(), self.spec_features()),
    {
        let mut line = String::from_str("crate=");
        line.append(self.crate_name.as_str());
        line.append(" features=[");
        line.append(self.features.as_str());
        line.append("]");
        line
    }
}

} // verus!
