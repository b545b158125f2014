//! The build-tool actions that can be requested.

use vstd::prelude::*;

verus! {

/// The action asked of the build tool.
#[derive(Copy, Clone, Debug, PartialEq, Eq, Structural)]
pub enum CargoCommand {
    Build,
    Check,
    Clippy,
    Test,
}

impl CargoCommand {
    /// The subcommand word handed to the build tool.
    pub open spec fn name(self) -> Seq<char> {
        match self {
            CargoCommand::Build => "build"@,
            CargoCommand::Check => "check"@,
            CargoCommand::Clippy => "clippy"@,
            CargoCommand::Test => "test"@,
        }
    }

    /// The alias under which the invoking tool offers this action.
    pub open spec fn cli_name(self) -> Seq<char> {
        match self {
            CargoCommand::Build => "build-all-features"@,
            CargoCommand::Check => "check-all-features"@,
            CargoCommand::Clippy => "clippy-all-features"@,
            CargoCommand::Test => "test-all-features"@,
        }
    }

    /// The banner printed before the action runs, padding included.
    pub open spec fn label(self) -> Seq<char> {
        match self {
            CargoCommand::Build => "    Building "@,
            CargoCommand::Check => "    Checking "@,
            CargoCommand::Clippy => "   Clippy   "@,
            CargoCommand::Test => "     Testing  "@,
        }
    }

    pub fn get_name(self) -> (name: &'static str)
        ensures
            name@ == self.name(),
    {
        match self {
            CargoCommand::Build => "build",
            CargoCommand::Check => "check",
            CargoCommand::Clippy => "clippy",
            CargoCommand::Test => "test",
        }
    }

    pub fn get_cli_name(self) -> (name: &'static str)
        ensures
            name@ == self.cli_name(),
    {
        match self {
            CargoCommand::Build => "build-all-features",
            CargoCommand::Check => "check-all-features",
            CargoCommand::Clippy => "clippy-all-features",
            CargoCommand::Test => "test-all-features",
        }
    }

    pub fn get_label(self) -> (label: &'static str)
        ensures
            label@ == self.label(),
    {
        match self {
            CargoCommand::Build => "    Building ",
            CargoCommand::Check => "    Checking ",
            CargoCommand::Clippy => "   Clippy   ",
            CargoCommand::Test => "     Testing  ",
        }
    }
}

} // verus!
