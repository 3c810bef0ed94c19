//! What the command line decides: which subcommand was asked for, whether it
//! touches the database, and which line reports its success.

use vstd::prelude::*;
use vstd::string::*;

pub mod db_commands;

verus! {

/// A subcommand of the program.
#[derive(Clone, Copy, Debug, PartialEq, Eq, Structural)]
pub enum CliCommand {
    /// Report the application's version.
    Version,
    /// Create the configured database unless it is there already.
    CreateDb,
}

/// What the program does for a subcommand: optionally run the database
/// pre-flight, then, once that has succeeded, print `line`; `report` says
/// which of the two it comes to.
#[derive(Debug)]
pub struct CliPlan {
    pub create_database: bool,
    pub line: String,
}

/// The subcommand that `name` spells, if any.
pub open spec fn command_named(name: Seq<char>) -> Option<CliCommand> {
    if name == "version"@ {
        Some(CliCommand::Version)
    } else if name == "create-db"@ {
        Some(CliCommand::CreateDb)
    } else {
        None
    }
}

/// The line that reports the version `version`.
pub open spec fn version_text(version: Seq<char>) -> Seq<char> {
    "gen_todo version "@ + version
}

/// The line that reports that the database pre-flight succeeded.
pub open spec fn database_created_text() -> Seq<char> {
    "Database created successfully"@
}

impl CliCommand {
    /// The spelling of the subcommand on the command line.
    pub open spec fn spelling(self) -> Seq<char> {
        match self {
            CliCommand::Version => "version"@,
            CliCommand::CreateDb => "create-db"@,
        }
    }

    /// The spelling of the subcommand on the command line.
    pub fn name(self) -> (name: &'static str)
        ensures
            name@ == self.spelling(),
    {
        match self {
            CliCommand::Version => "version",
            CliCommand::CreateDb => "create-db",
        }
    }

    /// Recognises a subcommand by its spelling; any other text is no
    /// subcommand.
    pub fn from_name(name: &str) -> (command: Option<CliCommand>)
        ensures
            command == command_named(name@),
    {
        let given = String::from_str(name);
        if given == String::from_str("version") {
            Some(CliCommand::Version)
        } else if given == String::from_str("create-db") {
            Some(CliCommand::CreateDb)
        } else {
            None
        }
    }

    /// Whether the subcommand runs the database pre-flight before it reports.
    pub open spec fn touches_database(self) -> bool {
        self == CliCommand::CreateDb
    }

    /// The line the subcommand prints on success, for the version `version`.
    pub open spec fn success_text(self, version: Seq<char>) -> Seq<char> {
        match self {
            CliCommand::Version => version_text(version),
            CliCommand::CreateDb => database_created_text(),
        }
    }

    /// The plan that carries the subcommand out.
    pub fn plan(self, version: &str) -> (plan: CliPlan)
        ensures
            plan.create_database == self.touches_database(),
            plan.line@ == self.success_text(version@),
    {
        match self {
            CliCommand::Version => {
                let mut line = String::from_str("gen_todo version ");
                line.append(version);
                CliPlan { create_database: false, line }
            },
            CliCommand::CreateDb => CliPlan {
                create_database: true,
                line: String::from_str("Database created successfully"),
            },
        }
    }
}

impl CliPlan {
    /// What carrying the plan out comes to, where `preflight` is how the
    /// database pre-flight went (`None` where it was not run): the plan's
    /// line to print, or, where the plan asked for the pre-flight and it
    /// failed, its error and no line.
    pub fn report<E>(self, preflight: Option<Result<(), E>>) -> (outcome: Result<String, E>)
        ensures
            match preflight {
                Some(Err(error)) if self.create_database => outcome == Err::<String, E>(error),
                _ => outcome == Ok::<String, E>(self.line),
            },
    {
        if self.create_database {
            match preflight {
                Some(Err(error)) => Err(error),
                _ => Ok(self.line),
            }
        } else {
            Ok(self.line)
        }
    }
}

/// The plan for the subcommand spelled `subcommand`, or `None` where the text
/// names no subcommand: the version report is just a line, and the database
/// command runs the pre-flight before its line.
pub fn run_cli(subcommand: &str, version: &str) -> (plan: Option<CliPlan>)
    ensures
        match command_named(subcommand@) {
            Some(command) => plan matches Some(p) && p.create_database
                == command.touches_database() && p.line@ == command.success_text(version@),
            None => plan is None,
        },
{
    match CliCommand::from_name(subcommand) {
        Some(command) => Some(command.plan(version)),
        None => None,
    }
}

/// Every subcommand is recognised by its own spelling, and by no other
/// subcommand's.
pub proof fn lemma_spelling_round_trip(command: CliCommand)
    ensures
        command_named(command.spelling()) == Some(command),
{
    reveal_strlit("version");
    reveal_strlit("create-db");
    assert("version"@.len() == 7);
    assert("create-db"@.len() == 9);
}

} // verus!
