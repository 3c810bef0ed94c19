//! The database pre-flight: connect to the server's maintenance database,
//! ask whether the configured database exists, and create it only if it does
//! not. The decisions live here; performing them is the caller's part.
//!
//! The creating statement carries the database's name as a quoted
//! identifier: between quotation marks, with every quotation mark inside the
//! name doubled. So the server reads the name exactly as it is written, case
//! and all, and whatever the name holds, the statement creates one database
//! and does nothing else. A name that no server can hold (an empty one, or
//! one with a NUL character) is for the server to refuse.

use vstd::prelude::*;
use vstd::string::*;
use crate::config::DatabaseConfig;
use crate::text::{decimal, push_decimal};

verus! {

/// The connection string for the server's maintenance database.
pub open spec fn admin_connection_text(database: DatabaseConfig) -> Seq<char> {
    "host="@ + database.host@ + " port="@ + decimal(database.port as nat) + " user="@
        + database.user@ + " password="@ + database.password@ + " dbname=postgres"@
}

/// `name` with every quotation mark in it doubled.
pub open spec fn doubled_quotes(name: Seq<char>) -> Seq<char>
    decreases name.len(),
{
    if name.len() == 0 {
        Seq::empty()
    } else if name.first() == '"' {
        seq!['"', '"'] + doubled_quotes(name.drop_first())
    } else {
        seq![name.first()] + doubled_quotes(name.drop_first())
    }
}

/// `name` as a quoted identifier: a quotation mark, the name with every
/// quotation mark in it doubled, and a quotation mark.
pub open spec fn quoted_identifier(name: Seq<char>) -> Seq<char> {
    seq!['"'] + doubled_quotes(name) + seq!['"']
}

/// Whether every quotation mark in `body` stands in a pair of two, read from
/// the left: then no quotation mark in `body` ends a quoted identifier.
pub open spec fn quotes_paired(body: Seq<char>) -> bool
    decreases body.len(),
{
    if body.len() == 0 {
        true
    } else if body.first() == '"' {
        body.len() >= 2 && body[1] == '"' && quotes_paired(body.skip(2))
    } else {
        quotes_paired(body.drop_first())
    }
}

/// What a server reads between the quotation marks of a quoted identifier:
/// `body` with every pair of quotation marks taken as one.
pub open spec fn undoubled_quotes(body: Seq<char>) -> Seq<char>
    decreases body.len(),
{
    if body.len() == 0 {
        Seq::empty()
    } else if body.first() == '"' && body.len() >= 2 {
        seq!['"'] + undoubled_quotes(body.skip(2))
    } else {
        seq![body.first()] + undoubled_quotes(body.drop_first())
    }
}

/// The statement that creates the database `name`.
pub open spec fn create_statement_text(name: Seq<char>) -> Seq<char> {
    "CREATE DATABASE "@ + quoted_identifier(name)
}

/// The query that asks whether a database exists; its one parameter is the
/// database's name.
pub open spec fn exists_query_text() -> Seq<char> {
    "SELECT EXISTS(SELECT 1 FROM pg_database WHERE datname = $1)"@
}

/// Builds the connection string for the server's maintenance database.
pub fn admin_connection_string(database: &DatabaseConfig) -> (text: String)
    ensures
        text@ == admin_connection_text(*database),
{
    let mut text = String::from_str("host=");
    text.append(database.host.as_str());
    text.append(" port=");
    push_decimal(&mut text, database.port);
    text.append(" user=");
    text.append(database.user.as_str());
    text.append(" password=");
    text.append(database.password.as_str());
    text.append(" dbname=postgres");
    text
}

/// The query that asks whether a database exists.
pub fn database_exists_query() -> (query: &'static str)
    ensures
        query@ == exists_query_text(),
{
    "SELECT EXISTS(SELECT 1 FROM pg_database WHERE datname = $1)"
}

/// Doubling the quotation marks of a text doubles those of its parts.
pub proof fn lemma_doubled_quotes_of_parts(front: Seq<char>, back: Seq<char>)
    ensures
        doubled_quotes(front + back) == doubled_quotes(front) + doubled_quotes(back),
    decreases front.len(),
{
    if front.len() == 0 {
        assert(front + back =~= back);
        assert(doubled_quotes(front) + doubled_quotes(back) =~= doubled_quotes(back));
    } else {
        assert((front + back).drop_first() =~= front.drop_first() + back);
        lemma_doubled_quotes_of_parts(front.drop_first(), back);
        if front.first() == '"' {
            assert(doubled_quotes(front + back) =~= doubled_quotes(front) + doubled_quotes(
                back,
            ));
        } else {
            assert(doubled_quotes(front + back) =~= doubled_quotes(front) + doubled_quotes(
                back,
            ));
        }
    }
}

/// A text without quotation marks stays as it is.
pub proof fn lemma_doubled_quotes_of_plain(text: Seq<char>)
    requires
        forall|i: int| 0 <= i < text.len() ==> text[i] != '"',
    ensures
        doubled_quotes(text) == text,
    decreases text.len(),
{
    if text.len() > 0 {
        assert forall|i: int| 0 <= i < text.drop_first().len() implies text.drop_first()[i]
            != '"' by {
            assert(text.drop_first()[i] == text[i + 1]);
        }
        lemma_doubled_quotes_of_plain(text.drop_first());
        assert(doubled_quotes(text) =~= text);
    }
}

/// Inside a quoted identifier every quotation mark stands in a pair, so none
/// of them ends the identifier; and what the server reads there is the name,
/// character for character.
pub proof fn lemma_quoted_name_is_read_back(name: Seq<char>)
    ensures
        quotes_paired(doubled_quotes(name)),
        undoubled_quotes(doubled_quotes(name)) == name,
    decreases name.len(),
{
    if name.len() > 0 {
        let rest = doubled_quotes(name.drop_first());
        lemma_quoted_name_is_read_back(name.drop_first());
        if name.first() == '"' {
            assert(doubled_quotes(name).skip(2) =~= rest);
        } else {
            assert(doubled_quotes(name).drop_first() =~= rest);
        }
        assert(seq![name.first()] + name.drop_first() =~= name);
    }
}

/// Builds `name` as a quoted identifier.
pub fn quote_identifier(name: &str) -> (quoted: String)
    ensures
        quoted@ == quoted_identifier(name@),
{
    proof {
        reveal_strlit("\"");
        reveal_strlit("\"\"");
    }
    let mut quoted = String::from_str("\"");
    let length = name.unicode_len();
    let mut start: usize = 0;
    let mut at: usize = 0;
    while at < length
        invariant
            start <= at <= length,
            length == name@.len(),
            "\""@ == seq!['"'],
            "\"\""@ == seq!['"', '"'],
            quoted@ == seq!['"'] + doubled_quotes(name@.subrange(0, start as int)),
            forall|i: int| start <= i < at ==> name@[i] != '"',
        decreases length - at,
    {
        if name.get_char(at) == '"' {
            quoted.append(name.substring_char(start, at));
            quoted.append("\"\"");
            proof {
                let done = name@.subrange(0, start as int);
                let plain = name@.subrange(start as int, at as int);
                let mark = name@.subrange(at as int, at + 1);
                lemma_doubled_quotes_of_plain(plain);
                assert(mark.first() == '"');
                assert(mark.drop_first() =~= Seq::<char>::empty());
                assert(doubled_quotes(mark.drop_first()) =~= Seq::<char>::empty());
                assert(doubled_quotes(mark) =~= seq!['"', '"']);
                lemma_doubled_quotes_of_parts(done, plain);
                lemma_doubled_quotes_of_parts(done + plain, mark);
                assert(done + plain + mark =~= name@.subrange(0, at + 1));
                assert(quoted@ =~= seq!['"'] + doubled_quotes(name@.subrange(0, at + 1)));
            }
            start = at + 1;
        }
        at += 1;
    }
    quoted.append(name.substring_char(start, length));
    quoted.append("\"");
    proof {
        let done = name@.subrange(0, start as int);
        let plain = name@.subrange(start as int, length as int);
        lemma_doubled_quotes_of_plain(plain);
        lemma_doubled_quotes_of_parts(done, plain);
        assert(done + plain =~= name@);
        assert(quoted@ =~= quoted_identifier(name@));
    }
    quoted
}

/// Builds the statement that creates the database `name`.
pub fn create_database_statement(name: &str) -> (statement: String)
    ensures
        statement@ == create_statement_text(name@),
{
    let mut statement = String::from_str("CREATE DATABASE ");
    let quoted = quote_identifier(name);
    statement.append(quoted.as_str());
    statement
}

/// Which step of the pre-flight failed.
#[derive(Clone, Copy, Debug, PartialEq, Eq, Structural)]
pub enum PreflightStage {
    Connect,
    Check,
    Create,
}

/// How a pre-flight ended.
#[derive(Clone, Copy, Debug, PartialEq, Eq, Structural)]
pub enum PreflightOutcome {
    /// The database was there already; nothing was changed.
    AlreadyPresent,
    /// The database was absent and has been created.
    Created,
    /// The named step failed; nothing after it was attempted.
    Failed(PreflightStage),
}

/// Where a pre-flight stands.
#[derive(Clone, Copy, Debug, PartialEq, Eq, Structural)]
pub enum PreflightState {
    /// Nothing has been asked for yet.
    Ready,
    /// Waiting for the connection to the maintenance database.
    Connecting,
    /// Waiting for the answer of the existence query.
    Checking,
    /// Waiting for the creating statement to complete.
    Creating,
    /// Over: no further action will be asked for.
    Finished,
}

/// What the caller reports to the pre-flight.
#[derive(Clone, Copy, Debug, PartialEq, Eq, Structural)]
pub enum PreflightEvent {
    /// The pre-flight is to start.
    Begin,
    /// The action last asked for succeeded.
    Succeeded,
    /// The existence query answered; the flag says whether the database
    /// exists.
    Exists(bool),
    /// The action last asked for failed.
    Failed,
}

/// What the pre-flight asks its caller to do next.
#[derive(Clone, Copy, Debug, PartialEq, Eq, Structural)]
pub enum PreflightAction {
    /// Connect with the maintenance connection string.
    Connect,
    /// Run the existence query for the configured database name.
    CheckExists,
    /// Execute the creating statement for the configured database name.
    Create,
    /// Stop, with this outcome.
    Finish(PreflightOutcome),
    /// The event came out of turn: do nothing.
    Ignore,
}

/// The pre-flight's transition: the state after `event`, and what to do.
pub open spec fn preflight_next(state: PreflightState, event: PreflightEvent) -> (
    PreflightState,
    PreflightAction,
) {
    match (state, event) {
        (PreflightState::Ready, PreflightEvent::Begin) => (
            PreflightState::Connecting,
            PreflightAction::Connect,
        ),
        (PreflightState::Connecting, PreflightEvent::Succeeded) => (
            PreflightState::Checking,
            PreflightAction::CheckExists,
        ),
        (PreflightState::Connecting, PreflightEvent::Failed) => (
            PreflightState::Finished,
            PreflightAction::Finish(PreflightOutcome::Failed(PreflightStage::Connect)),
        ),
        (PreflightState::Checking, PreflightEvent::Exists(true)) => (
            PreflightState::Finished,
            PreflightAction::Finish(PreflightOutcome::AlreadyPresent),
        ),
        (PreflightState::Checking, PreflightEvent::Exists(false)) => (
            PreflightState::Creating,
            PreflightAction::Create,
        ),
        (PreflightState::Checking, PreflightEvent::Failed) => (
            PreflightState::Finished,
            PreflightAction::Finish(PreflightOutcome::Failed(PreflightStage::Check)),
        ),
        (PreflightState::Creating, PreflightEvent::Succeeded) => (
            PreflightState::Finished,
            PreflightAction::Finish(PreflightOutcome::Created),
        ),
        (PreflightState::Creating, PreflightEvent::Failed) => (
            PreflightState::Finished,
            PreflightAction::Finish(PreflightOutcome::Failed(PreflightStage::Create)),
        ),
        _ => (state, PreflightAction::Ignore),
    }
}

/// How far a pre-flight has come: it only ever grows.
pub open spec fn preflight_progress(state: PreflightState) -> nat {
    match state {
        PreflightState::Ready => 0,
        PreflightState::Connecting => 1,
        PreflightState::Checking => 2,
        PreflightState::Creating => 3,
        PreflightState::Finished => 4,
    }
}

impl PreflightState {
    /// The state in which every pre-flight starts.
    pub fn new() -> (state: PreflightState)
        ensures
            state == PreflightState::Ready,
    {
        PreflightState::Ready
    }

    /// Takes `event` in, and says where the pre-flight stands then and what
    /// the caller is to do.
    pub fn advance(self, event: PreflightEvent) -> (step: (PreflightState, PreflightAction))
        ensures
            step == preflight_next(self, event),
    {
        match self {
            PreflightState::Ready => match event {
                PreflightEvent::Begin => (PreflightState::Connecting, PreflightAction::Connect),
                _ => (self, PreflightAction::Ignore),
            },
            PreflightState::Connecting => match event {
                PreflightEvent::Succeeded => (
                    PreflightState::Checking,
                    PreflightAction::CheckExists,
                ),
                PreflightEvent::Failed => (
                    PreflightState::Finished,
                    PreflightAction::Finish(PreflightOutcome::Failed(PreflightStage::Connect)),
                ),
                _ => (self, PreflightAction::Ignore),
            },
            PreflightState::Checking => match event {
                PreflightEvent::Exists(found) => if found {
                    (
                        PreflightState::Finished,
                        PreflightAction::Finish(PreflightOutcome::AlreadyPresent),
                    )
                } else {
                    (PreflightState::Creating, PreflightAction::Create)
                },
                PreflightEvent::Failed => (
                    PreflightState::Finished,
                    PreflightAction::Finish(PreflightOutcome::Failed(PreflightStage::Check)),
                ),
                _ => (self, PreflightAction::Ignore),
            },
            PreflightState::Creating => match event {
                PreflightEvent::Succeeded => (
                    PreflightState::Finished,
                    PreflightAction::Finish(PreflightOutcome::Created),
                ),
                PreflightEvent::Failed => (
                    PreflightState::Finished,
                    PreflightAction::Finish(PreflightOutcome::Failed(PreflightStage::Create)),
                ),
                _ => (self, PreflightAction::Ignore),
            },
            PreflightState::Finished => (self, PreflightAction::Ignore),
        }
    }
}

/// The pre-flight changes the server in one way only: it asks for the
/// creating statement exactly when the existence query has just answered
/// that the database is absent, whatever the database's name.
pub proof fn lemma_creates_only_if_absent(state: PreflightState, event: PreflightEvent)
    ensures
        preflight_next(state, event).1 == PreflightAction::Create <==> state
            == PreflightState::Checking && event == PreflightEvent::Exists(false),
{
}

/// The creating statement is the two words `CREATE DATABASE` and one quoted
/// identifier, and nothing else, whatever the name holds: between the outer
/// quotation marks every quotation mark stands in a pair, so the identifier
/// ends only where the statement ends, and the server reads it as the name,
/// character for character.
pub proof fn lemma_statement_only_creates(name: Seq<char>)
    ensures
        ({
            let text = create_statement_text(name);
            let body = text.subrange(17, text.len() - 1);
            &&& text.len() >= 18
            &&& text.subrange(0, 16) == "CREATE DATABASE "@
            &&& text[16] == '"'
            &&& text.last() == '"'
            &&& body == doubled_quotes(name)
            &&& quotes_paired(body)
            &&& undoubled_quotes(body) == name
        }),
{
    reveal_strlit("CREATE DATABASE ");
    let text = create_statement_text(name);
    assert("CREATE DATABASE "@.len() == 16);
    assert(text.subrange(0, 16) =~= "CREATE DATABASE "@);
    assert(text.subrange(17, text.len() - 1) =~= doubled_quotes(name));
    lemma_quoted_name_is_read_back(name);
}

/// A pre-flight reports that it created the database only after the creating
/// statement, asked for because the database was absent, has succeeded; and
/// it reports the database as present only on the query's word.
pub proof fn lemma_outcome_is_earned(state: PreflightState, event: PreflightEvent)
    ensures
        preflight_next(state, event).1 == PreflightAction::Finish(PreflightOutcome::Created)
            <==> state == PreflightState::Creating && event == PreflightEvent::Succeeded,
        preflight_next(state, event).1 == PreflightAction::Finish(
            PreflightOutcome::AlreadyPresent,
        ) <==> state == PreflightState::Checking && event == PreflightEvent::Exists(true),
{
}

/// Every event that is acted upon moves the pre-flight forward, and one that
/// comes out of turn leaves it where it was: so at most four actions are ever
/// asked for, and a finished pre-flight asks for none.
pub proof fn lemma_preflight_moves_forward(state: PreflightState, event: PreflightEvent)
    ensures
        preflight_next(state, event).1 != PreflightAction::Ignore ==> preflight_progress(
            preflight_next(state, event).0,
        ) > preflight_progress(state),
        preflight_next(state, event).1 == PreflightAction::Ignore ==> preflight_next(
            state,
            event,
        ).0 == state,
        state == PreflightState::Finished ==> preflight_next(state, event).1
            == PreflightAction::Ignore,
{
}

} // verus!
