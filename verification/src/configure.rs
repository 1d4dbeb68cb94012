//! Account autoconfiguration.
//!
//! Given the address and the password of an account, a configuration run
//! finds connection parameters for IMAP and SMTP that the servers accept.
//! It asks the offline provider knowledge base and a fixed list of online
//! sources for server descriptors, expands what they leave open into an
//! ordered list of candidates, and tries the candidates one after the other.
//!
//! All input and output is left to the caller. A [`Context`] admits one run
//! at a time, hands out [`Command`]s and takes the [`Reply`] to each.

pub mod command;
pub mod laws;
pub mod model;
pub mod run;
pub mod server_params;
pub mod source;

pub use crate::configure::command::Error;

use crate::configure::command::{
    Command, CommandView, ConfigureError, ConfigureErrorView, Reply, ReplyView,
};
use crate::configure::model::{RunView, Stage};
use crate::configure::run::Run;
use vstd::prelude::*;

verus! {

/// What a context makes of a request to configure: the run that holds the
/// slot afterwards, and the first command or the reason for the refusal.
///
/// Nothing is attempted while the account does its regular work, while the
/// configuration store is not open, or while another run holds the slot.
pub open spec fn admit_run(
    ongoing: Option<RunView>,
    scheduler_running: bool,
    database_open: bool,
) -> (Option<RunView>, Result<CommandView, ConfigureErrorView>) {
    if scheduler_running {
        (ongoing, Err(ConfigureErrorView::AlreadyRunning))
    } else if !database_open {
        (ongoing, Err(ConfigureErrorView::DatabaseNotOpen))
    } else if ongoing is Some {
        (ongoing, Err(ConfigureErrorView::AlreadyOngoing))
    } else {
        (Some(model::initial()), Ok(model::first_command()))
    }
}

/// What a context makes of a reply: the run that holds the slot afterwards
/// and the next command. The run that hands out its result gives the slot
/// up; without a run there is no command.
pub open spec fn advance_run(ongoing: Option<RunView>, reply: ReplyView) -> (
    Option<RunView>,
    Option<CommandView>,
) {
    match ongoing {
        Some(run) => {
            let (next, command) = model::step(run, reply);
            (
                if next.stage == Stage::Finished {
                    None
                } else {
                    Some(next)
                },
                Some(command),
            )
        },
        None => (None, None),
    }
}

/// The configuration of one account: at most one run at a time.
pub struct Context {
    ongoing: Option<Run>,
}

impl View for Context {
    type V = Option<RunView>;

    closed spec fn view(&self) -> Option<RunView> {
        match self.ongoing {
            Some(run) => Some(run@),
            None => None,
        }
    }
}

impl Context {
    /// A context without a run.
    pub fn new() -> (res: Context)
        ensures
            res@ is None,
    {
        Context { ongoing: None }
    }

    /// Whether a run holds the slot.
    pub fn is_ongoing(&self) -> (res: bool)
        ensures
            res == self@.is_some(),
    {
        self.ongoing.is_some()
    }

    /// Starts to configure the account with the login parameters that are
    /// in its configuration store; see [`admit_run`].
    ///
    /// `scheduler_running` says whether the account does its regular work,
    /// `database_open` whether the configuration store is open.
    pub fn configure(&mut self, scheduler_running: bool, database_open: bool) -> (res: Result<
        Command,
        ConfigureError,
    >)
        ensures
            (
                final(self)@,
                match res {
                    Ok(command) => Ok(command@),
                    Err(error) => Err(error@),
                },
            ) == admit_run(old(self)@, scheduler_running, database_open),
    {
        if scheduler_running {
            return Err(ConfigureError::AlreadyRunning);
        }
        if !database_open {
            return Err(ConfigureError::DatabaseNotOpen);
        }
        if self.ongoing.is_some() {
            return Err(ConfigureError::AlreadyOngoing);
        }
        let (run, command) = Run::start();
        self.ongoing = Some(run);
        Ok(command)
    }

    /// Takes the reply to the command that is under way and hands out the
    /// next command; see [`advance_run`].
    pub fn step(&mut self, reply: Reply) -> (res: Option<Command>)
        ensures
            (
                final(self)@,
                match res {
                    Some(command) => Some(command@),
                    None => None,
                },
            ) == advance_run(old(self)@, reply@),
    {
        match self.ongoing.take() {
            Some(run) => {
                let (next, command) = run.step(reply);
                if !next.is_finished() {
                    self.ongoing = Some(next);
                }
                Some(command)
            },
            None => None,
        }
    }
}

} // verus!
