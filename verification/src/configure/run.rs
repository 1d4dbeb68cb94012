//! The configuration run.
//!
//! A [`Run`] holds what one configuration of an account has found out so
//! far. It is driven from outside: [`Run::start`] and every [`Run::step`]
//! hand out the command to carry out next, and `step` takes the reply to
//! it. The commands and the states follow the state machine of
//! [`crate::configure::model`].

use crate::address::{urlencode, EmailAddress};
use crate::configure::command::{Command, Config, ConfigureError, Reply};
use crate::configure::model;
use crate::configure::model::{candidates_of, RunView, Stage};
use crate::configure::server_params::{expand_candidates, ServerParams, ServerParamsView};
use crate::configure::source::{get_offline_autoconfig, AutoconfigSource, SOURCE_COUNT};
use crate::login_param::{normalize_auth_flags, LoginParam};
use crate::provider::{Protocol, ProviderInfo};
use vstd::prelude::*;
use vstd::string::*;

verus! {

/// The descriptors of one protocol, in their order.
fn select(servers: &Vec<ServerParams>, protocol: Protocol) -> (res: Vec<ServerParams>)
    ensures
        res.deep_view() == candidates_of(servers.deep_view(), protocol),
{
    let ghost all = servers.deep_view();
    let ghost wanted = |p: ServerParamsView| p.protocol == protocol;
    let mut res: Vec<ServerParams> = Vec::new();
    let mut i: usize = 0;
    proof {
        reveal(Seq::filter);
        assert(all.take(0).filter(wanted) =~= Seq::<ServerParamsView>::empty());
    }
    while i < servers.len()
        invariant
            i <= servers.len(),
            all == servers.deep_view(),
            wanted == |p: ServerParamsView| p.protocol == protocol,
            res.deep_view() == all.take(i as int).filter(wanted),
        decreases servers.len() - i,
    {
        let ghost kept = res.deep_view();
        proof {
            all.take(i as int).lemma_filter_push(all[i as int], wanted);
            assert(all.take(i as int).push(all[i as int]) =~= all.take(i + 1));
        }
        if servers[i].protocol == protocol {
            res.push(servers[i].clone());
            assert(res.deep_view() =~= kept.push(all[i as int]));
        }
        i = i + 1;
    }
    assert(all.take(i as int) =~= all);
    res
}

/// One configuration of an account, from the start to the result.
pub struct Run {
    stage: Stage,
    param: LoginParam,
    oauth2: bool,
    domain: String,
    addr_urlencoded: String,
    index: usize,
    discovered: Option<Vec<ServerParams>>,
    imap: Vec<ServerParams>,
    smtp: Vec<ServerParams>,
    imap_cursor: usize,
    smtp_cursor: usize,
    provider: Option<ProviderInfo>,
    failure: Option<ConfigureError>,
    progress: u16,
}

impl View for Run {
    type V = RunView;

    closed spec fn view(&self) -> RunView {
        RunView {
            stage: self.stage,
            param: self.param@,
            oauth2: self.oauth2,
            domain: self.domain@,
            addr_urlencoded: self.addr_urlencoded@,
            index: self.index as nat,
            discovered: self.discovered.deep_view(),
            imap: self.imap.deep_view(),
            smtp: self.smtp.deep_view(),
            imap_cursor: self.imap_cursor as nat,
            smtp_cursor: self.smtp_cursor as nat,
            provider: self.provider.deep_view(),
            failure: self.failure.deep_view(),
            progress: self.progress,
        }
    }
}

impl Run {
    #[verifier::type_invariant]
    spec fn reachable(self) -> bool {
        self@.wf()
    }

    /// Starts a run. The run hands out its first command with it.
    pub fn start() -> (res: (Run, Command))
        ensures
            res.0@ == model::initial(),
            res.1@ == model::first_command(),
    {
        let run = Run {
            stage: Stage::ClearingNotice,
            param: LoginParam::new(),
            oauth2: false,
            domain: String::new(),
            addr_urlencoded: String::new(),
            index: 0,
            discovered: None,
            imap: Vec::new(),
            smtp: Vec::new(),
            imap_cursor: 0,
            smtp_cursor: 0,
            provider: None,
            failure: None,
            progress: 0,
        };
        assert(run@.imap =~= Seq::<ServerParamsView>::empty());
        assert(run@.smtp =~= Seq::<ServerParamsView>::empty());
        (run, Command::SetConfig { key: Config::NotifyAboutWrongPw, value: None })
    }

    /// Where the run stands.
    pub fn stage(&self) -> (res: Stage)
        ensures
            res == self@.stage,
    {
        self.stage
    }

    /// Whether the run has handed out its result.
    pub fn is_finished(&self) -> (res: bool)
        ensures
            res == (self@.stage == Stage::Finished),
    {
        self.stage == Stage::Finished
    }

    /// The progress last reported, 0 before the first report.
    pub fn progress(&self) -> (res: u16)
        ensures
            res == self@.progress,
            res <= 1000,
    {
        proof {
            use_type_invariant(self);
        }
        self.progress
    }

    /// The login parameters as they stand: after a successful run, those
    /// that were accepted.
    pub fn param(&self) -> (res: &LoginParam)
        ensures
            res@ == self@.param,
    {
        &self.param
    }

    /// The result as it stands: the failure, if the run has met one.
    fn result(&self) -> (res: Result<(), ConfigureError>)
        ensures
            res matches Ok(_) ==> self@.failure is None,
            res matches Err(error) ==> self@.failure == Some(error@),
    {
        match &self.failure {
            Some(error) => Err(error.clone()),
            None => Ok(()),
        }
    }

    /// See [`model::ask`].
    fn ask(self, stage: Stage, command: Command) -> (res: (Run, Command))
        requires
            (RunView { stage, ..self@ }).wf(),
        ensures
            (res.0@, res.1@) == model::ask(self@, stage, command@),
    {
        (Run { stage, ..self }, command)
    }

    /// See [`model::emit`].
    fn emit(self, stage: Stage, value: u16) -> (res: (Run, Command))
        requires
            (RunView { stage, progress: value, ..self@ }).wf(),
        ensures
            (res.0@, res.1@) == model::emit(self@, stage, value),
    {
        (Run { stage, progress: value, ..self }, Command::EmitProgress(value))
    }

    /// See [`model::wrap_up`].
    fn wrap_up(self) -> (res: (Run, Command))
        requires
            self@.reached() <= 940,
        ensures
            (res.0@, res.1@) == model::wrap_up(self@),
    {
        proof {
            use_type_invariant(&self);
        }
        let command = Command::LookupProvider { addr: self.param.addr.clone() };
        self.ask(Stage::WrapupLookup, command)
    }

    /// See [`model::fail`].
    fn fail(self, error: ConfigureError) -> (res: (Run, Command))
        requires
            self@.reached() <= 940,
        ensures
            (res.0@, res.1@) == model::fail(self@, error@),
    {
        proof {
            use_type_invariant(&self);
        }
        let command = Command::LookupProvider { addr: self.param.addr.clone() };
        (Run { stage: Stage::WrapupLookup, failure: Some(error), ..self }, command)
    }

    /// See [`model::abort`].
    fn abort(self) -> (res: (Run, Command))
        ensures
            (res.0@, res.1@) == model::abort(self@),
    {
        (
            Run {
                stage: Stage::Failing,
                progress: 0,
                failure: Some(ConfigureError::UnexpectedReply),
                ..self
            },
            Command::EmitProgress(0),
        )
    }

    /// See [`model::cancel`].
    fn cancel(self) -> (res: (Run, Command))
        ensures
            (res.0@, res.1@) == model::cancel(self@),
    {
        (
            Run { stage: Stage::Cancelling, progress: 0, failure: None, ..self },
            Command::EmitProgress(0),
        )
    }

    /// See [`model::finish`].
    fn finish(self) -> (res: (Run, Command))
        ensures
            (res.0@, res.1@) == model::finish(self@),
    {
        proof {
            use_type_invariant(&self);
        }
        let command = Command::Finish(self.result());
        (Run { stage: Stage::Finished, ..self }, command)
    }

    /// See [`model::parse`].
    fn parse(self) -> (res: (Run, Command))
        requires
            self@.reached() <= 200,
        ensures
            (res.0@, res.1@) == model::parse(self@),
    {
        proof {
            use_type_invariant(&self);
        }
        match EmailAddress::parse(self.param.addr.as_str()) {
            Some(address) => {
                let addr_urlencoded = urlencode(self.param.addr.as_str());
                (
                    Run {
                        stage: Stage::AutoconfigBegun,
                        progress: 200,
                        domain: address.domain,
                        addr_urlencoded,
                        ..self
                    },
                    Command::EmitProgress(200),
                )
            },
            None => self.fail(ConfigureError::BadAddress),
        }
    }

    /// See [`model::validate`].
    fn validate(self) -> (res: (Run, Command))
        requires
            self@.stage == Stage::LoadingParam,
        ensures
            (res.0@, res.1@) == model::validate(self@),
    {
        proof {
            use_type_invariant(&self);
        }
        if self.param.addr.as_str().is_empty() {
            return self.fail(ConfigureError::MissingAddress);
        }
        if self.param.imap.password.as_str().is_empty() {
            return self.fail(ConfigureError::MissingPassword);
        }
        let (server_flags, oauth2) = normalize_auth_flags(self.param.server_flags);
        let mut param = self.param.clone();
        if param.smtp.password.as_str().is_empty() {
            param.smtp.password = param.imap.password.clone();
        }
        param.server_flags = server_flags;
        assert(param@ == model::prepared(self@.param));
        (
            Run { stage: Stage::Started, progress: 1, param, oauth2, ..self },
            Command::EmitProgress(1),
        )
    }

    /// See [`model::fetch`].
    fn fetch(self, index: usize) -> (res: (Run, Command))
        requires
            index < SOURCE_COUNT,
            self@.reached() <= 290 + 10 * index,
        ensures
            (res.0@, res.1@) == model::fetch(self@, index as nat),
    {
        proof {
            use_type_invariant(&self);
        }
        let all = AutoconfigSource::all(self.domain.as_str(), self.addr_urlencoded.as_str());
        let source = &all[index];
        let command = Command::Fetch { provider: source.provider, url: source.url.clone() };
        assert(source@ == all.deep_view()[index as int]);
        (Run { stage: Stage::Fetching, index, ..self }, command)
    }

    /// See [`model::settle`].
    fn settle(self, discovered: Option<Vec<ServerParams>>) -> (res: (Run, Command))
        requires
            self@.reached() <= 500,
        ensures
            (res.0@, res.1@) == model::settle(self@, discovered.deep_view()),
    {
        proof {
            use_type_invariant(&self);
        }
        (
            Run { stage: Stage::CandidatesFinal, progress: 500, discovered, ..self },
            Command::EmitProgress(500),
        )
    }

    /// See [`model::with_candidates`].
    fn with_candidates(self) -> (res: Run)
        requires
            self@.stage == Stage::CandidatesFinal,
        ensures
            res@ == model::with_candidates(self@),
    {
        proof {
            use_type_invariant(&self);
        }
        let servers = match &self.discovered {
            Some(descriptors) => expand_candidates(
                descriptors,
                self.param.addr.as_str(),
                self.domain.as_str(),
            ),
            None => expand_candidates(
                &self.param.entered(),
                self.param.addr.as_str(),
                self.domain.as_str(),
            ),
        };
        let imap = select(&servers, Protocol::IMAP);
        let smtp = select(&servers, Protocol::SMTP);
        Run { imap, smtp, ..self }
    }

    /// See [`model::try_imap`].
    fn try_imap(self, cursor: usize) -> (res: (Run, Command))
        requires
            self@.reached() <= 600,
        ensures
            (res.0@, res.1@) == model::try_imap(self@, cursor as nat),
    {
        proof {
            use_type_invariant(&self);
        }
        if cursor < self.imap.len() {
            let mut param = self.param.clone();
            param.imap.set_candidate(&self.imap[cursor]);
            let command = Command::ConnectImap {
                param: param.imap.clone(),
                addr: param.addr.clone(),
                oauth2: self.oauth2,
            };
            (Run { stage: Stage::TryingImap, imap_cursor: cursor, param, ..self }, command)
        } else {
            self.fail(ConfigureError::ImapFailed)
        }
    }

    /// See [`model::try_smtp`].
    fn try_smtp(self, cursor: usize) -> (res: (Run, Command))
        requires
            self@.stage == Stage::SmtpBegun || self@.stage == Stage::TryingSmtp,
        ensures
            (res.0@, res.1@) == model::try_smtp(self@, cursor as nat),
    {
        proof {
            use_type_invariant(&self);
        }
        if cursor < self.smtp.len() {
            let mut param = self.param.clone();
            param.smtp.set_candidate(&self.smtp[cursor]);
            let command = Command::ConnectSmtp {
                param: param.smtp.clone(),
                addr: param.addr.clone(),
                oauth2: self.oauth2,
            };
            (Run { stage: Stage::TryingSmtp, smtp_cursor: cursor, param, ..self }, command)
        } else {
            self.fail(ConfigureError::SmtpFailed)
        }
    }

    /// See [`model::conclude`].
    fn conclude(self) -> (res: (Run, Command))
        requires
            self@.reached() <= 940,
        ensures
            (res.0@, res.1@) == model::conclude(self@),
    {
        proof {
            use_type_invariant(&self);
        }
        if self.failure.is_none() {
            let command = Command::SetConfig {
                key: Config::NotifyAboutWrongPw,
                value: Some(String::from_str("1")),
            };
            self.ask(Stage::SettingNotice, command)
        } else {
            self.emit(Stage::Failing, 0)
        }
    }

    /// See [`model::show_hint`].
    fn show_hint(self) -> (res: (Run, Command))
        requires
            self@.reached() <= 940,
        ensures
            (res.0@, res.1@) == model::show_hint(self@),
    {
        proof {
            use_type_invariant(&self);
        }
        let text = match &self.provider {
            Some(info) => info.after_login_hint.clone(),
            None => String::new(),
        };
        if text.as_str().is_empty() {
            self.conclude()
        } else {
            let command = Command::AddDeviceMessage {
                label: String::from_str("core-provider-info"),
                text,
            };
            self.ask(Stage::AddingHint, command)
        }
    }

    /// The key of the default `index`, if the provider has that many.
    fn default_key(&self, index: usize) -> (res: Option<String>)
        ensures
            res is Some == (index < model::defaults(self@).len()),
            res matches Some(key) ==> key@ == model::defaults(self@)[index as int].key,
    {
        match &self.provider {
            Some(info) => match &info.config_defaults {
                Some(list) => if index < list.len() {
                    Some(list[index].key.clone())
                } else {
                    None
                },
                None => None,
            },
            None => None,
        }
    }

    /// The provider has no more defaults than a vector holds.
    proof fn lemma_defaults_fit(&self)
        ensures
            model::defaults(self@).len() <= usize::MAX,
    {
        if let Some(info) = self.provider {
            if let Some(list) = info.config_defaults {
                assert(list.deep_view().len() == list.len());
            }
        }
    }

    /// The value of the default `index`.
    fn default_value(&self, index: usize) -> (res: String)
        requires
            index < model::defaults(self@).len(),
        ensures
            res@ == model::defaults(self@)[index as int].value,
    {
        match &self.provider {
            Some(info) => match &info.config_defaults {
                Some(list) => list[index].value.clone(),
                None => String::new(),
            },
            None => String::new(),
        }
    }

    /// See [`model::apply_defaults`].
    fn apply_defaults(self, index: usize) -> (res: (Run, Command))
        requires
            self@.reached() <= 940,
        ensures
            (res.0@, res.1@) == model::apply_defaults(self@, index as nat),
    {
        proof {
            use_type_invariant(&self);
        }
        match self.default_key(index) {
            Some(key) => (
                Run { stage: Stage::CheckingDefault, index, ..self },
                Command::ConfigExists { key },
            ),
            None => self.show_hint(),
        }
    }

    /// Takes the reply to the command that is under way and hands out the
    /// next command; see [`model::step`].
    ///
    /// With [`Command::Finish`] the run is over. A step after that changes
    /// nothing and hands out the result again.
    pub fn step(self, reply: Reply) -> (res: (Run, Command))
        ensures
            (res.0@, res.1@) == model::step(self@, reply@),
    {
        match self.stage {
            Stage::Finished => {
                let command = Command::Finish(self.result());
                (self, command)
            },
            Stage::Succeeding | Stage::Failing | Stage::Cancelling => self.finish(),
            _ => match reply {
                Reply::Cancelled => self.cancel(),
                reply => self.advance(reply),
            },
        }
    }

    /// See [`model::advance`].
    fn advance(self, reply: Reply) -> (res: (Run, Command))
        requires
            !(reply is Cancelled),
        ensures
            (res.0@, res.1@) == model::advance(self@, reply@),
    {
        match self.stage {
            Stage::ClearingNotice
            | Stage::LoadingParam
            | Stage::Started
            | Stage::Oauth2Begun
            | Stage::ResolvingAddress
            | Stage::PersistingAddress
            | Stage::Oauth2Done => self.normalize(reply),
            Stage::AutoconfigBegun
            | Stage::OfflineLookup
            | Stage::Fetching
            | Stage::Fetched
            | Stage::CandidatesFinal => self.discover(reply),
            Stage::ImapBegun
            | Stage::TryingImap
            | Stage::SmtpBegun
            | Stage::TryingSmtp
            | Stage::SmtpDisconnecting => self.connect(reply),
            Stage::FoldersBegun
            | Stage::AskingMvboxWatch
            | Stage::AskingMvboxMove
            | Stage::ConfiguringFolders
            | Stage::SelectingInbox => self.set_up_mailbox(reply),
            Stage::InboxVerified
            | Stage::Saving
            | Stage::MarkingConfigured
            | Stage::Persisted
            | Stage::EnsuringKey
            | Stage::KeyEnsured => self.persist(reply),
            Stage::WrapupLookup
            | Stage::CheckingDefault
            | Stage::SettingDefault
            | Stage::AddingHint
            | Stage::SettingNotice => self.close(reply),
            _ => self.abort(),
        }
    }

    /// See [`model::normalize`].
    fn normalize(self, reply: Reply) -> (res: (Run, Command))
        requires
            !(reply is Cancelled),
        ensures
            (res.0@, res.1@) == model::normalize(self@, reply@),
    {
        proof {
            use_type_invariant(&self);
        }
        match self.stage {
            Stage::ClearingNotice => match reply {
                Reply::Done => self.ask(Stage::LoadingParam, Command::LoadLoginParam),
                _ => self.abort(),
            },
            Stage::LoadingParam => match reply {
                Reply::LoginParam(param) => {
                    let loaded = Run { param, ..self };
                    loaded.validate()
                },
                _ => self.abort(),
            },
            Stage::Started => match reply {
                Reply::Done => if self.oauth2 {
                    self.emit(Stage::Oauth2Begun, 10)
                } else {
                    self.parse()
                },
                _ => self.abort(),
            },
            Stage::Oauth2Begun => match reply {
                Reply::Done => {
                    let command = Command::ResolveOauth2Address {
                        addr: self.param.addr.clone(),
                        secret: self.param.imap.password.clone(),
                    };
                    self.ask(Stage::ResolvingAddress, command)
                },
                _ => self.abort(),
            },
            Stage::ResolvingAddress => match reply {
                Reply::Address(Some(addr)) => {
                    let command = Command::SetConfig {
                        key: Config::Addr,
                        value: Some(addr.clone()),
                    };
                    let mut param = self.param.clone();
                    param.addr = addr;
                    (Run { stage: Stage::PersistingAddress, param, ..self }, command)
                },
                Reply::Address(None) => self.emit(Stage::Oauth2Done, 20),
                _ => self.abort(),
            },
            Stage::PersistingAddress => match reply {
                Reply::Done => self.emit(Stage::Oauth2Done, 20),
                _ => self.abort(),
            },
            Stage::Oauth2Done => match reply {
                Reply::Done => self.parse(),
                _ => self.abort(),
            },
            _ => self.abort(),
        }
    }

    /// See [`model::discover`].
    fn discover(self, reply: Reply) -> (res: (Run, Command))
        requires
            !(reply is Cancelled),
        ensures
            (res.0@, res.1@) == model::discover(self@, reply@),
    {
        proof {
            use_type_invariant(&self);
        }
        match self.stage {
            Stage::AutoconfigBegun => match reply {
                Reply::Done => if self.param.is_blank() {
                    let command = Command::LookupProvider { addr: self.param.addr.clone() };
                    self.ask(Stage::OfflineLookup, command)
                } else {
                    self.settle(None)
                },
                _ => self.abort(),
            },
            Stage::OfflineLookup => match reply {
                Reply::Provider(info) => {
                    match get_offline_autoconfig(info.as_ref(), self.param.addr.as_str()) {
                        Some(servers) => self.settle(Some(servers)),
                        None => self.fetch(0),
                    }
                },
                _ => self.abort(),
            },
            Stage::Fetching => match reply {
                Reply::Fetched(result) => {
                    let value: u16 = 300 + 10 * (self.index as u16);
                    (
                        Run {
                            stage: Stage::Fetched,
                            progress: value,
                            discovered: result.ok(),
                            ..self
                        },
                        Command::EmitProgress(value),
                    )
                },
                _ => self.abort(),
            },
            Stage::Fetched => match reply {
                Reply::Done => if self.discovered.is_none() && self.index + 1 < SOURCE_COUNT {
                    let index = self.index + 1;
                    self.fetch(index)
                } else {
                    (
                        Run { stage: Stage::CandidatesFinal, progress: 500, ..self },
                        Command::EmitProgress(500),
                    )
                },
                _ => self.abort(),
            },
            Stage::CandidatesFinal => match reply {
                Reply::Done => self.with_candidates().emit(Stage::ImapBegun, 600),
                _ => self.abort(),
            },
            _ => self.abort(),
        }
    }

    /// See [`model::connect`].
    fn connect(self, reply: Reply) -> (res: (Run, Command))
        requires
            !(reply is Cancelled),
        ensures
            (res.0@, res.1@) == model::connect(self@, reply@),
    {
        proof {
            use_type_invariant(&self);
        }
        match self.stage {
            Stage::ImapBegun => match reply {
                Reply::Done => self.try_imap(0),
                _ => self.abort(),
            },
            Stage::TryingImap => match reply {
                Reply::Connected(accepted) => if accepted {
                    self.emit(Stage::SmtpBegun, 750)
                } else {
                    assert(self.imap_cursor < self.imap.len());
                    let cursor = self.imap_cursor + 1;
                    self.try_imap(cursor)
                },
                _ => self.abort(),
            },
            Stage::SmtpBegun => match reply {
                Reply::Done => self.try_smtp(0),
                _ => self.abort(),
            },
            Stage::TryingSmtp => match reply {
                Reply::Connected(accepted) => if accepted {
                    self.ask(Stage::SmtpDisconnecting, Command::DisconnectSmtp)
                } else {
                    assert(self.smtp_cursor < self.smtp.len());
                    let cursor = self.smtp_cursor + 1;
                    self.try_smtp(cursor)
                },
                _ => self.abort(),
            },
            Stage::SmtpDisconnecting => match reply {
                Reply::Done => self.emit(Stage::FoldersBegun, 900),
                _ => self.abort(),
            },
            _ => self.abort(),
        }
    }

    /// See [`model::set_up_mailbox`].
    fn set_up_mailbox(self, reply: Reply) -> (res: (Run, Command))
        requires
            !(reply is Cancelled),
        ensures
            (res.0@, res.1@) == model::set_up_mailbox(self@, reply@),
    {
        proof {
            use_type_invariant(&self);
        }
        match self.stage {
            Stage::FoldersBegun => match reply {
                Reply::Done => self.ask(
                    Stage::AskingMvboxWatch,
                    Command::GetConfigBool { key: Config::MvboxWatch },
                ),
                _ => self.abort(),
            },
            Stage::AskingMvboxWatch => match reply {
                Reply::Flag(watch) => if watch {
                    self.ask(
                        Stage::ConfiguringFolders,
                        Command::ConfigureFolders { create_mvbox: true },
                    )
                } else {
                    self.ask(
                        Stage::AskingMvboxMove,
                        Command::GetConfigBool { key: Config::MvboxMove },
                    )
                },
                _ => self.abort(),
            },
            Stage::AskingMvboxMove => match reply {
                Reply::Flag(create_mvbox) => self.ask(
                    Stage::ConfiguringFolders,
                    Command::ConfigureFolders { create_mvbox },
                ),
                _ => self.abort(),
            },
            Stage::ConfiguringFolders => match reply {
                Reply::Completed(Ok(_)) => self.ask(
                    Stage::SelectingInbox,
                    Command::SelectMailbox { name: String::from_str("INBOX") },
                ),
                Reply::Completed(Err(reason)) => self.fail(ConfigureError::Folders(reason)),
                _ => self.abort(),
            },
            Stage::SelectingInbox => match reply {
                Reply::Completed(Ok(_)) => self.emit(Stage::InboxVerified, 910),
                Reply::Completed(Err(reason)) => self.fail(ConfigureError::Inbox(reason)),
                _ => self.abort(),
            },
            _ => self.abort(),
        }
    }

    /// See [`model::persist`].
    fn persist(self, reply: Reply) -> (res: (Run, Command))
        requires
            !(reply is Cancelled),
        ensures
            (res.0@, res.1@) == model::persist(self@, reply@),
    {
        proof {
            use_type_invariant(&self);
        }
        match self.stage {
            Stage::InboxVerified => match reply {
                Reply::Done => {
                    let command = Command::SaveLoginParam {
                        param: self.param.clone(),
                        prefix: String::from_str("configured_"),
                    };
                    self.ask(Stage::Saving, command)
                },
                _ => self.abort(),
            },
            Stage::Saving => match reply {
                Reply::Done => self.ask(
                    Stage::MarkingConfigured,
                    Command::SetConfigBool { key: Config::Configured, value: true },
                ),
                _ => self.abort(),
            },
            Stage::MarkingConfigured => match reply {
                Reply::Done => self.emit(Stage::Persisted, 920),
                _ => self.abort(),
            },
            Stage::Persisted => match reply {
                Reply::Done => self.ask(Stage::EnsuringKey, Command::EnsureSecretKey),
                _ => self.abort(),
            },
            Stage::EnsuringKey => match reply {
                Reply::Completed(Ok(_)) => self.emit(Stage::KeyEnsured, 940),
                Reply::Completed(Err(reason)) => self.fail(ConfigureError::SecretKey(reason)),
                _ => self.abort(),
            },
            Stage::KeyEnsured => match reply {
                Reply::Done => self.wrap_up(),
                _ => self.abort(),
            },
            _ => self.abort(),
        }
    }

    /// See [`model::close`].
    fn close(self, reply: Reply) -> (res: (Run, Command))
        requires
            !(reply is Cancelled),
        ensures
            (res.0@, res.1@) == model::close(self@, reply@),
    {
        proof {
            use_type_invariant(&self);
        }
        match self.stage {
            Stage::WrapupLookup => match reply {
                Reply::Provider(info) => {
                    let next = Run { provider: info, ..self };
                    next.apply_defaults(0)
                },
                _ => self.abort(),
            },
            Stage::CheckingDefault => match reply {
                Reply::Flag(exists) => {
                    proof {
                        self.lemma_defaults_fit();
                    }
                    if exists {
                        let index = self.index + 1;
                        self.apply_defaults(index)
                    } else {
                        let command = Command::SetDefault {
                            key: self.default_key(self.index).unwrap(),
                            value: self.default_value(self.index),
                        };
                        self.ask(Stage::SettingDefault, command)
                    }
                },
                _ => self.abort(),
            },
            Stage::SettingDefault => match reply {
                Reply::Done => {
                    proof {
                        self.lemma_defaults_fit();
                    }
                    let index = self.index + 1;
                    self.apply_defaults(index)
                },
                _ => self.abort(),
            },
            Stage::AddingHint => match reply {
                Reply::Done => self.conclude(),
                Reply::Completed(_) => self.conclude(),
                _ => self.abort(),
            },
            Stage::SettingNotice => match reply {
                Reply::Done => self.emit(Stage::Succeeding, 1000),
                _ => self.abort(),
            },
            _ => self.abort(),
        }
    }
}

} // verus!
