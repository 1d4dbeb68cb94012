//! The configuration run as a state machine over mathematical values.
//!
//! [`step`] says, for every state of a run and every reply, what the next
//! state is and which command is handed out. The executable run follows it
//! step by step, and the laws of a run are proved of it.

use crate::address::{parsed, url_encoded};
use crate::configure::command::{CommandView, Config, ConfigureErrorView, ReplyView};
use crate::configure::server_params::{expand, ServerParamsView};
use crate::configure::source::{offline_autoconfig, sources, SOURCE_COUNT};
use crate::login_param::{is_oauth2, normalized_flags, LoginParamView, ServerLoginParamView};
use crate::provider::{ConfigDefaultView, Protocol, ProviderInfoView};
use vstd::prelude::*;

verus! {

/// Where a run stands: which command is under way.
#[derive(Clone, Copy, Debug, PartialEq, Eq, Structural)]
pub enum Stage {
    /// Clearing the notice of a wrong password.
    ClearingNotice,
    /// Reading the login parameters.
    LoadingParam,
    /// Reporting that an address and a password were entered.
    Started,
    /// Reporting that the OAuth2 address is about to be resolved.
    Oauth2Begun,
    /// Resolving the OAuth2 address.
    ResolvingAddress,
    /// Storing the resolved address.
    PersistingAddress,
    /// Reporting that the OAuth2 address has been dealt with.
    Oauth2Done,
    /// Reporting that discovery begins.
    AutoconfigBegun,
    /// Asking the offline knowledge base.
    OfflineLookup,
    /// Asking an online source.
    Fetching,
    /// Reporting that an online source has answered.
    Fetched,
    /// Reporting that the descriptors are settled.
    CandidatesFinal,
    /// Reporting that the IMAP trial begins.
    ImapBegun,
    /// Trying an IMAP candidate.
    TryingImap,
    /// Reporting that the SMTP trial begins.
    SmtpBegun,
    /// Trying an SMTP candidate.
    TryingSmtp,
    /// Closing the SMTP connection that succeeded.
    SmtpDisconnecting,
    /// Reporting that both servers accepted the login.
    FoldersBegun,
    /// Reading whether the chat folder is watched.
    AskingMvboxWatch,
    /// Reading whether chat messages are moved.
    AskingMvboxMove,
    /// Setting up the folders.
    ConfiguringFolders,
    /// Selecting the inbox.
    SelectingInbox,
    /// Reporting that the inbox is there.
    InboxVerified,
    /// Storing the login parameters.
    Saving,
    /// Storing that the account is configured.
    MarkingConfigured,
    /// Reporting that the configuration is stored.
    Persisted,
    /// Providing the secret key.
    EnsuringKey,
    /// Reporting that the secret key is there.
    KeyEnsured,
    /// Asking the knowledge base for the provider's defaults and hint.
    WrapupLookup,
    /// Asking whether a key with a default has a value.
    CheckingDefault,
    /// Setting a key to its default.
    SettingDefault,
    /// Showing the provider's hint.
    AddingHint,
    /// Restoring the notice of a wrong password.
    SettingNotice,
    /// Reporting success.
    Succeeding,
    /// Reporting failure.
    Failing,
    /// Reporting cancellation.
    Cancelling,
    /// Over.
    Finished,
}

/// State of a run.
pub struct RunView {
    pub stage: Stage,
    /// The login parameters as they stand.
    pub param: LoginParamView,
    /// Whether the login uses OAuth2.
    pub oauth2: bool,
    /// Domain of the address, once the address is parsed.
    pub domain: Seq<char>,
    /// The address as it stands in a URL, once the address is parsed.
    pub addr_urlencoded: Seq<char>,
    /// Which online source is asked, or which default is applied.
    pub index: nat,
    /// The descriptors that discovery gave, if it gave any.
    pub discovered: Option<Seq<ServerParamsView>>,
    /// The IMAP candidates in the order of trial.
    pub imap: Seq<ServerParamsView>,
    /// The SMTP candidates in the order of trial.
    pub smtp: Seq<ServerParamsView>,
    /// Which IMAP candidate is tried or was accepted.
    pub imap_cursor: nat,
    /// Which SMTP candidate is tried or was accepted.
    pub smtp_cursor: nat,
    /// The provider's record for the defaults and the hint.
    pub provider: Option<ProviderInfoView>,
    /// Why the run failed, if it did.
    pub failure: Option<ConfigureErrorView>,
    /// The progress last reported, 0 before the first report.
    pub progress: u16,
}

/// The candidates of one protocol, in their order.
pub open spec fn candidates_of(servers: Seq<ServerParamsView>, protocol: Protocol) -> Seq<
    ServerParamsView,
> {
    servers.filter(|p: ServerParamsView| p.protocol == protocol)
}

/// The state in which a run starts.
pub open spec fn initial() -> RunView {
    RunView {
        stage: Stage::ClearingNotice,
        param: LoginParamView::blank(),
        oauth2: false,
        domain: Seq::empty(),
        addr_urlencoded: Seq::empty(),
        index: 0,
        discovered: None,
        imap: Seq::empty(),
        smtp: Seq::empty(),
        imap_cursor: 0,
        smtp_cursor: 0,
        provider: None,
        failure: None,
        progress: 0,
    }
}

/// The command with which a run starts: the notice of a wrong password is
/// cleared before anything else.
pub open spec fn first_command() -> CommandView {
    CommandView::SetConfig { key: Config::NotifyAboutWrongPw, value: None }
}

/// Moves to `stage` and hands out `command`.
pub open spec fn ask(s: RunView, stage: Stage, command: CommandView) -> (RunView, CommandView) {
    (RunView { stage, ..s }, command)
}

/// Moves to `stage` and reports `value` as progress.
pub open spec fn emit(s: RunView, stage: Stage, value: u16) -> (RunView, CommandView) {
    (RunView { stage, progress: value, ..s }, CommandView::EmitProgress(value))
}

/// Ends the attempt: what is left is to apply the provider's defaults and
/// to report the result.
pub open spec fn wrap_up(s: RunView) -> (RunView, CommandView) {
    ask(s, Stage::WrapupLookup, CommandView::LookupProvider { addr: s.param.addr })
}

/// Ends the attempt with a failure.
pub open spec fn fail(s: RunView, error: ConfigureErrorView) -> (RunView, CommandView) {
    wrap_up(RunView { failure: Some(error), ..s })
}

/// Gives the run up on a reply that does not belong to its command.
pub open spec fn abort(s: RunView) -> (RunView, CommandView) {
    emit(RunView { failure: Some(ConfigureErrorView::UnexpectedReply), ..s }, Stage::Failing, 0)
}

/// Cancels the run: failure is reported as progress, but not as a result.
pub open spec fn cancel(s: RunView) -> (RunView, CommandView) {
    emit(RunView { failure: None, ..s }, Stage::Cancelling, 0)
}

/// Hands out the result.
pub open spec fn finish(s: RunView) -> (RunView, CommandView) {
    ask(s, Stage::Finished, CommandView::Finish(s.failure))
}

/// Splits the address and goes on to discovery.
pub open spec fn parse(s: RunView) -> (RunView, CommandView) {
    match parsed(s.param.addr) {
        Some(address) => emit(
            RunView {
                domain: address.domain,
                addr_urlencoded: url_encoded(s.param.addr),
                ..s
            },
            Stage::AutoconfigBegun,
            200,
        ),
        None => fail(s, ConfigureErrorView::BadAddress),
    }
}

/// The login parameters as the run uses them: the SMTP password defaults to
/// the IMAP password, and the flags name one authentication.
pub open spec fn prepared(param: LoginParamView) -> LoginParamView {
    LoginParamView {
        smtp: ServerLoginParamView {
            password: if param.smtp.password.len() == 0 {
                param.imap.password
            } else {
                param.smtp.password
            },
            ..param.smtp
        },
        server_flags: normalized_flags(param.server_flags),
        ..param
    }
}

/// Checks what the user entered. Where an address and a password are
/// there, that is reported and the run goes on with the parameters
/// prepared.
pub open spec fn validate(s: RunView) -> (RunView, CommandView) {
    if s.param.addr.len() == 0 {
        fail(s, ConfigureErrorView::MissingAddress)
    } else if s.param.imap.password.len() == 0 {
        fail(s, ConfigureErrorView::MissingPassword)
    } else {
        emit(
            RunView {
                param: prepared(s.param),
                oauth2: is_oauth2(s.param.server_flags),
                ..s
            },
            Stage::Started,
            1,
        )
    }
}

/// Asks the online source `index`.
pub open spec fn fetch(s: RunView, index: nat) -> (RunView, CommandView) {
    let source = sources(s.domain, s.addr_urlencoded)[index as int];
    ask(
        RunView { index, ..s },
        Stage::Fetching,
        CommandView::Fetch { provider: source.provider, url: source.url },
    )
}

/// Settles the descriptors and reports it.
pub open spec fn settle(s: RunView, discovered: Option<Seq<ServerParamsView>>) -> (
    RunView,
    CommandView,
) {
    emit(RunView { discovered, ..s }, Stage::CandidatesFinal, 500)
}

/// The progress reported after the online source `index` has answered.
pub open spec fn source_progress(index: nat) -> u16 {
    (300 + 10 * index) as u16
}

/// The descriptors that go into expansion: those that discovery gave, or
/// else what the user entered.
pub open spec fn descriptors(s: RunView) -> Seq<ServerParamsView> {
    match s.discovered {
        Some(servers) => servers,
        None => s.param.entered(),
    }
}

/// Expands the descriptors into the candidates of both protocols.
pub open spec fn with_candidates(s: RunView) -> RunView {
    let servers = expand(descriptors(s), s.param.addr, s.domain);
    RunView {
        imap: candidates_of(servers, Protocol::IMAP),
        smtp: candidates_of(servers, Protocol::SMTP),
        ..s
    }
}

/// Tries the IMAP candidate `cursor`; with none left the run has failed.
pub open spec fn try_imap(s: RunView, cursor: nat) -> (RunView, CommandView) {
    if cursor < s.imap.len() {
        let imap = s.param.imap.with_candidate(s.imap[cursor as int]);
        ask(
            RunView { imap_cursor: cursor, param: LoginParamView { imap, ..s.param }, ..s },
            Stage::TryingImap,
            CommandView::ConnectImap { param: imap, addr: s.param.addr, oauth2: s.oauth2 },
        )
    } else {
        fail(s, ConfigureErrorView::ImapFailed)
    }
}

/// Tries the SMTP candidate `cursor`; with none left the run has failed.
pub open spec fn try_smtp(s: RunView, cursor: nat) -> (RunView, CommandView) {
    if cursor < s.smtp.len() {
        let smtp = s.param.smtp.with_candidate(s.smtp[cursor as int]);
        ask(
            RunView { smtp_cursor: cursor, param: LoginParamView { smtp, ..s.param }, ..s },
            Stage::TryingSmtp,
            CommandView::ConnectSmtp { param: smtp, addr: s.param.addr, oauth2: s.oauth2 },
        )
    } else {
        fail(s, ConfigureErrorView::SmtpFailed)
    }
}

/// The provider's defaults; none where there is no record or it has none.
pub open spec fn defaults(s: RunView) -> Seq<ConfigDefaultView> {
    match s.provider {
        Some(info) => match info.config_defaults {
            Some(list) => list,
            None => Seq::empty(),
        },
        None => Seq::empty(),
    }
}

/// The provider's hint; empty where there is no record.
pub open spec fn hint(s: RunView) -> Seq<char> {
    match s.provider {
        Some(info) => info.after_login_hint,
        None => Seq::empty(),
    }
}

/// Reports the result: on success the notice of a wrong password is
/// restored first.
pub open spec fn conclude(s: RunView) -> (RunView, CommandView) {
    if s.failure is None {
        ask(
            s,
            Stage::SettingNotice,
            CommandView::SetConfig { key: Config::NotifyAboutWrongPw, value: Some("1"@) },
        )
    } else {
        emit(s, Stage::Failing, 0)
    }
}

/// Shows the provider's hint, if there is one, and goes on to the result.
pub open spec fn show_hint(s: RunView) -> (RunView, CommandView) {
    if hint(s).len() > 0 {
        ask(
            s,
            Stage::AddingHint,
            CommandView::AddDeviceMessage { label: "core-provider-info"@, text: hint(s) },
        )
    } else {
        conclude(s)
    }
}

/// Applies the provider's defaults from `index` on, then goes on to the
/// hint.
pub open spec fn apply_defaults(s: RunView, index: nat) -> (RunView, CommandView) {
    if index < defaults(s).len() {
        ask(
            RunView { index, ..s },
            Stage::CheckingDefault,
            CommandView::ConfigExists { key: defaults(s)[index as int].key },
        )
    } else {
        show_hint(s)
    }
}

/// The next state of a run and the command it hands out, for the reply to
/// the command that was under way.
///
/// A cancellation ends every run that has not reported its result yet. A
/// reply that does not belong to the command makes the run fail.
pub open spec fn step(s: RunView, reply: ReplyView) -> (RunView, CommandView) {
    match s.stage {
        Stage::Finished => (s, CommandView::Finish(s.failure)),
        Stage::Succeeding | Stage::Failing | Stage::Cancelling => finish(s),
        _ => if reply is Cancelled {
            cancel(s)
        } else {
            advance(s, reply)
        },
    }
}

/// The step of a run that is under way and was not cancelled.
pub open spec fn advance(s: RunView, reply: ReplyView) -> (RunView, CommandView) {
    match s.stage {
        Stage::ClearingNotice
        | Stage::LoadingParam
        | Stage::Started
        | Stage::Oauth2Begun
        | Stage::ResolvingAddress
        | Stage::PersistingAddress
        | Stage::Oauth2Done => normalize(s, reply),
        Stage::AutoconfigBegun
        | Stage::OfflineLookup
        | Stage::Fetching
        | Stage::Fetched
        | Stage::CandidatesFinal => discover(s, reply),
        Stage::ImapBegun
        | Stage::TryingImap
        | Stage::SmtpBegun
        | Stage::TryingSmtp
        | Stage::SmtpDisconnecting => connect(s, reply),
        Stage::FoldersBegun
        | Stage::AskingMvboxWatch
        | Stage::AskingMvboxMove
        | Stage::ConfiguringFolders
        | Stage::SelectingInbox => set_up_mailbox(s, reply),
        Stage::InboxVerified
        | Stage::Saving
        | Stage::MarkingConfigured
        | Stage::Persisted
        | Stage::EnsuringKey
        | Stage::KeyEnsured => persist(s, reply),
        Stage::WrapupLookup
        | Stage::CheckingDefault
        | Stage::SettingDefault
        | Stage::AddingHint
        | Stage::SettingNotice => close(s, reply),
        _ => abort(s),
    }
}

/// Steps that check what the user entered and settle the address.
pub open spec fn normalize(s: RunView, reply: ReplyView) -> (RunView, CommandView) {
    match (s.stage, reply) {
        (Stage::ClearingNotice, ReplyView::Done) => ask(
            s,
            Stage::LoadingParam,
            CommandView::LoadLoginParam,
        ),
        (Stage::LoadingParam, ReplyView::LoginParam(param)) => validate(RunView { param, ..s }),
        (Stage::Started, ReplyView::Done) => if s.oauth2 {
            emit(s, Stage::Oauth2Begun, 10)
        } else {
            parse(s)
        },
        (Stage::Oauth2Begun, ReplyView::Done) => ask(
            s,
            Stage::ResolvingAddress,
            CommandView::ResolveOauth2Address { addr: s.param.addr, secret: s.param.imap.password },
        ),
        (Stage::ResolvingAddress, ReplyView::Address(Some(addr))) => ask(
            RunView { param: LoginParamView { addr, ..s.param }, ..s },
            Stage::PersistingAddress,
            CommandView::SetConfig { key: Config::Addr, value: Some(addr) },
        ),
        (Stage::ResolvingAddress, ReplyView::Address(None)) => emit(s, Stage::Oauth2Done, 20),
        (Stage::PersistingAddress, ReplyView::Done) => emit(s, Stage::Oauth2Done, 20),
        (Stage::Oauth2Done, ReplyView::Done) => parse(s),
        _ => abort(s),
    }
}

/// Steps of discovery: the offline knowledge base first, then the online
/// sources in their order until one gives settings.
pub open spec fn discover(s: RunView, reply: ReplyView) -> (RunView, CommandView) {
    match (s.stage, reply) {
        (Stage::AutoconfigBegun, ReplyView::Done) => if s.param.is_blank() {
            ask(s, Stage::OfflineLookup, CommandView::LookupProvider { addr: s.param.addr })
        } else {
            settle(s, None)
        },
        (Stage::OfflineLookup, ReplyView::Provider(info)) => match offline_autoconfig(
            info,
            s.param.addr,
        ) {
            Some(servers) => settle(s, Some(servers)),
            None => fetch(s, 0),
        },
        (Stage::Fetching, ReplyView::Fetched(result)) => emit(
            RunView {
                discovered: match result {
                    Ok(servers) => Some(servers),
                    Err(_) => None,
                },
                ..s
            },
            Stage::Fetched,
            source_progress(s.index),
        ),
        (Stage::Fetched, ReplyView::Done) => if s.discovered is None && s.index + 1
            < SOURCE_COUNT {
            fetch(s, s.index + 1)
        } else {
            settle(s, s.discovered)
        },
        (Stage::CandidatesFinal, ReplyView::Done) => emit(
            with_candidates(s),
            Stage::ImapBegun,
            600,
        ),
        _ => abort(s),
    }
}

/// Steps of the trial: the IMAP candidates in their order until one is
/// accepted, then the SMTP candidates likewise.
pub open spec fn connect(s: RunView, reply: ReplyView) -> (RunView, CommandView) {
    match (s.stage, reply) {
        (Stage::ImapBegun, ReplyView::Done) => try_imap(s, 0),
        (Stage::TryingImap, ReplyView::Connected(accepted)) => if accepted {
            emit(s, Stage::SmtpBegun, 750)
        } else {
            try_imap(s, s.imap_cursor + 1)
        },
        (Stage::SmtpBegun, ReplyView::Done) => try_smtp(s, 0),
        (Stage::TryingSmtp, ReplyView::Connected(accepted)) => if accepted {
            ask(s, Stage::SmtpDisconnecting, CommandView::DisconnectSmtp)
        } else {
            try_smtp(s, s.smtp_cursor + 1)
        },
        (Stage::SmtpDisconnecting, ReplyView::Done) => emit(s, Stage::FoldersBegun, 900),
        _ => abort(s),
    }
}

/// Steps that set up the folders and verify the inbox.
pub open spec fn set_up_mailbox(s: RunView, reply: ReplyView) -> (RunView, CommandView) {
    match (s.stage, reply) {
        (Stage::FoldersBegun, ReplyView::Done) => ask(
            s,
            Stage::AskingMvboxWatch,
            CommandView::GetConfigBool { key: Config::MvboxWatch },
        ),
        (Stage::AskingMvboxWatch, ReplyView::Flag(watch)) => if watch {
            ask(s, Stage::ConfiguringFolders, CommandView::ConfigureFolders { create_mvbox: true })
        } else {
            ask(s, Stage::AskingMvboxMove, CommandView::GetConfigBool { key: Config::MvboxMove })
        },
        (Stage::AskingMvboxMove, ReplyView::Flag(create_mvbox)) => ask(
            s,
            Stage::ConfiguringFolders,
            CommandView::ConfigureFolders { create_mvbox },
        ),
        (Stage::ConfiguringFolders, ReplyView::Completed(result)) => match result {
            Ok(_) => ask(s, Stage::SelectingInbox, CommandView::SelectMailbox { name: "INBOX"@ }),
            Err(reason) => fail(s, ConfigureErrorView::Folders(reason)),
        },
        (Stage::SelectingInbox, ReplyView::Completed(result)) => match result {
            Ok(_) => emit(s, Stage::InboxVerified, 910),
            Err(reason) => fail(s, ConfigureErrorView::Inbox(reason)),
        },
        _ => abort(s),
    }
}

/// Steps that store the accepted parameters and provide the secret key.
pub open spec fn persist(s: RunView, reply: ReplyView) -> (RunView, CommandView) {
    match (s.stage, reply) {
        (Stage::InboxVerified, ReplyView::Done) => ask(
            s,
            Stage::Saving,
            CommandView::SaveLoginParam { param: s.param, prefix: "configured_"@ },
        ),
        (Stage::Saving, ReplyView::Done) => ask(
            s,
            Stage::MarkingConfigured,
            CommandView::SetConfigBool { key: Config::Configured, value: true },
        ),
        (Stage::MarkingConfigured, ReplyView::Done) => emit(s, Stage::Persisted, 920),
        (Stage::Persisted, ReplyView::Done) => ask(
            s,
            Stage::EnsuringKey,
            CommandView::EnsureSecretKey,
        ),
        (Stage::EnsuringKey, ReplyView::Completed(result)) => match result {
            Ok(_) => emit(s, Stage::KeyEnsured, 940),
            Err(reason) => fail(s, ConfigureErrorView::SecretKey(reason)),
        },
        (Stage::KeyEnsured, ReplyView::Done) => wrap_up(s),
        _ => abort(s),
    }
}

/// Steps after the attempt: the provider's defaults and hint, and the
/// report of the result.
pub open spec fn close(s: RunView, reply: ReplyView) -> (RunView, CommandView) {
    match (s.stage, reply) {
        (Stage::WrapupLookup, ReplyView::Provider(info)) => apply_defaults(
            RunView { provider: info, ..s },
            0,
        ),
        (Stage::CheckingDefault, ReplyView::Flag(exists)) => if exists {
            apply_defaults(s, s.index + 1)
        } else {
            ask(
                s,
                Stage::SettingDefault,
                CommandView::SetDefault {
                    key: defaults(s)[s.index as int].key,
                    value: defaults(s)[s.index as int].value,
                },
            )
        },
        (Stage::SettingDefault, ReplyView::Done) => apply_defaults(s, s.index + 1),
        (Stage::AddingHint, ReplyView::Done) => conclude(s),
        (Stage::AddingHint, ReplyView::Completed(_)) => conclude(s),
        (Stage::SettingNotice, ReplyView::Done) => emit(s, Stage::Succeeding, 1000),
        _ => abort(s),
    }
}

impl RunView {
    /// The greatest progress that a run at this stage can have reported.
    pub open spec fn reached(self) -> int {
        match self.stage {
            Stage::ClearingNotice | Stage::LoadingParam => 0,
            Stage::Started => 1,
            Stage::Oauth2Begun | Stage::ResolvingAddress | Stage::PersistingAddress => 10,
            Stage::Oauth2Done => 20,
            Stage::AutoconfigBegun | Stage::OfflineLookup => 200,
            Stage::Fetching => 290 + 10 * self.index as int,
            Stage::Fetched => 300 + 10 * self.index as int,
            Stage::CandidatesFinal => 500,
            Stage::ImapBegun | Stage::TryingImap => 600,
            Stage::SmtpBegun | Stage::TryingSmtp | Stage::SmtpDisconnecting => 750,
            Stage::FoldersBegun
            | Stage::AskingMvboxWatch
            | Stage::AskingMvboxMove
            | Stage::ConfiguringFolders
            | Stage::SelectingInbox => 900,
            Stage::InboxVerified | Stage::Saving | Stage::MarkingConfigured => 910,
            Stage::Persisted | Stage::EnsuringKey => 920,
            Stage::KeyEnsured
            | Stage::WrapupLookup
            | Stage::CheckingDefault
            | Stage::SettingDefault
            | Stage::AddingHint
            | Stage::SettingNotice => 940,
            Stage::Succeeding | Stage::Finished => 1000,
            Stage::Failing | Stage::Cancelling => 0,
        }
    }

    /// Whether the login parameters hold an IMAP candidate: the one that is
    /// tried at this stage, or the one that was accepted before it.
    pub open spec fn has_imap_candidate(self) -> bool {
        matches!(
            self.stage,
            Stage::TryingImap
                | Stage::SmtpBegun
                | Stage::TryingSmtp
                | Stage::SmtpDisconnecting
                | Stage::FoldersBegun
                | Stage::AskingMvboxWatch
                | Stage::AskingMvboxMove
                | Stage::ConfiguringFolders
                | Stage::SelectingInbox
                | Stage::InboxVerified
        )
    }

    /// Whether the login parameters hold an SMTP candidate: the one that is
    /// tried at this stage, or the one that was accepted before it.
    pub open spec fn has_smtp_candidate(self) -> bool {
        matches!(
            self.stage,
            Stage::TryingSmtp
                | Stage::SmtpDisconnecting
                | Stage::FoldersBegun
                | Stage::AskingMvboxWatch
                | Stage::AskingMvboxMove
                | Stage::ConfiguringFolders
                | Stage::SelectingInbox
                | Stage::InboxVerified
        )
    }

    /// What holds of every state that a run can reach.
    ///
    /// The progress is no more than the stage allows. The source or default
    /// that is being worked on exists. While a candidate is tried, and after
    /// it was accepted until the parameters are stored, the login parameters
    /// hold that candidate. Success and failure are reported only of runs
    /// that succeeded or failed.
    pub open spec fn wf(self) -> bool {
        &&& self.progress <= self.reached()
        &&& self.has_imap_candidate() ==> {
            &&& self.imap_cursor < self.imap.len()
            &&& self.param.imap == self.param.imap.with_candidate(
                self.imap[self.imap_cursor as int],
            )
        }
        &&& self.has_smtp_candidate() ==> {
            &&& self.smtp_cursor < self.smtp.len()
            &&& self.param.smtp == self.param.smtp.with_candidate(
                self.smtp[self.smtp_cursor as int],
            )
        }
        &&& match self.stage {
            Stage::Fetching | Stage::Fetched => self.index < SOURCE_COUNT,
            Stage::CheckingDefault | Stage::SettingDefault => self.index < defaults(self).len(),
            Stage::SettingNotice | Stage::Cancelling => self.failure is None,
            Stage::Succeeding => self.failure is None && self.progress == 1000,
            Stage::Failing => self.failure is Some,
            _ => true,
        }
    }

    /// Whether the run has reported its result as progress and has only
    /// the result itself left to hand out.
    pub open spec fn is_closing(self) -> bool {
        matches!(
            self.stage,
            Stage::Succeeding | Stage::Failing | Stage::Cancelling | Stage::Finished
        )
    }
}

} // verus!
