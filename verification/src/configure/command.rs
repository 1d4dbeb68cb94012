//! What a configuration run asks of its surroundings, and what they answer.
//!
//! A run does no input or output of its own. It hands out one [`Command`] at
//! a time; whoever drives the run carries the command out and hands back the
//! [`Reply`].

use crate::configure::server_params::{ServerParams, ServerParamsView};
use crate::configure::source::AutoconfigProvider;
use crate::login_param::{LoginParam, LoginParamView, ServerLoginParam, ServerLoginParamView};
use crate::provider::{ProviderInfo, ProviderInfoView};
use vstd::prelude::*;
use vstd::string::*;

verus! {

/// Keys of the configuration store that a run reads or writes.
#[derive(Clone, Copy, Debug, PartialEq, Eq, Structural)]
pub enum Config {
    /// The address of the account.
    Addr,
    /// Whether the account has been configured.
    Configured,
    /// Whether chat messages are moved to their own folder.
    MvboxMove,
    /// Whether that folder is watched.
    MvboxWatch,
    /// Whether the user is told of a wrong password.
    NotifyAboutWrongPw,
}

/// The name under which a key stands in the configuration store.
pub open spec fn key_name(key: Config) -> Seq<char> {
    match key {
        Config::Addr => "addr"@,
        Config::Configured => "configured"@,
        Config::MvboxMove => "mvbox_move"@,
        Config::MvboxWatch => "mvbox_watch"@,
        Config::NotifyAboutWrongPw => "notify_about_wrong_pw"@,
    }
}

impl Config {
    /// The name under which the key stands in the configuration store.
    pub fn name(self) -> (res: String)
        ensures
            res@ == key_name(self),
    {
        match self {
            Config::Addr => String::from_str("addr"),
            Config::Configured => String::from_str("configured"),
            Config::MvboxMove => String::from_str("mvbox_move"),
            Config::MvboxWatch => String::from_str("mvbox_watch"),
            Config::NotifyAboutWrongPw => String::from_str("notify_about_wrong_pw"),
        }
    }
}

/// Why an online source gave no settings.
#[derive(Debug)]
pub enum Error {
    /// The document names an address that is none.
    InvalidEmailAddress(String),
    /// The document is not well-formed XML.
    InvalidXml { position: usize, error: String },
    /// The URL could not be read.
    ReadUrlError(String),
    /// The source redirected too often.
    RedirectionError,
}

/// Mathematical value of an [`Error`].
pub enum ErrorView {
    InvalidEmailAddress(Seq<char>),
    InvalidXml { position: usize, error: Seq<char> },
    ReadUrlError(Seq<char>),
    RedirectionError,
}

impl View for Error {
    type V = ErrorView;

    open spec fn view(&self) -> ErrorView {
        match self {
            Error::InvalidEmailAddress(addr) => ErrorView::InvalidEmailAddress(addr@),
            Error::InvalidXml { position, error } => ErrorView::InvalidXml {
                position: *position,
                error: error@,
            },
            Error::ReadUrlError(error) => ErrorView::ReadUrlError(error@),
            Error::RedirectionError => ErrorView::RedirectionError,
        }
    }
}

/// Why a configuration did not start or did not succeed.
#[derive(Debug)]
pub enum ConfigureError {
    /// The account is doing its regular work and cannot be configured now.
    AlreadyRunning,
    /// The configuration store is not open.
    DatabaseNotOpen,
    /// Another run is under way.
    AlreadyOngoing,
    /// No address was entered.
    MissingAddress,
    /// No password was entered.
    MissingPassword,
    /// The address is malformed.
    BadAddress,
    /// No IMAP candidate accepted the login.
    ImapFailed,
    /// No SMTP candidate accepted the login.
    SmtpFailed,
    /// The folders could not be set up; with the reason given.
    Folders(String),
    /// The inbox could not be selected; with the reason given.
    Inbox(String),
    /// No secret key could be provided; with the reason given.
    SecretKey(String),
    /// The reply did not belong to the command that was handed out.
    UnexpectedReply,
}

/// Mathematical value of a [`ConfigureError`].
pub enum ConfigureErrorView {
    AlreadyRunning,
    DatabaseNotOpen,
    AlreadyOngoing,
    MissingAddress,
    MissingPassword,
    BadAddress,
    ImapFailed,
    SmtpFailed,
    Folders(Seq<char>),
    Inbox(Seq<char>),
    SecretKey(Seq<char>),
    UnexpectedReply,
}

impl View for ConfigureError {
    type V = ConfigureErrorView;

    open spec fn view(&self) -> ConfigureErrorView {
        match self {
            ConfigureError::AlreadyRunning => ConfigureErrorView::AlreadyRunning,
            ConfigureError::DatabaseNotOpen => ConfigureErrorView::DatabaseNotOpen,
            ConfigureError::AlreadyOngoing => ConfigureErrorView::AlreadyOngoing,
            ConfigureError::MissingAddress => ConfigureErrorView::MissingAddress,
            ConfigureError::MissingPassword => ConfigureErrorView::MissingPassword,
            ConfigureError::BadAddress => ConfigureErrorView::BadAddress,
            ConfigureError::ImapFailed => ConfigureErrorView::ImapFailed,
            ConfigureError::SmtpFailed => ConfigureErrorView::SmtpFailed,
            ConfigureError::Folders(reason) => ConfigureErrorView::Folders(reason@),
            ConfigureError::Inbox(reason) => ConfigureErrorView::Inbox(reason@),
            ConfigureError::SecretKey(reason) => ConfigureErrorView::SecretKey(reason@),
            ConfigureError::UnexpectedReply => ConfigureErrorView::UnexpectedReply,
        }
    }
}

impl DeepView for ConfigureError {
    type V = ConfigureErrorView;

    open spec fn deep_view(&self) -> ConfigureErrorView {
        self@
    }
}

impl Clone for ConfigureError {
    fn clone(&self) -> (res: Self)
        ensures
            res@ == self@,
    {
        match self {
            ConfigureError::AlreadyRunning => ConfigureError::AlreadyRunning,
            ConfigureError::DatabaseNotOpen => ConfigureError::DatabaseNotOpen,
            ConfigureError::AlreadyOngoing => ConfigureError::AlreadyOngoing,
            ConfigureError::MissingAddress => ConfigureError::MissingAddress,
            ConfigureError::MissingPassword => ConfigureError::MissingPassword,
            ConfigureError::BadAddress => ConfigureError::BadAddress,
            ConfigureError::ImapFailed => ConfigureError::ImapFailed,
            ConfigureError::SmtpFailed => ConfigureError::SmtpFailed,
            ConfigureError::Folders(reason) => ConfigureError::Folders(reason.clone()),
            ConfigureError::Inbox(reason) => ConfigureError::Inbox(reason.clone()),
            ConfigureError::SecretKey(reason) => ConfigureError::SecretKey(reason.clone()),
            ConfigureError::UnexpectedReply => ConfigureError::UnexpectedReply,
        }
    }
}

impl ConfigureErrorView {
    /// The error in words.
    pub open spec fn message(self) -> Seq<char> {
        match self {
            ConfigureErrorView::AlreadyRunning => "cannot configure, already running"@,
            ConfigureErrorView::DatabaseNotOpen => "cannot configure, database not opened."@,
            ConfigureErrorView::AlreadyOngoing => "cannot configure, another run is ongoing"@,
            ConfigureErrorView::MissingAddress => "Please enter an email address."@,
            ConfigureErrorView::MissingPassword => "Please enter a password."@,
            ConfigureErrorView::BadAddress => "Bad email-address"@,
            ConfigureErrorView::ImapFailed => "IMAP autoconfig did not succeed"@,
            ConfigureErrorView::SmtpFailed => "SMTP autoconfig did not succeed"@,
            ConfigureErrorView::Folders(reason) => reason,
            ConfigureErrorView::Inbox(reason) => "could not read INBOX status: "@ + reason,
            ConfigureErrorView::SecretKey(reason) => reason,
            ConfigureErrorView::UnexpectedReply => "reply does not belong to the command"@,
        }
    }
}

impl ConfigureError {
    /// The error in words.
    pub fn message(&self) -> (res: String)
        ensures
            res@ == self@.message(),
    {
        match self {
            ConfigureError::AlreadyRunning => String::from_str("cannot configure, already running"),
            ConfigureError::DatabaseNotOpen => String::from_str(
                "cannot configure, database not opened.",
            ),
            ConfigureError::AlreadyOngoing => String::from_str(
                "cannot configure, another run is ongoing",
            ),
            ConfigureError::MissingAddress => String::from_str("Please enter an email address."),
            ConfigureError::MissingPassword => String::from_str("Please enter a password."),
            ConfigureError::BadAddress => String::from_str("Bad email-address"),
            ConfigureError::ImapFailed => String::from_str("IMAP autoconfig did not succeed"),
            ConfigureError::SmtpFailed => String::from_str("SMTP autoconfig did not succeed"),
            ConfigureError::Folders(reason) => reason.clone(),
            ConfigureError::Inbox(reason) => String::from_str(
                "could not read INBOX status: ",
            ).concat(reason.as_str()),
            ConfigureError::SecretKey(reason) => reason.clone(),
            ConfigureError::UnexpectedReply => String::from_str(
                "reply does not belong to the command",
            ),
        }
    }
}

/// What a run asks for next.
#[derive(Debug)]
#[allow(inconsistent_fields)]
pub enum Command {
    /// Read the login parameters of the account from the configuration
    /// store.
    LoadLoginParam,
    /// Report progress: 0 for failure or cancellation, 1000 for success,
    /// anything between for a step on the way.
    EmitProgress(u16),
    /// Set a key of the configuration store, or clear it with `None`.
    SetConfig { key: Config, value: Option<String> },
    /// Set a boolean key of the configuration store.
    SetConfigBool { key: Config, value: bool },
    /// Read a boolean key of the configuration store.
    GetConfigBool { key: Config },
    /// Ask which address the OAuth2 provider has for these credentials.
    ResolveOauth2Address { addr: String, secret: String },
    /// Ask the offline knowledge base for the record of an address.
    LookupProvider { addr: String },
    /// Fetch and read the document of an online source, in the dialect of
    /// `provider`.
    Fetch { provider: AutoconfigProvider, url: String },
    /// Log in to the IMAP server.
    ConnectImap { param: ServerLoginParam, addr: String, oauth2: bool },
    /// Log in to the SMTP server.
    ConnectSmtp { param: ServerLoginParam, addr: String, oauth2: bool },
    /// Close the SMTP connection.
    DisconnectSmtp,
    /// Set up the folders of the mailbox.
    ConfigureFolders { create_mvbox: bool },
    /// Select a mailbox and read its state.
    SelectMailbox { name: String },
    /// Write the login parameters to the configuration store, each field
    /// under its name behind `prefix`.
    SaveLoginParam { param: LoginParam, prefix: String },
    /// Make sure that the account has a secret key.
    EnsureSecretKey,
    /// Ask whether a key of the configuration store has a value.
    ConfigExists { key: String },
    /// Set a key of the configuration store to a provider's default.
    SetDefault { key: String, value: String },
    /// Show a message of the device to the user.
    AddDeviceMessage { label: String, text: String },
    /// The run is over, with this result.
    Finish(Result<(), ConfigureError>),
}

/// Mathematical value of a [`Command`].
#[allow(inconsistent_fields)]
pub enum CommandView {
    LoadLoginParam,
    EmitProgress(u16),
    SetConfig { key: Config, value: Option<Seq<char>> },
    SetConfigBool { key: Config, value: bool },
    GetConfigBool { key: Config },
    ResolveOauth2Address { addr: Seq<char>, secret: Seq<char> },
    LookupProvider { addr: Seq<char> },
    Fetch { provider: AutoconfigProvider, url: Seq<char> },
    ConnectImap { param: ServerLoginParamView, addr: Seq<char>, oauth2: bool },
    ConnectSmtp { param: ServerLoginParamView, addr: Seq<char>, oauth2: bool },
    DisconnectSmtp,
    ConfigureFolders { create_mvbox: bool },
    SelectMailbox { name: Seq<char> },
    SaveLoginParam { param: LoginParamView, prefix: Seq<char> },
    EnsureSecretKey,
    ConfigExists { key: Seq<char> },
    SetDefault { key: Seq<char>, value: Seq<char> },
    AddDeviceMessage { label: Seq<char>, text: Seq<char> },
    Finish(Option<ConfigureErrorView>),
}

impl View for Command {
    type V = CommandView;

    open spec fn view(&self) -> CommandView {
        match self {
            Command::LoadLoginParam => CommandView::LoadLoginParam,
            Command::EmitProgress(value) => CommandView::EmitProgress(*value),
            Command::SetConfig { key, value } => CommandView::SetConfig {
                key: *key,
                value: value.deep_view(),
            },
            Command::SetConfigBool { key, value } => CommandView::SetConfigBool {
                key: *key,
                value: *value,
            },
            Command::GetConfigBool { key } => CommandView::GetConfigBool { key: *key },
            Command::ResolveOauth2Address { addr, secret } => CommandView::ResolveOauth2Address {
                addr: addr@,
                secret: secret@,
            },
            Command::LookupProvider { addr } => CommandView::LookupProvider { addr: addr@ },
            Command::Fetch { provider, url } => CommandView::Fetch {
                provider: *provider,
                url: url@,
            },
            Command::ConnectImap { param, addr, oauth2 } => CommandView::ConnectImap {
                param: param@,
                addr: addr@,
                oauth2: *oauth2,
            },
            Command::ConnectSmtp { param, addr, oauth2 } => CommandView::ConnectSmtp {
                param: param@,
                addr: addr@,
                oauth2: *oauth2,
            },
            Command::DisconnectSmtp => CommandView::DisconnectSmtp,
            Command::ConfigureFolders { create_mvbox } => CommandView::ConfigureFolders {
                create_mvbox: *create_mvbox,
            },
            Command::SelectMailbox { name } => CommandView::SelectMailbox { name: name@ },
            Command::SaveLoginParam { param, prefix } => CommandView::SaveLoginParam {
                param: param@,
                prefix: prefix@,
            },
            Command::EnsureSecretKey => CommandView::EnsureSecretKey,
            Command::ConfigExists { key } => CommandView::ConfigExists { key: key@ },
            Command::SetDefault { key, value } => CommandView::SetDefault {
                key: key@,
                value: value@,
            },
            Command::AddDeviceMessage { label, text } => CommandView::AddDeviceMessage {
                label: label@,
                text: text@,
            },
            Command::Finish(result) => CommandView::Finish(
                match result {
                    Ok(_) => None,
                    Err(error) => Some(error@),
                },
            ),
        }
    }
}

/// The answer to a command.
#[derive(Debug)]
pub enum Reply {
    /// The command was carried out; it has nothing to answer.
    Done,
    /// The run was cancelled while the command was under way.
    Cancelled,
    /// The login parameters of the account.
    LoginParam(LoginParam),
    /// The address that the OAuth2 provider has, if it has one.
    Address(Option<String>),
    /// The record of the knowledge base, if there is one.
    Provider(Option<ProviderInfo>),
    /// The settings that an online source gave, or why it gave none.
    Fetched(Result<Vec<ServerParams>, Error>),
    /// Whether the server accepted the login.
    Connected(bool),
    /// The value of a boolean key, or whether a key has a value.
    Flag(bool),
    /// Whether the command succeeded, and the reason if it did not.
    Completed(Result<(), String>),
}

/// Mathematical value of a [`Reply`].
pub enum ReplyView {
    Done,
    Cancelled,
    LoginParam(LoginParamView),
    Address(Option<Seq<char>>),
    Provider(Option<ProviderInfoView>),
    Fetched(Result<Seq<ServerParamsView>, ErrorView>),
    Connected(bool),
    Flag(bool),
    Completed(Result<(), Seq<char>>),
}

impl View for Reply {
    type V = ReplyView;

    open spec fn view(&self) -> ReplyView {
        match self {
            Reply::Done => ReplyView::Done,
            Reply::Cancelled => ReplyView::Cancelled,
            Reply::LoginParam(param) => ReplyView::LoginParam(param@),
            Reply::Address(addr) => ReplyView::Address(addr.deep_view()),
            Reply::Provider(info) => ReplyView::Provider(info.deep_view()),
            Reply::Fetched(result) => ReplyView::Fetched(
                match result {
                    Ok(servers) => Ok(servers.deep_view()),
                    Err(error) => Err(error@),
                },
            ),
            Reply::Connected(accepted) => ReplyView::Connected(*accepted),
            Reply::Flag(value) => ReplyView::Flag(*value),
            Reply::Completed(result) => ReplyView::Completed(
                match result {
                    Ok(_) => Ok(()),
                    Err(reason) => Err(reason@),
                },
            ),
        }
    }
}

} // verus!
