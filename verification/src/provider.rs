//! Records of the offline provider knowledge base.
//!
//! The knowledge base itself is a collaborator: it is asked for the record of
//! an address and answers with a [`ProviderInfo`] or with nothing. This module
//! holds the shape of such a record.

use vstd::prelude::*;

verus! {

/// Mail protocol that a server descriptor speaks.
#[derive(Clone, Copy, Debug, PartialEq, Eq, Structural)]
pub enum Protocol {
    IMAP,
    SMTP,
}

/// Transport security of a connection.
#[derive(Clone, Copy, Debug, PartialEq, Eq, Structural)]
pub enum Socket {
    /// Not decided yet: the secure modes are tried in turn.
    Automatic,
    /// TLS from the first byte.
    SSL,
    /// Plaintext connection upgraded to TLS.
    STARTTLS,
    /// No transport security.
    Plain,
}

/// How the login name is derived from the address.
#[derive(Clone, Copy, Debug, PartialEq, Eq, Structural)]
pub enum UsernamePattern {
    /// The full address.
    EMAIL,
    /// The part of the address before the first `@`.
    EMAILLOCALPART,
}

/// How well a provider is known to work.
#[derive(Clone, Copy, Debug, PartialEq, Eq, Structural)]
pub enum Status {
    OK,
    PREPARATION,
    BROKEN,
}

/// One server of a provider record.
#[derive(Debug)]
pub struct Server {
    pub protocol: Protocol,
    pub socket: Socket,
    pub hostname: String,
    pub port: u16,
    pub username_pattern: UsernamePattern,
}

/// Mathematical value of a [`Server`].
pub struct ServerView {
    pub protocol: Protocol,
    pub socket: Socket,
    pub hostname: Seq<char>,
    pub port: u16,
    pub username_pattern: UsernamePattern,
}

impl View for Server {
    type V = ServerView;

    open spec fn view(&self) -> ServerView {
        ServerView {
            protocol: self.protocol,
            socket: self.socket,
            hostname: self.hostname@,
            port: self.port,
            username_pattern: self.username_pattern,
        }
    }
}

impl DeepView for Server {
    type V = ServerView;

    open spec fn deep_view(&self) -> ServerView {
        self@
    }
}

impl Clone for Server {
    fn clone(&self) -> (res: Self)
        ensures
            res@ == self@,
    {
        Server {
            protocol: self.protocol,
            socket: self.socket,
            hostname: self.hostname.clone(),
            port: self.port,
            username_pattern: self.username_pattern,
        }
    }
}

/// A configuration value that a provider wants set unless the user chose one.
#[derive(Debug)]
pub struct ConfigDefault {
    pub key: String,
    pub value: String,
}

/// Mathematical value of a [`ConfigDefault`].
pub struct ConfigDefaultView {
    pub key: Seq<char>,
    pub value: Seq<char>,
}

impl View for ConfigDefault {
    type V = ConfigDefaultView;

    open spec fn view(&self) -> ConfigDefaultView {
        ConfigDefaultView { key: self.key@, value: self.value@ }
    }
}

impl DeepView for ConfigDefault {
    type V = ConfigDefaultView;

    open spec fn deep_view(&self) -> ConfigDefaultView {
        self@
    }
}

impl Clone for ConfigDefault {
    fn clone(&self) -> (res: Self)
        ensures
            res@ == self@,
    {
        ConfigDefault { key: self.key.clone(), value: self.value.clone() }
    }
}

/// What the knowledge base knows of one provider.
#[derive(Debug)]
pub struct ProviderInfo {
    pub status: Status,
    /// Servers in the order in which they are to be tried.
    pub server: Vec<Server>,
    /// Configuration values to set where the user has set none.
    pub config_defaults: Option<Vec<ConfigDefault>>,
    /// Text shown to the user after login; empty if there is none.
    pub after_login_hint: String,
}

/// Mathematical value of a [`ProviderInfo`].
pub struct ProviderInfoView {
    pub status: Status,
    pub server: Seq<ServerView>,
    pub config_defaults: Option<Seq<ConfigDefaultView>>,
    pub after_login_hint: Seq<char>,
}

impl View for ProviderInfo {
    type V = ProviderInfoView;

    open spec fn view(&self) -> ProviderInfoView {
        ProviderInfoView {
            status: self.status,
            server: self.server.deep_view(),
            config_defaults: self.config_defaults.deep_view(),
            after_login_hint: self.after_login_hint@,
        }
    }
}

impl DeepView for ProviderInfo {
    type V = ProviderInfoView;

    open spec fn deep_view(&self) -> ProviderInfoView {
        self@
    }
}

} // verus!
