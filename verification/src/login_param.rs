//! Login parameters of an account.

use crate::configure::server_params::{ServerParams, ServerParamsView};
use crate::provider::{Protocol, Socket};
use crate::text::{decimal, to_decimal};
use vstd::prelude::*;
use vstd::string::*;

verus! {

/// Flag of `server_flags`: authenticate with OAuth2.
pub const DC_LP_AUTH_OAUTH2: i32 = 0x2;

/// Flag of `server_flags`: authenticate with the password.
pub const DC_LP_AUTH_NORMAL: i32 = 0x4;

/// The bits of `server_flags` that choose the authentication.
pub const DC_LP_AUTH_FLAGS: i32 = 0x6;

/// How strictly the server's certificate is checked.
#[derive(Clone, Copy, Debug, PartialEq, Eq, Structural)]
pub enum CertificateChecks {
    Automatic,
    Strict,
    AcceptInvalidCertificates,
}

/// Whether the flags ask for OAuth2: of the two authentication bits exactly
/// the OAuth2 bit is set.
pub open spec fn is_oauth2(flags: i32) -> bool {
    flags & DC_LP_AUTH_FLAGS == DC_LP_AUTH_OAUTH2
}

/// The flags with exactly one authentication bit: OAuth2 where the flags ask
/// for it, the password otherwise. The other bits stay.
pub open spec fn normalized_flags(flags: i32) -> i32 {
    (flags & !DC_LP_AUTH_FLAGS) | if is_oauth2(flags) {
        DC_LP_AUTH_OAUTH2
    } else {
        DC_LP_AUTH_NORMAL
    }
}

/// Normalizes the authentication bits and tells whether OAuth2 is used.
pub fn normalize_auth_flags(flags: i32) -> (res: (i32, bool))
    ensures
        res.0 == normalized_flags(flags),
        res.1 == is_oauth2(flags),
{
    let oauth2 = flags & DC_LP_AUTH_FLAGS == DC_LP_AUTH_OAUTH2;
    let cleared = flags & !DC_LP_AUTH_FLAGS;
    let flags = if oauth2 {
        cleared | DC_LP_AUTH_OAUTH2
    } else {
        cleared | DC_LP_AUTH_NORMAL
    };
    (flags, oauth2)
}

/// Normalized flags name one authentication, keep every other bit, keep the
/// choice of OAuth2, and are not changed by normalizing again.
pub proof fn lemma_normalized_flags(flags: i32)
    ensures
        normalized_flags(flags) & DC_LP_AUTH_FLAGS == if is_oauth2(flags) {
            DC_LP_AUTH_OAUTH2
        } else {
            DC_LP_AUTH_NORMAL
        },
        normalized_flags(flags) & !DC_LP_AUTH_FLAGS == flags & !DC_LP_AUTH_FLAGS,
        is_oauth2(normalized_flags(flags)) == is_oauth2(flags),
        normalized_flags(normalized_flags(flags)) == normalized_flags(flags),
{
    let n = normalized_flags(flags);
    assert(((flags & !0x6i32) | 0x2i32) & 0x6i32 == 0x2i32) by (bit_vector);
    assert(((flags & !0x6i32) | 0x4i32) & 0x6i32 == 0x4i32) by (bit_vector);
    assert(((flags & !0x6i32) | 0x2i32) & !0x6i32 == flags & !0x6i32) by (bit_vector);
    assert(((flags & !0x6i32) | 0x4i32) & !0x6i32 == flags & !0x6i32) by (bit_vector);
    assert(0x2i32 != 0x4i32);
}

/// The name of a protocol in the log.
pub open spec fn protocol_name(protocol: Protocol) -> Seq<char> {
    match protocol {
        Protocol::IMAP => "imap"@,
        Protocol::SMTP => "smtp"@,
    }
}

/// The name of a socket security in the log.
pub open spec fn socket_name(socket: Socket) -> Seq<char> {
    match socket {
        Socket::Automatic => "Automatic"@,
        Socket::SSL => "SSL"@,
        Socket::STARTTLS => "STARTTLS"@,
        Socket::Plain => "Plain"@,
    }
}

/// The name of a certificate policy in the log.
pub open spec fn certificate_checks_name(checks: CertificateChecks) -> Seq<char> {
    match checks {
        CertificateChecks::Automatic => "Automatic"@,
        CertificateChecks::Strict => "Strict"@,
        CertificateChecks::AcceptInvalidCertificates => "AcceptInvalidCertificates"@,
    }
}

/// The name of a truth value in the log.
pub open spec fn bool_name(value: bool) -> Seq<char> {
    if value {
        "true"@
    } else {
        "false"@
    }
}

/// Login parameters of one server.
#[derive(Debug)]
pub struct ServerLoginParam {
    pub server: String,
    pub user: String,
    pub password: String,
    pub port: u16,
    pub security: Socket,
    pub certificate_checks: CertificateChecks,
}

/// Mathematical value of a [`ServerLoginParam`].
pub struct ServerLoginParamView {
    pub server: Seq<char>,
    pub user: Seq<char>,
    pub password: Seq<char>,
    pub port: u16,
    pub security: Socket,
    pub certificate_checks: CertificateChecks,
}

impl View for ServerLoginParam {
    type V = ServerLoginParamView;

    open spec fn view(&self) -> ServerLoginParamView {
        ServerLoginParamView {
            server: self.server@,
            user: self.user@,
            password: self.password@,
            port: self.port,
            security: self.security,
            certificate_checks: self.certificate_checks,
        }
    }
}

impl Clone for ServerLoginParam {
    fn clone(&self) -> (res: Self)
        ensures
            res@ == self@,
    {
        ServerLoginParam {
            server: self.server.clone(),
            user: self.user.clone(),
            password: self.password.clone(),
            port: self.port,
            security: self.security,
            certificate_checks: self.certificate_checks,
        }
    }
}

impl ServerLoginParamView {
    /// Parameters with nothing entered.
    pub open spec fn blank() -> ServerLoginParamView {
        ServerLoginParamView {
            server: Seq::empty(),
            user: Seq::empty(),
            password: Seq::empty(),
            port: 0,
            security: Socket::Automatic,
            certificate_checks: CertificateChecks::Automatic,
        }
    }

    /// Whether the user left every advanced setting of the server open.
    pub open spec fn is_blank(self) -> bool {
        &&& self.server.len() == 0
        &&& self.port == 0
        &&& self.security == Socket::Automatic
        &&& self.user.len() == 0
    }

    /// What the user entered for the server, as a descriptor of `protocol`.
    pub open spec fn entered(self, protocol: Protocol) -> ServerParamsView {
        ServerParamsView {
            protocol,
            hostname: self.server,
            port: self.port,
            socket: self.security,
            username: self.user,
        }
    }

    /// One line for the log that says which login is tried: protocol, user,
    /// host, port, socket security, certificate policy and whether OAuth2
    /// is used. The password is left out.
    pub open spec fn describe(self, protocol: Protocol, oauth2: bool) -> Seq<char> {
        protocol_name(protocol) + ": "@ + self.user + "@"@ + self.server + ":"@ + decimal(
            self.port as nat,
        ) + " security="@ + socket_name(self.security) + " certificate_checks="@
            + certificate_checks_name(self.certificate_checks) + " oauth2="@ + bool_name(oauth2)
    }

    /// The parameters with a candidate written into them. Password and
    /// certificate checks stay.
    pub open spec fn with_candidate(self, candidate: ServerParamsView) -> ServerLoginParamView {
        ServerLoginParamView {
            server: candidate.hostname,
            user: candidate.username,
            port: candidate.port,
            security: candidate.socket,
            ..self
        }
    }
}

impl ServerLoginParam {
    /// Parameters with nothing entered.
    pub fn new() -> (res: ServerLoginParam)
        ensures
            res@ == ServerLoginParamView::blank(),
    {
        ServerLoginParam {
            server: String::new(),
            user: String::new(),
            password: String::new(),
            port: 0,
            security: Socket::Automatic,
            certificate_checks: CertificateChecks::Automatic,
        }
    }

    /// Whether the user left every advanced setting of the server open.
    pub fn is_blank(&self) -> (res: bool)
        ensures
            res == self@.is_blank(),
    {
        self.server.as_str().is_empty() && self.port == 0 && self.security == Socket::Automatic
            && self.user.as_str().is_empty()
    }

    /// What the user entered for the server, as a descriptor of `protocol`.
    pub fn entered(&self, protocol: Protocol) -> (res: ServerParams)
        ensures
            res@ == self@.entered(protocol),
    {
        ServerParams {
            protocol,
            hostname: self.server.clone(),
            port: self.port,
            socket: self.security,
            username: self.user.clone(),
        }
    }

    /// One line for the log that says which login is tried.
    pub fn describe(&self, protocol: Protocol, oauth2: bool) -> (res: String)
        ensures
            res@ == self@.describe(protocol, oauth2),
    {
        let protocol_name = match protocol {
            Protocol::IMAP => "imap",
            Protocol::SMTP => "smtp",
        };
        let socket_name = match self.security {
            Socket::Automatic => "Automatic",
            Socket::SSL => "SSL",
            Socket::STARTTLS => "STARTTLS",
            Socket::Plain => "Plain",
        };
        let checks_name = match self.certificate_checks {
            CertificateChecks::Automatic => "Automatic",
            CertificateChecks::Strict => "Strict",
            CertificateChecks::AcceptInvalidCertificates => "AcceptInvalidCertificates",
        };
        let oauth2_name = if oauth2 {
            "true"
        } else {
            "false"
        };
        String::from_str(protocol_name).concat(": ").concat(self.user.as_str()).concat("@").concat(
            self.server.as_str(),
        ).concat(":").concat(to_decimal(self.port as u64).as_str()).concat(" security=").concat(
            socket_name,
        ).concat(" certificate_checks=").concat(checks_name).concat(" oauth2=").concat(oauth2_name)
    }

    /// Writes a candidate into the parameters.
    pub fn set_candidate(&mut self, candidate: &ServerParams)
        ensures
            final(self)@ == old(self)@.with_candidate(candidate@),
    {
        self.user = candidate.username.clone();
        self.server = candidate.hostname.clone();
        self.port = candidate.port;
        self.security = candidate.socket;
    }
}

/// Login parameters of an account: the address and its two servers.
#[derive(Debug)]
pub struct LoginParam {
    pub addr: String,
    pub imap: ServerLoginParam,
    pub smtp: ServerLoginParam,
    pub server_flags: i32,
}

/// Mathematical value of a [`LoginParam`].
pub struct LoginParamView {
    pub addr: Seq<char>,
    pub imap: ServerLoginParamView,
    pub smtp: ServerLoginParamView,
    pub server_flags: i32,
}

impl View for LoginParam {
    type V = LoginParamView;

    open spec fn view(&self) -> LoginParamView {
        LoginParamView {
            addr: self.addr@,
            imap: self.imap@,
            smtp: self.smtp@,
            server_flags: self.server_flags,
        }
    }
}

impl Clone for LoginParam {
    fn clone(&self) -> (res: Self)
        ensures
            res@ == self@,
    {
        LoginParam {
            addr: self.addr.clone(),
            imap: self.imap.clone(),
            smtp: self.smtp.clone(),
            server_flags: self.server_flags,
        }
    }
}

impl LoginParamView {
    /// Parameters with nothing entered.
    pub open spec fn blank() -> LoginParamView {
        LoginParamView {
            addr: Seq::empty(),
            imap: ServerLoginParamView::blank(),
            smtp: ServerLoginParamView::blank(),
            server_flags: 0,
        }
    }

    /// Whether the user entered no advanced setting at all.
    pub open spec fn is_blank(self) -> bool {
        self.imap.is_blank() && self.smtp.is_blank()
    }

    /// What the user entered, as one descriptor for IMAP and one for SMTP.
    pub open spec fn entered(self) -> Seq<ServerParamsView> {
        seq![self.imap.entered(Protocol::IMAP), self.smtp.entered(Protocol::SMTP)]
    }
}

impl LoginParam {
    /// Parameters with nothing entered.
    pub fn new() -> (res: LoginParam)
        ensures
            res@ == LoginParamView::blank(),
    {
        LoginParam {
            addr: String::new(),
            imap: ServerLoginParam::new(),
            smtp: ServerLoginParam::new(),
            server_flags: 0,
        }
    }

    /// Whether the user entered no advanced setting at all.
    pub fn is_blank(&self) -> (res: bool)
        ensures
            res == self@.is_blank(),
    {
        self.imap.is_blank() && self.smtp.is_blank()
    }

    /// What the user entered, as one descriptor for IMAP and one for SMTP.
    pub fn entered(&self) -> (res: Vec<ServerParams>)
        ensures
            res.deep_view() == self@.entered(),
    {
        let mut res: Vec<ServerParams> = Vec::new();
        res.push(self.imap.entered(Protocol::IMAP));
        res.push(self.smtp.entered(Protocol::SMTP));
        assert(res.deep_view() =~= self@.entered());
        res
    }
}

} // verus!
