use mail_autoconfig::configure::command::{Command, Config, ConfigureError, Error, Reply};
use mail_autoconfig::configure::model::Stage;
use mail_autoconfig::configure::run::Run;
use mail_autoconfig::configure::server_params::ServerParams;
use mail_autoconfig::configure::source::{get_offline_autoconfig, AutoconfigProvider};
use mail_autoconfig::configure::Context;
use mail_autoconfig::login_param::{
    CertificateChecks, LoginParam, ServerLoginParam, DC_LP_AUTH_NORMAL, DC_LP_AUTH_OAUTH2,
};
use mail_autoconfig::provider::{
    ConfigDefault, Protocol, ProviderInfo, Server, Socket, Status, UsernamePattern,
};

fn blank_server(password: &str) -> ServerLoginParam {
    ServerLoginParam {
        server: String::new(),
        user: String::new(),
        password: password.to_string(),
        port: 0,
        security: Socket::Automatic,
        certificate_checks: CertificateChecks::Automatic,
    }
}

fn blank_param(addr: &str, password: &str) -> LoginParam {
    LoginParam {
        addr: addr.to_string(),
        imap: blank_server(password),
        smtp: blank_server(""),
        server_flags: 0,
    }
}

fn server(protocol: Protocol, socket: Socket, hostname: &str, port: u16) -> Server {
    Server {
        protocol,
        socket,
        hostname: hostname.to_string(),
        port,
        username_pattern: UsernamePattern::EMAIL,
    }
}

/// A knowledge base with one record.
fn get_provider_info(addr: &str) -> Option<ProviderInfo> {
    if addr.ends_with("@nauta.cu") {
        Some(ProviderInfo {
            status: Status::OK,
            server: vec![
                server(Protocol::IMAP, Socket::STARTTLS, "imap.nauta.cu", 143),
                server(Protocol::SMTP, Socket::STARTTLS, "smtp.nauta.cu", 25),
            ],
            config_defaults: Some(vec![
                ConfigDefault { key: "delete_server_after".to_string(), value: "1".to_string() },
                ConfigDefault { key: "mvbox_watch".to_string(), value: "0".to_string() },
            ]),
            after_login_hint: "Atention: mail is not free.".to_string(),
        })
    } else {
        None
    }
}

/// Surroundings of a run that answer from fixed rules and write down what
/// they were asked.
struct World {
    oauth2_addr: Option<String>,
    fetch_answers_at: Option<usize>,
    accepts: fn(Protocol, &ServerLoginParam) -> bool,
    folders: Result<(), String>,
    inbox: Result<(), String>,
    key: Result<(), String>,
    existing_keys: Vec<String>,
    cancel_after: Option<usize>,
    progress: Vec<u16>,
    fetched: Vec<(AutoconfigProvider, String)>,
    tried: Vec<(Protocol, String, String, u16, Socket, String)>,
    log: Vec<String>,
    saved: Option<LoginParam>,
    lookups: usize,
    stored: Option<LoginParam>,
}

impl World {
    fn new() -> World {
        World {
            oauth2_addr: None,
            fetch_answers_at: None,
            accepts: |_, _| false,
            folders: Ok(()),
            inbox: Ok(()),
            key: Ok(()),
            existing_keys: Vec::new(),
            cancel_after: None,
            progress: Vec::new(),
            fetched: Vec::new(),
            tried: Vec::new(),
            log: Vec::new(),
            saved: None,
            lookups: 0,
            stored: None,
        }
    }

    fn carry_out(&mut self, command: Command) -> Reply {
        match command {
            Command::LoadLoginParam => Reply::LoginParam(self.stored.take().unwrap()),
            Command::EmitProgress(value) => {
                self.progress.push(value);
                Reply::Done
            }
            Command::SetConfig { key, value } => {
                self.log.push(format!("set {:?}={:?}", key, value));
                Reply::Done
            }
            Command::SetConfigBool { key, value } => {
                self.log.push(format!("set {:?}={}", key, value));
                Reply::Done
            }
            Command::GetConfigBool { key } => {
                self.log.push(format!("get {:?}", key));
                Reply::Flag(key == Config::MvboxMove)
            }
            Command::ResolveOauth2Address { addr, secret } => {
                self.log.push(format!("oauth2 {} {}", addr, secret));
                Reply::Address(self.oauth2_addr.clone())
            }
            Command::LookupProvider { addr } => {
                self.lookups += 1;
                Reply::Provider(get_provider_info(&addr))
            }
            Command::Fetch { provider, url } => {
                let index = self.fetched.len();
                self.fetched.push((provider, url));
                if self.fetch_answers_at == Some(index) {
                    Reply::Fetched(Ok(vec![
                        ServerParams {
                            protocol: Protocol::IMAP,
                            hostname: "imap.found.example".to_string(),
                            port: 993,
                            socket: Socket::SSL,
                            username: String::new(),
                        },
                        ServerParams {
                            protocol: Protocol::SMTP,
                            hostname: "smtp.found.example".to_string(),
                            port: 0,
                            socket: Socket::STARTTLS,
                            username: "smtp-user".to_string(),
                        },
                    ]))
                } else {
                    Reply::Fetched(Err(match index {
                        0 => Error::RedirectionError,
                        1 => Error::InvalidXml {
                            position: 7,
                            error: "unexpected end".to_string(),
                        },
                        2 => Error::ReadUrlError("timeout".to_string()),
                        _ => Error::InvalidEmailAddress("nobody".to_string()),
                    }))
                }
            }
            Command::ConnectImap { param, addr, oauth2 } => {
                self.tried.push((
                    Protocol::IMAP,
                    param.user.clone(),
                    param.server.clone(),
                    param.port,
                    param.security,
                    format!("{} {} {}", addr, param.password, oauth2),
                ));
                Reply::Connected((self.accepts)(Protocol::IMAP, &param))
            }
            Command::ConnectSmtp { param, addr, oauth2 } => {
                self.tried.push((
                    Protocol::SMTP,
                    param.user.clone(),
                    param.server.clone(),
                    param.port,
                    param.security,
                    format!("{} {} {}", addr, param.password, oauth2),
                ));
                Reply::Connected((self.accepts)(Protocol::SMTP, &param))
            }
            Command::DisconnectSmtp => {
                self.log.push("disconnect".to_string());
                Reply::Done
            }
            Command::ConfigureFolders { create_mvbox } => {
                self.log.push(format!("folders {}", create_mvbox));
                Reply::Completed(self.folders.clone())
            }
            Command::SelectMailbox { name } => {
                self.log.push(format!("select {}", name));
                Reply::Completed(self.inbox.clone())
            }
            Command::SaveLoginParam { param, prefix } => {
                self.log.push(format!("save {}", prefix));
                self.saved = Some(param);
                Reply::Done
            }
            Command::EnsureSecretKey => {
                self.log.push("key".to_string());
                Reply::Completed(self.key.clone())
            }
            Command::ConfigExists { key } => {
                self.log.push(format!("exists {}", key));
                Reply::Flag(self.existing_keys.contains(&key))
            }
            Command::SetDefault { key, value } => {
                self.log.push(format!("default {}={}", key, value));
                Reply::Done
            }
            Command::AddDeviceMessage { label, text } => {
                self.log.push(format!("message {}: {}", label, text));
                Reply::Done
            }
            Command::Finish(_) => unreachable!(),
        }
    }

    /// Carries a run out to its result.
    fn configure(&mut self, ctx: &mut Context, param: LoginParam) -> Result<(), ConfigureError> {
        self.stored = Some(param);
        let mut command = ctx.configure(false, true)?;
        let mut steps = 0;
        loop {
            if let Command::Finish(result) = command {
                assert!(!ctx.is_ongoing());
                assert_never_falls(&self.progress);
                return result;
            }
            assert!(ctx.is_ongoing());
            let reported = matches!(command, Command::EmitProgress(_));
            let reply = if self.cancel_after == Some(steps) && !reported {
                Reply::Cancelled
            } else {
                self.carry_out(command)
            };
            steps += 1;
            assert!(steps < 10_000);
            command = ctx.step(reply).unwrap();
        }
    }
}

fn assert_never_falls(progress: &[u16]) {
    for (i, value) in progress.iter().enumerate() {
        assert!(*value <= 1000);
        if *value == 0 {
            assert_eq!(i, progress.len() - 1, "{:?}", progress);
        } else if i > 0 {
            assert!(progress[i - 1] <= *value, "{:?}", progress);
        }
    }
}

#[test]
fn test_no_panic_on_bad_credentials() {
    let mut world = World::new();
    let mut ctx = Context::new();
    let res = world.configure(&mut ctx, blank_param("probably@unexistant.addr", "123456"));
    assert!(res.is_err());
    assert!(matches!(res, Err(ConfigureError::ImapFailed)));
    assert_eq!(world.progress, vec![1, 200, 300, 310, 320, 330, 340, 500, 600, 0]);
    assert_eq!(world.fetched.len(), 5);
    let imap: Vec<_> = world.tried.iter().filter(|t| t.0 == Protocol::IMAP).collect();
    assert_eq!(imap.len(), 12);
    assert_eq!(world.tried.len(), 12);
    assert!(!ctx.is_ongoing());
}

#[test]
fn test_get_offline_autoconfig() {
    let addr = "someone123@example.org";
    assert!(get_offline_autoconfig(get_provider_info(addr).as_ref(), addr).is_none());

    let addr = "someone123@nauta.cu";
    let found_params = get_offline_autoconfig(get_provider_info(addr).as_ref(), addr).unwrap();
    assert_eq!(found_params.len(), 2);
    assert_eq!(found_params[0].protocol, Protocol::IMAP);
    assert_eq!(found_params[0].hostname, "imap.nauta.cu".to_string());
    assert_eq!(found_params[1].protocol, Protocol::SMTP);
    assert_eq!(found_params[1].hostname, "smtp.nauta.cu".to_string());
    assert_eq!(found_params[0].username, "someone123@nauta.cu");
    assert_eq!(found_params[0].port, 143);
    assert_eq!(found_params[0].socket, Socket::STARTTLS);
    assert_eq!(found_params[1].port, 25);
}

#[test]
fn offline_record_needs_a_working_provider_and_servers() {
    let addr = "someone123@nauta.cu";
    let mut info = get_provider_info(addr).unwrap();
    info.status = Status::BROKEN;
    assert!(get_offline_autoconfig(Some(&info), addr).is_none());
    info.status = Status::PREPARATION;
    assert_eq!(get_offline_autoconfig(Some(&info), addr).unwrap().len(), 2);
    info.server.clear();
    assert!(get_offline_autoconfig(Some(&info), addr).is_none());
    info.status = Status::OK;
    assert!(get_offline_autoconfig(Some(&info), addr).is_none());
    assert!(get_offline_autoconfig(None, addr).is_none());
}

#[test]
fn offline_record_derives_the_username() {
    let mut info = get_provider_info("x@nauta.cu").unwrap();
    info.server[0].username_pattern = UsernamePattern::EMAILLOCALPART;
    let found = get_offline_autoconfig(Some(&info), "someone123@nauta.cu").unwrap();
    assert_eq!(found[0].username, "someone123");
    assert_eq!(found[1].username, "someone123@nauta.cu");
    let found = get_offline_autoconfig(Some(&info), "noat").unwrap();
    assert_eq!(found[0].username, "noat");
}

#[test]
fn offline_record_is_used_without_any_fetch() {
    let mut world = World::new();
    world.accepts = |_, _| true;
    let mut ctx = Context::new();
    let res = world.configure(&mut ctx, blank_param("someone123@nauta.cu", "secret"));
    assert!(res.is_ok());
    assert!(world.fetched.is_empty());
    assert_eq!(
        world.tried,
        vec![
            (
                Protocol::IMAP,
                "someone123@nauta.cu".to_string(),
                "imap.nauta.cu".to_string(),
                143,
                Socket::STARTTLS,
                "someone123@nauta.cu secret false".to_string()
            ),
            (
                Protocol::SMTP,
                "someone123@nauta.cu".to_string(),
                "smtp.nauta.cu".to_string(),
                25,
                Socket::STARTTLS,
                "someone123@nauta.cu secret false".to_string()
            ),
        ]
    );
    assert_eq!(world.progress, vec![1, 200, 500, 600, 750, 900, 910, 920, 940, 1000]);
    assert_eq!(
        world.log,
        vec![
            "set NotifyAboutWrongPw=None",
            "disconnect",
            "get MvboxWatch",
            "get MvboxMove",
            "folders true",
            "select INBOX",
            "save configured_",
            "set Configured=true",
            "key",
            "exists delete_server_after",
            "default delete_server_after=1",
            "exists mvbox_watch",
            "default mvbox_watch=0",
            "message core-provider-info: Atention: mail is not free.",
            "set NotifyAboutWrongPw=Some(\"1\")",
        ]
    );
    let saved = world.saved.unwrap();
    assert_eq!(saved.addr, "someone123@nauta.cu");
    assert_eq!(saved.imap.server, "imap.nauta.cu");
    assert_eq!(saved.imap.port, 143);
    assert_eq!(saved.imap.security, Socket::STARTTLS);
    assert_eq!(saved.imap.user, "someone123@nauta.cu");
    assert_eq!(saved.imap.password, "secret");
    assert_eq!(saved.smtp.server, "smtp.nauta.cu");
    assert_eq!(saved.smtp.port, 25);
    assert_eq!(saved.smtp.password, "secret");
    assert_eq!(saved.server_flags, DC_LP_AUTH_NORMAL);
    assert_eq!(world.lookups, 2);
}

#[test]
fn existing_keys_keep_their_value() {
    let mut world = World::new();
    world.accepts = |_, _| true;
    world.existing_keys = vec!["delete_server_after".to_string()];
    let mut ctx = Context::new();
    assert!(world.configure(&mut ctx, blank_param("someone123@nauta.cu", "secret")).is_ok());
    let defaults: Vec<&String> = world.log.iter().filter(|l| l.starts_with("default")).collect();
    assert_eq!(defaults, vec!["default mvbox_watch=0"]);
}

#[test]
fn online_sources_are_asked_in_order() {
    let mut world = World::new();
    let mut ctx = Context::new();
    let res = world.configure(&mut ctx, blank_param("some one@example.org", "secret"));
    assert!(matches!(res, Err(ConfigureError::ImapFailed)));
    assert_eq!(
        world.fetched,
        vec![
            (
                AutoconfigProvider::Mozilla,
                "https://autoconfig.example.org/mail/config-v1.1.xml?emailaddress=some%20one%40example%2Eorg"
                    .to_string()
            ),
            (
                AutoconfigProvider::Mozilla,
                "https://example.org/.well-known/autoconfig/mail/config-v1.1.xml?emailaddress=some%20one%40example%2Eorg"
                    .to_string()
            ),
            (
                AutoconfigProvider::Outlook,
                "https://example.org/autodiscover/autodiscover.xml".to_string()
            ),
            (
                AutoconfigProvider::Outlook,
                "https://autodiscover.example.org/autodiscover/autodiscover.xml".to_string()
            ),
            (
                AutoconfigProvider::Mozilla,
                "https://autoconfig.thunderbird.net/v1.1/example.org".to_string()
            ),
        ]
    );
}

#[test]
fn first_answering_source_wins() {
    let mut world = World::new();
    world.fetch_answers_at = Some(2);
    world.accepts = |_, param| param.security == Socket::SSL || param.port == 587;
    let mut ctx = Context::new();
    let res = world.configure(&mut ctx, blank_param("u@example.org", "secret"));
    assert!(res.is_ok());
    assert_eq!(world.fetched.len(), 3);
    assert_eq!(world.progress, vec![1, 200, 300, 310, 320, 500, 600, 750, 900, 910, 920, 940, 1000]);
    let tried: Vec<(Protocol, String, String, u16, Socket)> = world
        .tried
        .iter()
        .map(|t| (t.0, t.1.clone(), t.2.clone(), t.3, t.4))
        .collect();
    assert_eq!(
        tried,
        vec![
            (Protocol::IMAP, "u@example.org".to_string(), "imap.found.example".to_string(), 993, Socket::SSL),
            (Protocol::SMTP, "smtp-user".to_string(), "smtp.found.example".to_string(), 587, Socket::STARTTLS),
        ]
    );
    assert!(!world.log.iter().any(|l| l.starts_with("default") || l.starts_with("message")));
}

#[test]
fn fallback_tries_every_candidate_in_order() {
    let mut world = World::new();
    world.accepts = |protocol, param| {
        protocol == Protocol::IMAP && param.user == "u" && param.server == "mail.example.org" && param.port == 993
    };
    let mut ctx = Context::new();
    let res = world.configure(&mut ctx, blank_param("u@example.org", "secret"));
    assert!(matches!(res, Err(ConfigureError::SmtpFailed)));
    let mut expected = Vec::new();
    for user in ["u@example.org", "u"] {
        for host in ["example.org", "imap.example.org", "mail.example.org"] {
            expected.push((Protocol::IMAP, user.to_string(), host.to_string(), 143, Socket::STARTTLS));
            expected.push((Protocol::IMAP, user.to_string(), host.to_string(), 993, Socket::SSL));
        }
    }
    for user in ["u@example.org", "u"] {
        for host in ["example.org", "smtp.example.org", "mail.example.org"] {
            expected.push((Protocol::SMTP, user.to_string(), host.to_string(), 587, Socket::STARTTLS));
            expected.push((Protocol::SMTP, user.to_string(), host.to_string(), 465, Socket::SSL));
        }
    }
    let tried: Vec<(Protocol, String, String, u16, Socket)> = world
        .tried
        .iter()
        .map(|t| (t.0, t.1.clone(), t.2.clone(), t.3, t.4))
        .collect();
    assert_eq!(tried, expected);
    assert_eq!(world.progress, vec![1, 200, 300, 310, 320, 330, 340, 500, 600, 750, 0]);
    assert_never_falls(&world.progress);
}

#[test]
fn advanced_settings_skip_discovery() {
    let mut world = World::new();
    world.accepts = |_, _| true;
    let mut param = blank_param("someone123@nauta.cu", "secret");
    param.imap.server = "mx.example.org".to_string();
    param.smtp.password = "other".to_string();
    let mut ctx = Context::new();
    assert!(world.configure(&mut ctx, param).is_ok());
    assert!(world.fetched.is_empty());
    assert_eq!(world.lookups, 1);
    assert_eq!(world.progress, vec![1, 200, 500, 600, 750, 900, 910, 920, 940, 1000]);
    assert_eq!(world.tried[0].2, "mx.example.org");
    assert_eq!(world.tried[0].3, 143);
    assert_eq!(world.tried[1].2, "nauta.cu");
    assert_eq!(world.tried[1].5, "someone123@nauta.cu other false");
}

#[test]
fn validation_failures() {
    let cases: [(&str, &str, fn(&ConfigureError) -> bool, &str); 4] = [
        ("", "secret", |e| matches!(e, ConfigureError::MissingAddress), "Please enter an email address."),
        ("u@example.org", "", |e| matches!(e, ConfigureError::MissingPassword), "Please enter a password."),
        ("example.org", "secret", |e| matches!(e, ConfigureError::BadAddress), "Bad email-address"),
        ("u@", "secret", |e| matches!(e, ConfigureError::BadAddress), "Bad email-address"),
    ];
    for (addr, password, is_expected, message) in cases {
        let mut world = World::new();
        let mut ctx = Context::new();
        let error = world.configure(&mut ctx, blank_param(addr, password)).unwrap_err();
        assert!(is_expected(&error), "{:?}", error);
        assert_eq!(error.message(), message);
        let reported: Vec<u16> = if matches!(error, ConfigureError::BadAddress) {
            vec![1, 0]
        } else {
            vec![0]
        };
        assert_eq!(world.progress, reported);
        assert!(world.fetched.is_empty());
        assert!(world.tried.is_empty());
        assert_eq!(world.log, vec!["set NotifyAboutWrongPw=None"]);
    }
}

#[test]
fn oauth2_address_is_resolved_and_stored() {
    let mut world = World::new();
    world.oauth2_addr = Some("canonical@nauta.cu".to_string());
    world.accepts = |_, _| true;
    let mut param = blank_param("alias@example.org", "token");
    param.server_flags = DC_LP_AUTH_OAUTH2 | 0x100;
    let mut ctx = Context::new();
    assert!(world.configure(&mut ctx, param).is_ok());
    assert_eq!(world.progress, vec![1, 10, 20, 200, 500, 600, 750, 900, 910, 920, 940, 1000]);
    assert_eq!(world.log[1], "oauth2 alias@example.org token");
    assert_eq!(world.log[2], "set Addr=Some(\"canonical@nauta.cu\")");
    assert_eq!(world.tried[0].5, "canonical@nauta.cu token true");
    let saved = world.saved.unwrap();
    assert_eq!(saved.addr, "canonical@nauta.cu");
    assert_eq!(saved.server_flags, DC_LP_AUTH_OAUTH2 | 0x100);
}

#[test]
fn oauth2_without_another_address_keeps_the_address() {
    let mut world = World::new();
    let mut param = blank_param("u@example.org", "token");
    param.server_flags = DC_LP_AUTH_OAUTH2;
    let mut ctx = Context::new();
    assert!(world.configure(&mut ctx, param).is_err());
    assert_eq!(world.progress[..4], [1, 10, 20, 200]);
    assert!(!world.log.iter().any(|l| l.starts_with("set Addr")));
    assert!(world.tried[0].5.ends_with("true"));
}

#[test]
fn mailbox_failures_end_the_run() {
    let mut world = World::new();
    world.accepts = |_, _| true;
    world.folders = Err("no folders".to_string());
    let mut ctx = Context::new();
    let error = world.configure(&mut ctx, blank_param("someone123@nauta.cu", "s")).unwrap_err();
    assert!(matches!(&error, ConfigureError::Folders(reason) if reason == "no folders"));
    assert_eq!(error.message(), "no folders");
    assert_eq!(world.progress, vec![1, 200, 500, 600, 750, 900, 0]);

    let mut world = World::new();
    world.accepts = |_, _| true;
    world.inbox = Err("gone".to_string());
    let error = world.configure(&mut ctx, blank_param("someone123@nauta.cu", "s")).unwrap_err();
    assert!(matches!(&error, ConfigureError::Inbox(reason) if reason == "gone"));
    assert_eq!(error.message(), "could not read INBOX status: gone");
    assert_eq!(world.progress, vec![1, 200, 500, 600, 750, 900, 0]);

    let mut world = World::new();
    world.accepts = |_, _| true;
    world.key = Err("no entropy".to_string());
    let error = world.configure(&mut ctx, blank_param("someone123@nauta.cu", "s")).unwrap_err();
    assert!(matches!(&error, ConfigureError::SecretKey(reason) if reason == "no entropy"));
    assert_eq!(world.progress, vec![1, 200, 500, 600, 750, 900, 910, 920, 0]);
    assert!(world.log.contains(&"set Configured=true".to_string()));
    assert!(!world.log.iter().any(|l| l.contains("Some(\"1\")")));
    assert!(world.log.iter().any(|l| l.starts_with("default")));
}

#[test]
fn cancellation_reports_zero_once_and_is_no_error() {
    for cancel_after in 0..40 {
        let mut world = World::new();
        world.accepts = |_, _| true;
        world.cancel_after = Some(cancel_after);
        let mut ctx = Context::new();
        let res = world.configure(&mut ctx, blank_param("someone123@nauta.cu", "secret"));
        assert!(res.is_ok(), "cancelled after {}", cancel_after);
        assert!(!ctx.is_ongoing());
        assert_never_falls(&world.progress);
        let zeros = world.progress.iter().filter(|v| **v == 0).count();
        if world.progress.last() == Some(&1000) {
            assert_eq!(zeros, 0);
        } else {
            assert_eq!(zeros, 1, "cancelled after {}: {:?}", cancel_after, world.progress);
        }
        let mut again = World::new();
        again.accepts = |_, _| true;
        assert!(again.configure(&mut ctx, blank_param("someone123@nauta.cu", "secret")).is_ok());
        assert_eq!(again.progress.last(), Some(&1000));
    }
}

#[test]
fn cancellation_after_a_failure_was_reported_keeps_the_failure() {
    let (run, command) = Run::start();
    assert!(matches!(command, Command::SetConfig { key: Config::NotifyAboutWrongPw, value: None }));
    let (run, command) = run.step(Reply::Done);
    assert!(matches!(command, Command::LoadLoginParam));
    assert_eq!(run.stage(), Stage::LoadingParam);
    let (run, command) = run.step(Reply::LoginParam(blank_param("", "secret")));
    assert!(matches!(command, Command::LookupProvider { .. }));
    let (run, command) = run.step(Reply::Provider(None));
    assert!(matches!(command, Command::EmitProgress(0)));
    assert_eq!(run.stage(), Stage::Failing);
    assert_eq!(run.progress(), 0);
    let (run, command) = run.step(Reply::Cancelled);
    assert!(matches!(command, Command::Finish(Err(ConfigureError::MissingAddress))));
    assert!(run.is_finished());
    let (run, command) = run.step(Reply::Done);
    assert!(matches!(command, Command::Finish(Err(ConfigureError::MissingAddress))));
    assert!(run.is_finished());
}

#[test]
fn only_one_run_at_a_time() {
    let mut ctx = Context::new();
    assert!(!ctx.is_ongoing());
    assert!(ctx.step(Reply::Done).is_none());
    assert!(matches!(ctx.configure(true, true), Err(ConfigureError::AlreadyRunning)));
    assert!(matches!(ctx.configure(true, false), Err(ConfigureError::AlreadyRunning)));
    assert!(matches!(ctx.configure(false, false), Err(ConfigureError::DatabaseNotOpen)));
    assert!(!ctx.is_ongoing());
    assert!(ctx.configure(false, true).is_ok());
    assert!(ctx.is_ongoing());
    let second = ctx.configure(false, true);
    assert!(matches!(&second, Err(ConfigureError::AlreadyOngoing)));
    assert_eq!(second.unwrap_err().message(), "cannot configure, another run is ongoing");
    assert!(ctx.is_ongoing());
    assert!(matches!(ctx.step(Reply::Cancelled), Some(Command::EmitProgress(0))));
    assert!(ctx.is_ongoing());
    assert!(matches!(ctx.step(Reply::Done), Some(Command::Finish(Ok(())))));
    assert!(!ctx.is_ongoing());
    assert!(ctx.configure(false, true).is_ok());
}

#[test]
fn a_reply_that_does_not_belong_ends_the_run() {
    let (run, _) = Run::start();
    let (run, _) = run.step(Reply::Done);
    let (run, _) = run.step(Reply::LoginParam(blank_param("u@example.org", "secret")));
    let (run, command) = run.step(Reply::Connected(true));
    assert!(matches!(command, Command::EmitProgress(0)));
    let (run, command) = run.step(Reply::Done);
    assert!(matches!(&command, Command::Finish(Err(ConfigureError::UnexpectedReply))));
    assert!(run.is_finished());
    assert_eq!(run.param().addr, "u@example.org");
    assert_eq!(run.progress(), 0);
}

#[test]
fn trial_as_a_line_of_the_log() {
    let mut param = blank_server("secret");
    param.user = "u@example.org".to_string();
    param.server = "imap.example.org".to_string();
    param.port = 993;
    param.security = Socket::SSL;
    assert_eq!(
        param.describe(Protocol::IMAP, false),
        "imap: u@example.org@imap.example.org:993 security=SSL certificate_checks=Automatic oauth2=false"
    );
    param.certificate_checks = CertificateChecks::AcceptInvalidCertificates;
    param.security = Socket::STARTTLS;
    param.port = 0;
    assert_eq!(
        param.describe(Protocol::SMTP, true),
        "smtp: u@example.org@imap.example.org:0 security=STARTTLS certificate_checks=AcceptInvalidCertificates oauth2=true"
    );
    param.certificate_checks = CertificateChecks::Strict;
    param.security = Socket::Plain;
    assert!(param.describe(Protocol::SMTP, true).contains("security=Plain certificate_checks=Strict"));
    assert!(blank_server("").describe(Protocol::IMAP, false).contains("security=Automatic"));
}

#[test]
fn what_the_user_entered() {
    let mut param = blank_param("u@example.org", "secret");
    assert!(param.is_blank());
    assert!(LoginParam::new().is_blank());
    param.smtp.port = 25;
    assert!(!param.is_blank());
    assert!(param.imap.is_blank());
    let entered = param.entered();
    assert_eq!(entered.len(), 2);
    assert_eq!(entered[0].protocol, Protocol::IMAP);
    assert_eq!(entered[1].protocol, Protocol::SMTP);
    assert_eq!(entered[1].port, 25);
    assert_eq!(entered[0].hostname, "");
    let candidate = ServerParams {
        protocol: Protocol::SMTP,
        hostname: "mx".to_string(),
        port: 465,
        socket: Socket::SSL,
        username: "u".to_string(),
    };
    param.smtp.set_candidate(&candidate);
    assert_eq!(param.smtp.server, "mx");
    assert_eq!(param.smtp.port, 465);
    assert_eq!(param.smtp.security, Socket::SSL);
    assert_eq!(param.smtp.user, "u");
    assert_eq!(param.smtp.password, "");
}

#[test]
fn names_of_the_keys() {
    assert_eq!(Config::Addr.name(), "addr");
    assert_eq!(Config::Configured.name(), "configured");
    assert_eq!(Config::MvboxMove.name(), "mvbox_move");
    assert_eq!(Config::MvboxWatch.name(), "mvbox_watch");
    assert_eq!(Config::NotifyAboutWrongPw.name(), "notify_about_wrong_pw");
}

#[test]
fn precondition_messages() {
    assert_eq!(ConfigureError::AlreadyRunning.message(), "cannot configure, already running");
    assert_eq!(ConfigureError::DatabaseNotOpen.message(), "cannot configure, database not opened.");
    assert_eq!(ConfigureError::ImapFailed.message(), "IMAP autoconfig did not succeed");
    assert_eq!(ConfigureError::SmtpFailed.message(), "SMTP autoconfig did not succeed");
    assert_eq!(ConfigureError::SecretKey("x".to_string()).message(), "x");
}
