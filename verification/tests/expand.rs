use mail_autoconfig::configure::server_params::{expand_candidates, Expansion, ServerParams};
use mail_autoconfig::provider::{Protocol, Socket};

fn descriptor(
    protocol: Protocol,
    hostname: &str,
    port: u16,
    socket: Socket,
    username: &str,
) -> ServerParams {
    ServerParams {
        protocol,
        hostname: hostname.to_string(),
        port,
        socket,
        username: username.to_string(),
    }
}

fn summary(list: &[ServerParams]) -> Vec<(Protocol, String, u16, Socket, String)> {
    list.iter()
        .map(|p| (p.protocol, p.hostname.clone(), p.port, p.socket, p.username.clone()))
        .collect()
}

#[test]
fn ports_of_unknown_endpoint_imap() {
    let res = descriptor(Protocol::IMAP, "imap.example.org", 0, Socket::Automatic, "alice")
        .expand_ports();
    assert_eq!(
        summary(&res),
        vec![
            (Protocol::IMAP, "imap.example.org".to_string(), 143, Socket::STARTTLS, "alice".to_string()),
            (Protocol::IMAP, "imap.example.org".to_string(), 993, Socket::SSL, "alice".to_string()),
        ]
    );
}

#[test]
fn ports_of_unknown_endpoint_smtp() {
    let res = descriptor(Protocol::SMTP, "smtp.example.org", 0, Socket::Automatic, "alice")
        .expand_ports();
    assert_eq!(
        summary(&res),
        vec![
            (Protocol::SMTP, "smtp.example.org".to_string(), 587, Socket::STARTTLS, "alice".to_string()),
            (Protocol::SMTP, "smtp.example.org".to_string(), 465, Socket::SSL, "alice".to_string()),
        ]
    );
}

#[test]
fn ports_of_known_socket() {
    let cases = [
        (Protocol::IMAP, Socket::SSL, 993),
        (Protocol::SMTP, Socket::SSL, 465),
        (Protocol::IMAP, Socket::STARTTLS, 143),
        (Protocol::IMAP, Socket::Plain, 143),
        (Protocol::SMTP, Socket::STARTTLS, 587),
        (Protocol::SMTP, Socket::Plain, 587),
    ];
    for (protocol, socket, port) in cases {
        let res = descriptor(protocol, "host", 0, socket, "user").expand_ports();
        assert_eq!(
            summary(&res),
            vec![(protocol, "host".to_string(), port, socket, "user".to_string())]
        );
    }
}

#[test]
fn ports_of_known_port() {
    let res = descriptor(Protocol::SMTP, "host", 2525, Socket::Automatic, "user").expand_ports();
    assert_eq!(
        summary(&res),
        vec![
            (Protocol::SMTP, "host".to_string(), 2525, Socket::SSL, "user".to_string()),
            (Protocol::SMTP, "host".to_string(), 2525, Socket::STARTTLS, "user".to_string()),
        ]
    );
}

#[test]
fn ports_of_known_endpoint() {
    for socket in [Socket::SSL, Socket::STARTTLS, Socket::Plain] {
        let res = descriptor(Protocol::IMAP, "host", 1143, socket, "user").expand_ports();
        assert_eq!(
            summary(&res),
            vec![(Protocol::IMAP, "host".to_string(), 1143, socket, "user".to_string())]
        );
    }
}

#[test]
fn hostnames_of_unknown_host() {
    let res = descriptor(Protocol::IMAP, "", 993, Socket::SSL, "user").expand_hostnames("example.org");
    let hosts: Vec<String> = res.iter().map(|p| p.hostname.clone()).collect();
    assert_eq!(hosts, vec!["example.org", "imap.example.org", "mail.example.org"]);
    assert!(res.iter().all(|p| p.port == 993 && p.socket == Socket::SSL && p.username == "user"));

    let res = descriptor(Protocol::SMTP, "", 0, Socket::Automatic, "").expand_hostnames("example.org");
    let hosts: Vec<String> = res.iter().map(|p| p.hostname.clone()).collect();
    assert_eq!(hosts, vec!["example.org", "smtp.example.org", "mail.example.org"]);
    assert!(res.iter().all(|p| p.protocol == Protocol::SMTP));
}

#[test]
fn hostnames_of_known_host() {
    let res = descriptor(Protocol::IMAP, "mx.example.org", 0, Socket::Automatic, "")
        .expand_hostnames("example.org");
    assert_eq!(
        summary(&res),
        vec![(Protocol::IMAP, "mx.example.org".to_string(), 0, Socket::Automatic, String::new())]
    );
}

#[test]
fn usernames_of_unknown_user() {
    let res = descriptor(Protocol::IMAP, "host", 993, Socket::SSL, "")
        .expand_usernames("someone123@example.org");
    let users: Vec<String> = res.iter().map(|p| p.username.clone()).collect();
    assert_eq!(users, vec!["someone123@example.org", "someone123"]);
    assert!(res.iter().all(|p| p.hostname == "host" && p.port == 993));
}

#[test]
fn usernames_of_address_without_at() {
    let res = descriptor(Protocol::IMAP, "host", 993, Socket::SSL, "").expand_usernames("someone");
    let users: Vec<String> = res.iter().map(|p| p.username.clone()).collect();
    assert_eq!(users, vec!["someone"]);
}

#[test]
fn usernames_split_at_first_at() {
    let res = descriptor(Protocol::IMAP, "host", 993, Socket::SSL, "").expand_usernames("a@b@c");
    let users: Vec<String> = res.iter().map(|p| p.username.clone()).collect();
    assert_eq!(users, vec!["a@b@c", "a"]);
}

#[test]
fn usernames_count_characters_not_bytes() {
    let res = descriptor(Protocol::IMAP, "host", 993, Socket::SSL, "")
        .expand_usernames("jürgen@example.org");
    let users: Vec<String> = res.iter().map(|p| p.username.clone()).collect();
    assert_eq!(users, vec!["jürgen@example.org", "jürgen"]);
}

#[test]
fn usernames_of_known_user() {
    let res = descriptor(Protocol::SMTP, "", 0, Socket::Automatic, "bob")
        .expand_usernames("someone123@example.org");
    assert_eq!(
        summary(&res),
        vec![(Protocol::SMTP, String::new(), 0, Socket::Automatic, "bob".to_string())]
    );
}

#[test]
fn expansion_varies_ports_fastest() {
    let blank = vec![descriptor(Protocol::IMAP, "", 0, Socket::Automatic, "")];
    let res = expand_candidates(&blank, "u@example.org", "example.org");
    let got: Vec<(String, String, u16, Socket)> = res
        .iter()
        .map(|p| (p.username.clone(), p.hostname.clone(), p.port, p.socket))
        .collect();
    let mut expected = Vec::new();
    for user in ["u@example.org", "u"] {
        for host in ["example.org", "imap.example.org", "mail.example.org"] {
            expected.push((user.to_string(), host.to_string(), 143, Socket::STARTTLS));
            expected.push((user.to_string(), host.to_string(), 993, Socket::SSL));
        }
    }
    assert_eq!(got, expected);
}

#[test]
fn expansion_keeps_the_order_of_descriptors() {
    let list = vec![
        descriptor(Protocol::SMTP, "smtp.example.org", 465, Socket::SSL, "u"),
        descriptor(Protocol::IMAP, "imap.example.org", 0, Socket::SSL, "u"),
    ];
    let res = expand_candidates(&list, "u@example.org", "example.org");
    assert_eq!(
        summary(&res),
        vec![
            (Protocol::SMTP, "smtp.example.org".to_string(), 465, Socket::SSL, "u".to_string()),
            (Protocol::IMAP, "imap.example.org".to_string(), 993, Socket::SSL, "u".to_string()),
        ]
    );
}

#[test]
fn expansion_of_nothing_is_nothing() {
    let res = expand_candidates(&Vec::new(), "u@example.org", "example.org");
    assert!(res.is_empty());
}

#[test]
fn one_step_applied_to_a_list() {
    let list = vec![
        descriptor(Protocol::IMAP, "", 0, Socket::Automatic, "u"),
        descriptor(Protocol::SMTP, "mx", 0, Socket::Automatic, "u"),
    ];
    let res = Expansion::Hostnames("example.org").apply_all(&list);
    let hosts: Vec<String> = res.iter().map(|p| p.hostname.clone()).collect();
    assert_eq!(hosts, vec!["example.org", "imap.example.org", "mail.example.org", "mx"]);
    let res = Expansion::Ports.apply(descriptor(Protocol::IMAP, "h", 0, Socket::Plain, "u"));
    assert_eq!(res.len(), 1);
    assert_eq!(res[0].port, 143);
    let res = Expansion::Usernames("a@b").apply(descriptor(Protocol::IMAP, "h", 0, Socket::Plain, ""));
    assert_eq!(res.len(), 2);
}
