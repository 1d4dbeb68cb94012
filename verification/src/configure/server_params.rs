//! Candidate server descriptors and their expansion.
//!
//! A descriptor may leave the username, the hostname, the port or the socket
//! security open. Expansion turns one such descriptor into the ordered list
//! of fully specified candidates that are tried against the server. The order
//! is part of the contract: it is the order of the connection attempts.

use crate::provider::{Protocol, Socket};
use crate::text::{before, find_char, lemma_position, take_chars};
use vstd::prelude::*;
use vstd::string::*;

verus! {

/// Set of variable parameters to try during configuration.
///
/// It comes from the offline provider database, from online discovery or
/// from what the user entered.
#[derive(Debug)]
pub struct ServerParams {
    /// Protocol, such as IMAP or SMTP.
    pub protocol: Protocol,
    /// Server hostname, empty if unknown.
    pub hostname: String,
    /// Server port, zero if unknown.
    pub port: u16,
    /// Socket security, `Socket::Automatic` if unknown.
    pub socket: Socket,
    /// Username, empty if unknown.
    pub username: String,
}

/// Mathematical value of a [`ServerParams`].
pub struct ServerParamsView {
    pub protocol: Protocol,
    pub hostname: Seq<char>,
    pub port: u16,
    pub socket: Socket,
    pub username: Seq<char>,
}

impl View for ServerParams {
    type V = ServerParamsView;

    open spec fn view(&self) -> ServerParamsView {
        ServerParamsView {
            protocol: self.protocol,
            hostname: self.hostname@,
            port: self.port,
            socket: self.socket,
            username: self.username@,
        }
    }
}

impl DeepView for ServerParams {
    type V = ServerParamsView;

    open spec fn deep_view(&self) -> ServerParamsView {
        self@
    }
}

impl Clone for ServerParams {
    fn clone(&self) -> (res: Self)
        ensures
            res@ == self@,
    {
        ServerParams {
            protocol: self.protocol,
            hostname: self.hostname.clone(),
            port: self.port,
            socket: self.socket,
            username: self.username.clone(),
        }
    }
}

/// Port on which a protocol is served over implicit TLS.
pub open spec fn tls_port(protocol: Protocol) -> u16 {
    match protocol {
        Protocol::IMAP => 993,
        Protocol::SMTP => 465,
    }
}

/// Port on which a protocol is served in plaintext or upgraded by STARTTLS.
pub open spec fn plain_port(protocol: Protocol) -> u16 {
    match protocol {
        Protocol::IMAP => 143,
        Protocol::SMTP => 587,
    }
}

/// Canonical port of a protocol for a concrete socket security.
pub open spec fn default_port(protocol: Protocol, socket: Socket) -> u16 {
    match socket {
        Socket::SSL => tls_port(protocol),
        _ => plain_port(protocol),
    }
}

/// Label that providers commonly put before the domain of a protocol's host.
pub open spec fn protocol_prefix(protocol: Protocol) -> Seq<char> {
    match protocol {
        Protocol::IMAP => "imap."@,
        Protocol::SMTP => "smtp."@,
    }
}

impl ServerParamsView {
    /// The same descriptor with another username.
    pub open spec fn with_username(self, username: Seq<char>) -> ServerParamsView {
        ServerParamsView { username, ..self }
    }

    /// The same descriptor with another hostname.
    pub open spec fn with_hostname(self, hostname: Seq<char>) -> ServerParamsView {
        ServerParamsView { hostname, ..self }
    }

    /// The same descriptor with another socket security and port.
    pub open spec fn with_endpoint(self, socket: Socket, port: u16) -> ServerParamsView {
        ServerParamsView { socket, port, ..self }
    }

    /// Candidates for the username: a known one stays; an unknown one is
    /// first the full address, then, where the address has an `@`, the part
    /// before the first `@`.
    pub open spec fn expand_usernames(self, addr: Seq<char>) -> Seq<ServerParamsView> {
        if self.username.len() != 0 {
            seq![self]
        } else if addr.contains('@') {
            seq![self.with_username(addr), self.with_username(before(addr, '@'))]
        } else {
            seq![self.with_username(addr)]
        }
    }

    /// Candidates for the hostname: a known one stays; an unknown one is the
    /// domain, then the domain behind the protocol's label, then the domain
    /// behind `mail.`.
    pub open spec fn expand_hostnames(self, domain: Seq<char>) -> Seq<ServerParamsView> {
        if self.hostname.len() != 0 {
            seq![self]
        } else {
            seq![
                self.with_hostname(domain),
                self.with_hostname(protocol_prefix(self.protocol) + domain),
                self.with_hostname("mail."@ + domain),
            ]
        }
    }

    /// Candidates for port and socket security.
    ///
    /// With neither known, STARTTLS and then TLS are tried on the protocol's
    /// canonical ports. With only the socket security known, the port is the
    /// canonical one. With only the port known, TLS and then STARTTLS are
    /// tried on it. With both known nothing changes.
    pub open spec fn expand_ports(self) -> Seq<ServerParamsView> {
        if self.port == 0 && self.socket == Socket::Automatic {
            seq![
                self.with_endpoint(Socket::STARTTLS, plain_port(self.protocol)),
                self.with_endpoint(Socket::SSL, tls_port(self.protocol)),
            ]
        } else if self.port == 0 {
            seq![self.with_endpoint(self.socket, default_port(self.protocol, self.socket))]
        } else if self.socket == Socket::Automatic {
            seq![
                self.with_endpoint(Socket::SSL, self.port),
                self.with_endpoint(Socket::STARTTLS, self.port),
            ]
        } else {
            seq![self]
        }
    }

    /// Whether nothing is left open: such a descriptor can be tried as it is.
    pub open spec fn is_complete(self) -> bool {
        &&& self.username.len() != 0
        &&& self.hostname.len() != 0
        &&& self.port != 0
        &&& self.socket != Socket::Automatic
    }
}

impl ServerParams {
    /// Expands the username, see [`ServerParamsView::expand_usernames`].
    pub fn expand_usernames(self, addr: &str) -> (res: Vec<ServerParams>)
        ensures
            res.deep_view() == self@.expand_usernames(addr@),
    {
        let mut res: Vec<ServerParams> = Vec::new();
        if self.username.as_str().is_empty() {
            let mut full = self.clone();
            full.username = addr.to_owned();
            res.push(full);
            if let Some(at) = find_char(addr, '@') {
                proof {
                    lemma_position(addr@, '@');
                }
                res.push(ServerParams { username: take_chars(addr, at), ..self });
            }
        } else {
            res.push(self);
        }
        assert(res.deep_view() =~= self@.expand_usernames(addr@));
        res
    }

    /// Expands the hostname, see [`ServerParamsView::expand_hostnames`].
    pub fn expand_hostnames(self, param_domain: &str) -> (res: Vec<ServerParams>)
        ensures
            res.deep_view() == self@.expand_hostnames(param_domain@),
    {
        let mut res: Vec<ServerParams> = Vec::new();
        if self.hostname.as_str().is_empty() {
            let prefix = match self.protocol {
                Protocol::IMAP => "imap.",
                Protocol::SMTP => "smtp.",
            };
            let mut bare = self.clone();
            bare.hostname = param_domain.to_owned();
            let mut prefixed = self.clone();
            prefixed.hostname = String::from_str(prefix).concat(param_domain);
            res.push(bare);
            res.push(prefixed);
            res.push(
                ServerParams { hostname: String::from_str("mail.").concat(param_domain), ..self },
            );
        } else {
            res.push(self);
        }
        assert(res.deep_view() =~= self@.expand_hostnames(param_domain@));
        res
    }

    /// Expands port and socket security, see
    /// [`ServerParamsView::expand_ports`].
    pub fn expand_ports(self) -> (res: Vec<ServerParams>)
        ensures
            res.deep_view() == self@.expand_ports(),
    {
        let tls: u16 = match self.protocol {
            Protocol::IMAP => 993,
            Protocol::SMTP => 465,
        };
        let plain: u16 = match self.protocol {
            Protocol::IMAP => 143,
            Protocol::SMTP => 587,
        };
        let mut res: Vec<ServerParams> = Vec::new();
        if self.port == 0 {
            match self.socket {
                Socket::Automatic => {
                    let mut first = self.clone();
                    first.socket = Socket::STARTTLS;
                    first.port = plain;
                    res.push(first);
                    res.push(ServerParams { socket: Socket::SSL, port: tls, ..self });
                },
                Socket::SSL => {
                    res.push(ServerParams { port: tls, ..self });
                },
                Socket::STARTTLS | Socket::Plain => {
                    res.push(ServerParams { port: plain, ..self });
                },
            }
        } else if self.socket == Socket::Automatic {
            let mut first = self.clone();
            first.socket = Socket::SSL;
            res.push(first);
            res.push(ServerParams { socket: Socket::STARTTLS, ..self });
        } else {
            res.push(self);
        }
        assert(res.deep_view() =~= self@.expand_ports());
        res
    }
}

/// Username expansion for a fixed address, as a function of the descriptor.
pub open spec fn by_usernames(addr: Seq<char>) -> spec_fn(ServerParamsView) -> Seq<
    ServerParamsView,
> {
    |p: ServerParamsView| p.expand_usernames(addr)
}

/// Hostname expansion for a fixed domain, as a function of the descriptor.
pub open spec fn by_hostnames(domain: Seq<char>) -> spec_fn(ServerParamsView) -> Seq<
    ServerParamsView,
> {
    |p: ServerParamsView| p.expand_hostnames(domain)
}

/// Port expansion, as a function of the descriptor.
pub open spec fn by_ports() -> spec_fn(ServerParamsView) -> Seq<ServerParamsView> {
    |p: ServerParamsView| p.expand_ports()
}

/// The candidates of a list of descriptors in the order of trial.
///
/// Usernames are expanded first, then hostnames, then ports. So the ports
/// vary fastest: all port and socket variants of one hostname come before
/// the next hostname, and all hostnames of one username before the next
/// username.
pub open spec fn expand(
    servers: Seq<ServerParamsView>,
    addr: Seq<char>,
    domain: Seq<char>,
) -> Seq<ServerParamsView> {
    servers.flat_map(by_usernames(addr)).flat_map(by_hostnames(domain)).flat_map(by_ports())
}

/// One of the three steps of expansion, with the value it fills in.
pub enum Expansion<'a> {
    /// Usernames, derived from the address.
    Usernames(&'a str),
    /// Hostnames, derived from the domain of the address.
    Hostnames(&'a str),
    /// Ports and socket security.
    Ports,
}

impl<'a> Expansion<'a> {
    /// What the step makes of one descriptor.
    pub open spec fn candidates(self) -> spec_fn(ServerParamsView) -> Seq<ServerParamsView> {
        match self {
            Expansion::Usernames(addr) => by_usernames(addr@),
            Expansion::Hostnames(domain) => by_hostnames(domain@),
            Expansion::Ports => by_ports(),
        }
    }

    /// Applies the step to one descriptor.
    pub fn apply(&self, params: ServerParams) -> (res: Vec<ServerParams>)
        ensures
            res.deep_view() == (self.candidates())(params@),
    {
        match self {
            Expansion::Usernames(addr) => params.expand_usernames(addr),
            Expansion::Hostnames(domain) => params.expand_hostnames(domain),
            Expansion::Ports => params.expand_ports(),
        }
    }

    /// Applies the step to every descriptor of a list and joins the results
    /// in the order of the list.
    pub fn apply_all(&self, servers: &Vec<ServerParams>) -> (res: Vec<ServerParams>)
        ensures
            res.deep_view() == servers.deep_view().flat_map(self.candidates()),
    {
        let ghost all = servers.deep_view();
        let ghost step = self.candidates();
        let mut res: Vec<ServerParams> = Vec::new();
        let mut i: usize = 0;
        assert(res.deep_view() =~= all.take(0).flat_map(step));
        while i < servers.len()
            invariant
                i <= servers.len(),
                all == servers.deep_view(),
                step == self.candidates(),
                res.deep_view() == all.take(i as int).flat_map(step),
            decreases servers.len() - i,
        {
            let ghost joined = res.deep_view();
            let mut part = self.apply(servers[i].clone());
            let ghost added = part.deep_view();
            res.append(&mut part);
            proof {
                all.lemma_flat_map_take_append(step, i as int);
                assert(res.deep_view() =~= joined + added);
            }
            i = i + 1;
        }
        assert(all.take(i as int) =~= all);
        res
    }
}

/// All candidates of a list of descriptors, in the order of trial.
pub fn expand_candidates(servers: &Vec<ServerParams>, addr: &str, domain: &str) -> (res: Vec<
    ServerParams,
>)
    ensures
        res.deep_view() == expand(servers.deep_view(), addr@, domain@),
{
    let with_usernames = Expansion::Usernames(addr).apply_all(servers);
    let with_hostnames = Expansion::Hostnames(domain).apply_all(&with_usernames);
    Expansion::Ports.apply_all(&with_hostnames)
}

/// What every member of a step's result has, carries over to the joined
/// results of a list.
proof fn lemma_flat_map_all<A, B>(
    s: Seq<A>,
    f: spec_fn(A) -> Seq<B>,
    pre: spec_fn(A) -> bool,
    post: spec_fn(B) -> bool,
)
    requires
        forall|i: int| 0 <= i < s.len() ==> pre(#[trigger] s[i]),
        forall|a: A, k: int| pre(a) && 0 <= k < f(a).len() ==> post(#[trigger] f(a)[k]),
    ensures
        forall|j: int| 0 <= j < s.flat_map(f).len() ==> post(#[trigger] s.flat_map(f)[j]),
    decreases s.len(),
{
    if s.len() == 0 {
        assert(s.flat_map(f) =~= Seq::<B>::empty());
    } else {
        let init = s.drop_last();
        lemma_flat_map_all(init, f, pre, post);
        init.lemma_flat_map_push(f, s.last());
        assert(init.push(s.last()) =~= s);
        assert forall|j: int| 0 <= j < s.flat_map(f).len() implies post(
            #[trigger] s.flat_map(f)[j],
        ) by {
            if j >= init.flat_map(f).len() {
                assert(s.flat_map(f)[j] == f(s.last())[j - init.flat_map(f).len()]);
            }
        }
    }
}

/// Each member of a step's result on one descriptor of a list is among the
/// joined results of the list.
proof fn lemma_flat_map_member<A, B>(s: Seq<A>, f: spec_fn(A) -> Seq<B>, i: int, k: int)
    requires
        0 <= i < s.len(),
        0 <= k < f(s[i]).len(),
    ensures
        s.flat_map(f).contains(f(s[i])[k]),
    decreases s.len(),
{
    let init = s.drop_last();
    init.lemma_flat_map_push(f, s.last());
    assert(init.push(s.last()) =~= s);
    let joined = init.flat_map(f);
    if i == s.len() - 1 {
        assert(s.flat_map(f)[joined.len() + k] == f(s[i])[k]);
    } else {
        lemma_flat_map_member(init, f, i, k);
        let j = choose|j: int| 0 <= j < joined.len() && joined[j] == f(init[i])[k];
        assert(s.flat_map(f)[j] == joined[j]);
    }
}

/// Port expansion on unknown port and socket security: STARTTLS on the
/// plaintext port is tried first, TLS on the TLS port second, and nothing
/// else of the descriptor changes.
pub proof fn lemma_ports_of_unknown_endpoint(p: ServerParamsView)
    requires
        p.port == 0,
        p.socket == Socket::Automatic,
    ensures
        p.expand_ports().len() == 2,
        p.expand_ports()[0] == p.with_endpoint(
            Socket::STARTTLS,
            if p.protocol == Protocol::IMAP {
                143
            } else {
                587
            },
        ),
        p.expand_ports()[1] == p.with_endpoint(
            Socket::SSL,
            if p.protocol == Protocol::IMAP {
                993
            } else {
                465
            },
        ),
{
}

/// Port expansion on an unknown port and a known socket security: the one
/// candidate has the protocol's canonical port for that security, and the
/// security stays.
pub proof fn lemma_ports_of_known_socket(p: ServerParamsView)
    requires
        p.port == 0,
        p.socket != Socket::Automatic,
    ensures
        p.expand_ports() == seq![p.with_endpoint(p.socket, default_port(p.protocol, p.socket))],
        default_port(Protocol::IMAP, Socket::SSL) == 993,
        default_port(Protocol::SMTP, Socket::SSL) == 465,
        default_port(Protocol::IMAP, Socket::STARTTLS) == 143,
        default_port(Protocol::IMAP, Socket::Plain) == 143,
        default_port(Protocol::SMTP, Socket::STARTTLS) == 587,
        default_port(Protocol::SMTP, Socket::Plain) == 587,
{
}

/// Port expansion on a known port and unknown socket security: TLS is tried
/// first and STARTTLS second, both on that port.
pub proof fn lemma_ports_of_known_port(p: ServerParamsView)
    requires
        p.port != 0,
        p.socket == Socket::Automatic,
    ensures
        p.expand_ports() == seq![
            p.with_endpoint(Socket::SSL, p.port),
            p.with_endpoint(Socket::STARTTLS, p.port),
        ],
{
}

/// Port expansion leaves a descriptor with known port and socket security
/// as it is.
pub proof fn lemma_ports_of_known_endpoint(p: ServerParamsView)
    requires
        p.port != 0,
        p.socket != Socket::Automatic,
    ensures
        p.expand_ports() == seq![p],
{
}

/// Hostname expansion: an unknown hostname gives the domain, the domain
/// behind the protocol's label and the domain behind `mail.`, in this order;
/// a known one stays alone.
pub proof fn lemma_hostnames(p: ServerParamsView, domain: Seq<char>)
    ensures
        p.hostname.len() == 0 ==> p.expand_hostnames(domain) == seq![
            p.with_hostname(domain),
            p.with_hostname(
                if p.protocol == Protocol::IMAP {
                    "imap."@
                } else {
                    "smtp."@
                } + domain,
            ),
            p.with_hostname("mail."@ + domain),
        ],
        p.hostname.len() != 0 ==> p.expand_hostnames(domain) == seq![p],
{
}

/// Username expansion: an unknown username gives the full address and,
/// where the address has an `@`, the part before its first `@` as a second
/// candidate; a known one stays alone.
pub proof fn lemma_usernames(p: ServerParamsView, addr: Seq<char>)
    ensures
        p.username.len() == 0 && addr.contains('@') ==> {
            &&& p.expand_usernames(addr).len() == 2
            &&& p.expand_usernames(addr)[0] == p.with_username(addr)
            &&& p.expand_usernames(addr)[1] == p.with_username(before(addr, '@'))
            &&& before(addr, '@').is_prefix_of(addr)
            &&& !before(addr, '@').contains('@')
            &&& addr[before(addr, '@').len() as int] == '@'
        },
        p.username.len() == 0 && !addr.contains('@') ==> p.expand_usernames(addr) == seq![
            p.with_username(addr),
        ],
        p.username.len() != 0 ==> p.expand_usernames(addr) == seq![p],
{
    lemma_position(addr, '@');
    if addr.contains('@') {
        let local = before(addr, '@');
        if local.contains('@') {
            let k = choose|k: int| 0 <= k < local.len() && local[k] == '@';
            assert(addr[k] == '@');
        }
    }
}

/// Every step of expansion gives at least one candidate, and each candidate
/// differs from the descriptor only in what the step fills in.
pub proof fn lemma_step_keeps_descriptor(p: ServerParamsView, addr: Seq<char>, domain: Seq<char>)
    ensures
        1 <= p.expand_usernames(addr).len() <= 2,
        1 <= p.expand_hostnames(domain).len() <= 3,
        1 <= p.expand_ports().len() <= 2,
        forall|k: int|
            0 <= k < p.expand_usernames(addr).len() ==> (#[trigger] p.expand_usernames(
                addr,
            )[k]).with_username(p.username) == p,
        forall|k: int|
            0 <= k < p.expand_hostnames(domain).len() ==> (#[trigger] p.expand_hostnames(
                domain,
            )[k]).with_hostname(p.hostname) == p,
        forall|k: int|
            0 <= k < p.expand_ports().len() ==> (#[trigger] p.expand_ports()[k]).with_endpoint(
                p.socket,
                p.port,
            ) == p,
{
}

/// Expansion keeps the protocol: a list that holds a descriptor of a
/// protocol has at least one candidate of that protocol, so the candidates
/// of a protocol never run out by expansion.
pub proof fn lemma_expand_keeps_protocol(
    servers: Seq<ServerParamsView>,
    addr: Seq<char>,
    domain: Seq<char>,
    i: int,
)
    requires
        0 <= i < servers.len(),
    ensures
        exists|j: int|
            0 <= j < expand(servers, addr, domain).len() && (#[trigger] expand(
                servers,
                addr,
                domain,
            )[j]).protocol == servers[i].protocol,
{
    let step1 = servers.flat_map(by_usernames(addr));
    let step2 = step1.flat_map(by_hostnames(domain));
    let step3 = step2.flat_map(by_ports());
    lemma_step_keeps_descriptor(servers[i], addr, domain);
    lemma_flat_map_member(servers, by_usernames(addr), i, 0);
    let a = choose|a: int| 0 <= a < step1.len() && step1[a] == servers[i].expand_usernames(addr)[0];
    lemma_step_keeps_descriptor(step1[a], addr, domain);
    lemma_flat_map_member(step1, by_hostnames(domain), a, 0);
    let b = choose|b: int| 0 <= b < step2.len() && step2[b] == step1[a].expand_hostnames(domain)[0];
    lemma_step_keeps_descriptor(step2[b], addr, domain);
    lemma_flat_map_member(step2, by_ports(), b, 0);
    let c = choose|c: int| 0 <= c < step3.len() && step3[c] == step2[b].expand_ports()[0];
    assert(step3 == expand(servers, addr, domain));
    assert(expand(servers, addr, domain)[c].protocol == servers[i].protocol);
}

/// After expansion nothing is left open, where the address and its part
/// before the first `@` and the domain are not empty: every candidate has a
/// username, a hostname, a port and a concrete socket security.
pub proof fn lemma_expand_completes(
    servers: Seq<ServerParamsView>,
    addr: Seq<char>,
    domain: Seq<char>,
)
    requires
        before(addr, '@').len() > 0,
        domain.len() > 0,
    ensures
        forall|j: int|
            0 <= j < expand(servers, addr, domain).len() ==> (#[trigger] expand(
                servers,
                addr,
                domain,
            )[j]).is_complete(),
{
    let any = |p: ServerParamsView| true;
    let named = |p: ServerParamsView| p.username.len() != 0;
    let hosted = |p: ServerParamsView| p.username.len() != 0 && p.hostname.len() != 0;
    let complete = |p: ServerParamsView| p.is_complete();
    let step1 = servers.flat_map(by_usernames(addr));
    let step2 = step1.flat_map(by_hostnames(domain));
    lemma_position(addr, '@');
    lemma_flat_map_all(servers, by_usernames(addr), any, named);
    lemma_flat_map_all(step1, by_hostnames(domain), named, hosted);
    lemma_flat_map_all(step2, by_ports(), hosted, complete);
}

/// A step that leaves every member of a list alone leaves the list alone.
proof fn lemma_flat_map_identity<A>(s: Seq<A>, f: spec_fn(A) -> Seq<A>)
    requires
        forall|i: int| 0 <= i < s.len() ==> f(#[trigger] s[i]) == seq![s[i]],
    ensures
        s.flat_map(f) == s,
    decreases s.len(),
{
    if s.len() == 0 {
        assert(s.flat_map(f) =~= s);
    } else {
        let init = s.drop_last();
        lemma_flat_map_identity(init, f);
        init.lemma_flat_map_push(f, s.last());
        assert(init.push(s.last()) =~= s);
        assert(init + seq![s.last()] =~= s);
    }
}

/// Expansion leaves complete descriptors alone: a list in which nothing
/// is left open is its own list of candidates.
pub proof fn lemma_expand_of_complete(
    servers: Seq<ServerParamsView>,
    addr: Seq<char>,
    domain: Seq<char>,
)
    requires
        forall|i: int| 0 <= i < servers.len() ==> (#[trigger] servers[i]).is_complete(),
    ensures
        expand(servers, addr, domain) == servers,
{
    lemma_flat_map_identity(servers, by_usernames(addr));
    lemma_flat_map_identity(servers, by_hostnames(domain));
    lemma_flat_map_identity(servers, by_ports());
}

} // verus!
