//! Where server settings can be discovered: the offline provider record and
//! the online sources.

use crate::configure::server_params::{ServerParams, ServerParamsView};
use crate::provider::{ProviderInfo, ProviderInfoView, Server, ServerView, Status, UsernamePattern};
use crate::text::{before, before_char};
use vstd::prelude::*;
use vstd::string::*;

verus! {

/// Dialect of an online source, which decides how its answer is read.
#[derive(Clone, Copy, Debug, PartialEq, Eq, Structural)]
pub enum AutoconfigProvider {
    Mozilla,
    Outlook,
}

/// An online source of server settings.
#[derive(Debug)]
pub struct AutoconfigSource {
    pub provider: AutoconfigProvider,
    pub url: String,
}

/// Mathematical value of an [`AutoconfigSource`].
pub struct AutoconfigSourceView {
    pub provider: AutoconfigProvider,
    pub url: Seq<char>,
}

impl View for AutoconfigSource {
    type V = AutoconfigSourceView;

    open spec fn view(&self) -> AutoconfigSourceView {
        AutoconfigSourceView { provider: self.provider, url: self.url@ }
    }
}

impl DeepView for AutoconfigSource {
    type V = AutoconfigSourceView;

    open spec fn deep_view(&self) -> AutoconfigSourceView {
        self@
    }
}

impl Clone for AutoconfigSource {
    fn clone(&self) -> (res: Self)
        ensures
            res@ == self@,
    {
        AutoconfigSource { provider: self.provider, url: self.url.clone() }
    }
}

/// Number of online sources of a domain.
pub const SOURCE_COUNT: usize = 5;

/// The online sources of a domain in the order in which they are asked.
///
/// First the provider's own autoconfig host, then the well-known path on the
/// domain itself, then autodiscovery on the domain and on its `autodiscover`
/// host, and last the central database. `addr` is the address as it stands
/// in a URL.
pub open spec fn sources(domain: Seq<char>, addr: Seq<char>) -> Seq<AutoconfigSourceView> {
    seq![
        AutoconfigSourceView {
            provider: AutoconfigProvider::Mozilla,
            url: "https://autoconfig."@ + domain + "/mail/config-v1.1.xml?emailaddress="@ + addr,
        },
        AutoconfigSourceView {
            provider: AutoconfigProvider::Mozilla,
            url: "https://"@ + domain
                + "/.well-known/autoconfig/mail/config-v1.1.xml?emailaddress="@ + addr,
        },
        AutoconfigSourceView {
            provider: AutoconfigProvider::Outlook,
            url: "https://"@ + domain + "/autodiscover/autodiscover.xml"@,
        },
        AutoconfigSourceView {
            provider: AutoconfigProvider::Outlook,
            url: "https://autodiscover."@ + domain + "/autodiscover/autodiscover.xml"@,
        },
        AutoconfigSourceView {
            provider: AutoconfigProvider::Mozilla,
            url: "https://autoconfig.thunderbird.net/v1.1/"@ + domain,
        },
    ]
}

impl AutoconfigSource {
    /// The online sources of a domain, see [`sources`].
    pub fn all(domain: &str, addr: &str) -> (res: [AutoconfigSource; 5])
        ensures
            res.deep_view() == sources(domain@, addr@),
    {
        let res = [
            AutoconfigSource {
                provider: AutoconfigProvider::Mozilla,
                url: String::from_str("https://autoconfig.").concat(domain).concat(
                    "/mail/config-v1.1.xml?emailaddress=",
                ).concat(addr),
            },
            AutoconfigSource {
                provider: AutoconfigProvider::Mozilla,
                url: String::from_str("https://").concat(domain).concat(
                    "/.well-known/autoconfig/mail/config-v1.1.xml?emailaddress=",
                ).concat(addr),
            },
            AutoconfigSource {
                provider: AutoconfigProvider::Outlook,
                url: String::from_str("https://").concat(domain).concat(
                    "/autodiscover/autodiscover.xml",
                ),
            },
            AutoconfigSource {
                provider: AutoconfigProvider::Outlook,
                url: String::from_str("https://autodiscover.").concat(domain).concat(
                    "/autodiscover/autodiscover.xml",
                ),
            },
            AutoconfigSource {
                provider: AutoconfigProvider::Mozilla,
                url: String::from_str("https://autoconfig.thunderbird.net/v1.1/").concat(domain),
            },
        ];
        assert(res.deep_view() =~= sources(domain@, addr@));
        res
    }
}

/// The descriptor that a server of a provider record gives for an address.
pub open spec fn server_candidate(server: ServerView, addr: Seq<char>) -> ServerParamsView {
    ServerParamsView {
        protocol: server.protocol,
        socket: server.socket,
        hostname: server.hostname,
        port: server.port,
        username: match server.username_pattern {
            UsernamePattern::EMAIL => addr,
            UsernamePattern::EMAILLOCALPART => before(addr, '@'),
        },
    }
}

/// What the offline knowledge base says of an address.
///
/// A record counts where its provider is not broken and it names at least
/// one server. Its servers then become the descriptors, in their order. In
/// every other case nothing is known offline.
pub open spec fn offline_autoconfig(
    provider: Option<ProviderInfoView>,
    addr: Seq<char>,
) -> Option<Seq<ServerParamsView>> {
    match provider {
        Some(info) => if info.status != Status::BROKEN && info.server.len() > 0 {
            Some(info.server.map_values(|server: ServerView| server_candidate(server, addr)))
        } else {
            None
        },
        None => None,
    }
}

/// The descriptor that a server of a provider record gives for an address.
fn candidate_of(server: &Server, addr: &str) -> (res: ServerParams)
    ensures
        res@ == server_candidate(server@, addr@),
{
    ServerParams {
        protocol: server.protocol,
        socket: server.socket,
        hostname: server.hostname.clone(),
        port: server.port,
        username: match server.username_pattern {
            UsernamePattern::EMAIL => addr.to_owned(),
            UsernamePattern::EMAILLOCALPART => before_char(addr, '@'),
        },
    }
}

/// Turns the provider record of an address, if there is one, into
/// descriptors; see [`offline_autoconfig`].
pub fn get_offline_autoconfig(provider: Option<&ProviderInfo>, addr: &str) -> (res: Option<
    Vec<ServerParams>,
>)
    ensures
        res.deep_view() == offline_autoconfig(
            match provider {
                Some(info) => Some(info@),
                None => None,
            },
            addr@,
        ),
{
    match provider {
        Some(info) => match info.status {
            Status::OK | Status::PREPARATION => {
                if info.server.len() == 0 {
                    None
                } else {
                    let mut servers: Vec<ServerParams> = Vec::new();
                    let mut i: usize = 0;
                    while i < info.server.len()
                        invariant
                            i <= info.server.len(),
                            servers.len() == i,
                            forall|j: int|
                                0 <= j < i ==> (#[trigger] servers[j])@ == server_candidate(
                                    info.server[j]@,
                                    addr@,
                                ),
                        decreases info.server.len() - i,
                    {
                        servers.push(candidate_of(&info.server[i], addr));
                        i = i + 1;
                    }
                    assert(servers.deep_view() =~= info@.server.map_values(
                        |server: ServerView| server_candidate(server, addr@),
                    ));
                    Some(servers)
                }
            },
            Status::BROKEN => None,
        },
        None => None,
    }
}

} // verus!
