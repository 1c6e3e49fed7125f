use vstd::prelude::*;
use crate::text::{concat, str_eq};
use url::Host;

verus! {

/// An IP address: four bytes, or sixteen, as one number.
#[derive(Clone, Copy, Debug, PartialEq, Eq, Structural)]
pub enum IpAddress {
    V4(u32),
    V6(u128),
}

/// The host of a proxy address: a domain name, or an IP address.
pub enum ProxyHost {
    Domain(String),
    Ip(IpAddress),
}

/// A proxy address as the `url` crate reads it: its text as the crate
/// writes it back, scheme, host, port (none when absent or the scheme's
/// default), user name and password.
pub struct ProxyUrl {
    pub text: String,
    pub scheme: String,
    pub host: Option<ProxyHost>,
    pub port: Option<u16>,
    pub username: String,
    pub password: Option<String>,
}

/// The mathematical value of a [`ProxyHost`].
pub enum ProxyHostView {
    Domain(Seq<char>),
    Ip(IpAddress),
}

/// The mathematical value of a [`ProxyUrl`].
pub struct ProxyUrlView {
    pub text: Seq<char>,
    pub scheme: Seq<char>,
    pub host: Option<ProxyHostView>,
    pub port: Option<u16>,
    pub username: Seq<char>,
    pub password: Option<Seq<char>>,
}

impl View for ProxyUrl {
    type V = ProxyUrlView;

    open spec fn view(&self) -> ProxyUrlView {
        ProxyUrlView {
            text: self.text@,
            scheme: self.scheme@,
            host: match self.host {
                Some(ProxyHost::Domain(d)) => Some(ProxyHostView::Domain(d@)),
                Some(ProxyHost::Ip(a)) => Some(ProxyHostView::Ip(a)),
                None => None,
            },
            port: self.port,
            username: self.username@,
            password: match self.password {
                Some(p) => Some(p@),
                None => None,
            },
        }
    }
}

/// What the `url` crate reads from the text `s`: the address, or the
/// message of its parse error.
pub uninterp spec fn url_parse(s: Seq<char>) -> Result<ProxyUrlView, Seq<char>>;

/// The view of what `parse_url` hands back.
pub open spec fn parsed_view(r: Result<ProxyUrl, String>) -> Result<ProxyUrlView, Seq<char>> {
    match r {
        Ok(u) => Ok(u@),
        Err(e) => Err(e@),
    }
}

/// Calls `url::Url::parse(s)` and reads the address's parts (`scheme`,
/// `host`, `port`, `username`, `password`, and its text by `to_string`),
/// or the parse error's message; the result is named `url_parse`.
#[verifier::external_body]
fn parse_url(s: &str) -> (r: Result<ProxyUrl, String>)
    ensures
        parsed_view(r) == url_parse(s@),
{
    let u = match url::Url::parse(s) {
        Ok(u) => u,
        Err(e) => return Err(e.to_string()),
    };
    let host = match u.host() {
        Some(Host::Domain(d)) => Some(ProxyHost::Domain(d.to_string())),
        Some(Host::Ipv4(a)) => Some(ProxyHost::Ip(IpAddress::V4(a.into()))),
        Some(Host::Ipv6(a)) => Some(ProxyHost::Ip(IpAddress::V6(a.into()))),
        None => None,
    };
    let password = u.password().map(str::to_string);
    Ok(ProxyUrl { text: u.to_string(), scheme: u.scheme().to_string(), host, port: u.port(), username: u.username().to_string(), password })
}

/// How to reach the server.
pub enum ProxyPlan {
    /// Connect straight to the server.
    Direct,
    /// Look up this domain's addresses, then go through the proxy at the
    /// first of them and this port.
    Resolve(String, u16, ProxyUrl),
    /// Go through the proxy at this address and port.
    Address(IpAddress, u16, ProxyUrl),
}

/// How to reach the server through the proxy written `proxy`: no proxy
/// when it is empty; else its address must parse and have a host and a port.
pub open spec fn proxy_plan_spec(proxy: Seq<char>) -> Option<Result<(ProxyHostView, u16, ProxyUrlView), Seq<char>>> {
    if proxy.len() == 0 {
        None
    } else {
        Some(
            match url_parse(proxy) {
                Err(e) => Err(e),
                Ok(u) => match u.host {
                    None => Err("proxy host is missing from url: "@ + u.text),
                    Some(h) => match u.port {
                        None => Err("proxy port is missing from url: "@ + u.text),
                        Some(p) => Ok((h, p, u)),
                    },
                },
            },
        )
    }
}

/// How to reach the server through the proxy written `proxy` (the start of
/// `ProxyConnectHandler::connect`).
pub fn proxy_plan(proxy: &str) -> (r: Result<ProxyPlan, String>)
    ensures
        match proxy_plan_spec(proxy@) {
            None => r matches Ok(ProxyPlan::Direct),
            Some(Err(e)) => r matches Err(m) && m@ == e,
            Some(Ok((h, p, u))) => match h {
                ProxyHostView::Domain(d) => r matches Ok(ProxyPlan::Resolve(x, q, v)) && x@ == d
                    && q == p && v@ == u,
                ProxyHostView::Ip(a) => r matches Ok(ProxyPlan::Address(x, q, v)) && x == a && q
                    == p && v@ == u,
            },
        },
{
    if proxy.is_empty() {
        return Ok(ProxyPlan::Direct);
    }
    let u = match parse_url(proxy) {
        Ok(u) => u,
        Err(e) => {
            return Err(e);
        },
    };
    let port = match u.port {
        Some(p) => p,
        None => {
            if u.host.is_none() {
                return Err(concat("proxy host is missing from url: ", u.text.as_str()));
            }
            return Err(concat("proxy port is missing from url: ", u.text.as_str()));
        },
    };
    match &u.host {
        None => Err(concat("proxy host is missing from url: ", u.text.as_str())),
        Some(ProxyHost::Domain(d)) => {
            let d = d.clone();
            Ok(ProxyPlan::Resolve(d, port, u))
        },
        Some(ProxyHost::Ip(a)) => {
            let a = *a;
            Ok(ProxyPlan::Address(a, port, u))
        },
    }
}

/// The proxy's address among those its domain resolved to: the first one,
/// or the error naming the domain when there is none.
pub fn resolved_address(domain: &str, found: &Vec<IpAddress>) -> (r: Result<IpAddress, String>)
    ensures
        found@.len() > 0 ==> r == Ok::<IpAddress, String>(found@[0]),
        found@.len() == 0 ==> (r matches Err(m) && m@ == "proxy host did not return any ip address: "@
            + domain@),
{
    if found.len() > 0 {
        Ok(found[0])
    } else {
        Err(concat("proxy host did not return any ip address: ", domain))
    }
}

/// How to open the connection through the proxy.
pub enum SocksLogin {
    /// A SOCKS5 proxy without a user name.
    Anonymous,
    /// A SOCKS5 proxy with this user name and password (empty when absent).
    Password(String, String),
}

/// How to open the connection through the proxy (the end of
/// `ProxyConnectHandler::connect`): only SOCKS5 proxies are supported.
pub fn socks_login(u: &ProxyUrl) -> (r: Result<SocksLogin, String>)
    ensures
        u.scheme@ != "socks5"@ ==> (r matches Err(m) && m@ == "proxy scheme not supported: "@
            + u.scheme@),
        u.scheme@ == "socks5"@ && u.username@.len() == 0 ==> r matches Ok(SocksLogin::Anonymous),
        u.scheme@ == "socks5"@ && u.username@.len() > 0 ==> (r matches Ok(
            SocksLogin::Password(n, p),
        ) && n@ == u.username@ && p@ == match u.password {
            Some(x) => x@,
            None => Seq::<char>::empty(),
        }),
{
    if !str_eq(u.scheme.as_str(), "socks5") {
        return Err(concat("proxy scheme not supported: ", u.scheme.as_str()));
    }
    if u.username.as_str().is_empty() {
        Ok(SocksLogin::Anonymous)
    } else {
        let p = match &u.password {
            Some(x) => x.clone(),
            None => String::new(),
        };
        Ok(SocksLogin::Password(u.username.clone(), p))
    }
}

/// A connection handler that goes through the proxy written `proxy`; an
/// empty text means no proxy.
pub struct ProxyConnectHandler {
    pub proxy: String,
}

/// A connection handler through the proxy written `url`.
pub fn proxy_by_url(url: String) -> (r: Result<ProxyConnectHandler, String>)
    ensures
        r matches Ok(h) && h.proxy == url,
{
    Ok(ProxyConnectHandler { proxy: url })
}

} // verus!
