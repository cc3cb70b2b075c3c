//! Resolution of a path or URI to the canonical namenode endpoint that keys
//! the connection cache.
//!
//! The canonical form is `scheme://host`, followed by `:port` only when a
//! port is explicitly present in the input; a path under the local-filesystem
//! scheme always resolves to the fixed local endpoint `file:///`, whatever
//! else the path holds. Resolution is a pure function of the input string:
//! it does no I/O and touches no shared state.

use vstd::prelude::*;
use vstd::string::StringExecFns;

use crate::err::HdfsErr;

verus! {

/// The parts of a parsed URI that endpoint resolution reads.
pub(crate) struct UriParts {
    pub(crate) scheme: String,
    pub(crate) host: Option<String>,
    pub(crate) port: Option<u16>,
}

/// What `url::Url::parse` finds in a string: `None` when the string is not
/// an absolute URI, otherwise the scheme, the host if there is one, and the
/// port if one is explicitly present.
pub uninterp spec fn uri_parts(s: Seq<char>) -> Option<(Seq<char>, Option<Seq<char>>, Option<u16>)>;

pub open spec fn opt_str_view(o: Option<String>) -> Option<Seq<char>> {
    match o {
        None => None,
        Some(h) => Some(h@),
    }
}

/// Relies on `url::Url::parse` and its `scheme`, `host_str` and `port`
/// accessors: the parse result depends on the input string alone. The parser
/// lower-cases the scheme and keeps the port only when the input names one
/// (it drops the default port of the few schemes it knows as special).
#[verifier::external_body]
fn parse_uri(s: &str) -> (r: Option<UriParts>)
    ensures
        match r {
            None => uri_parts(s@) is None,
            Some(p) => uri_parts(s@) == Some((p.scheme@, opt_str_view(p.host), p.port)),
        },
{
    match url::Url::parse(s) {
        Ok(u) => Some(UriParts {
            scheme: u.scheme().to_string(),
            host: u.host_str().map(|h| h.to_string()),
            port: u.port(),
        }),
        Err(_) => None,
    }
}

/// The character of a single decimal digit.
pub open spec fn dec_digit(d: nat) -> char {
    if d == 0 {
        '0'
    } else if d == 1 {
        '1'
    } else if d == 2 {
        '2'
    } else if d == 3 {
        '3'
    } else if d == 4 {
        '4'
    } else if d == 5 {
        '5'
    } else if d == 6 {
        '6'
    } else if d == 7 {
        '7'
    } else if d == 8 {
        '8'
    } else {
        '9'
    }
}

/// The decimal representation of a number, most significant digit first.
pub open spec fn dec_rep(n: nat) -> Seq<char>
    decreases n,
{
    if n < 10 {
        seq![dec_digit(n)]
    } else {
        dec_rep(n / 10) + seq![dec_digit(n % 10)]
    }
}

fn digit_str(d: u16) -> (s: &'static str)
    requires
        d < 10,
    ensures
        s@ == seq![dec_digit(d as nat)],
{
    proof {
        reveal_strlit("0");
        reveal_strlit("1");
        reveal_strlit("2");
        reveal_strlit("3");
        reveal_strlit("4");
        reveal_strlit("5");
        reveal_strlit("6");
        reveal_strlit("7");
        reveal_strlit("8");
        reveal_strlit("9");
    }
    let s: &'static str = if d == 0 {
        "0"
    } else if d == 1 {
        "1"
    } else if d == 2 {
        "2"
    } else if d == 3 {
        "3"
    } else if d == 4 {
        "4"
    } else if d == 5 {
        "5"
    } else if d == 6 {
        "6"
    } else if d == 7 {
        "7"
    } else if d == 8 {
        "8"
    } else {
        "9"
    };
    proof {
        assert(s@ =~= seq![dec_digit(d as nat)]);
    }
    s
}

/// Renders a port number in decimal, as it stands in a canonical endpoint.
pub fn port_to_string(p: u16) -> (s: String)
    ensures
        s@ == dec_rep(p as nat),
    decreases p,
{
    let d: u16 = p % 10;
    let rest: u16 = p / 10;
    let ds = digit_str(d);
    if rest == 0 {
        ds.to_owned()
    } else {
        let mut s = port_to_string(rest);
        s.append(ds);
        s
    }
}

/// The canonical endpoint built from a scheme, a host and an optional port.
pub open spec fn endpoint_seq(scheme: Seq<char>, host: Seq<char>, port: Option<u16>) -> Seq<char> {
    scheme + "://"@ + host + match port {
        None => Seq::<char>::empty(),
        Some(p) => ":"@ + dec_rep(p as nat),
    }
}

/// The endpoint a path resolves to: the fixed local endpoint for the
/// local-filesystem scheme, `scheme://host[:port]` for a hosted URI, and
/// none for anything else.
pub open spec fn resolve_spec(s: Seq<char>) -> Option<Seq<char>> {
    match uri_parts(s) {
        None => None,
        Some(parts) => {
            let (scheme, host, port) = parts;
            if scheme == "file"@ {
                Some("file:///"@)
            } else {
                match host {
                    None => None,
                    Some(h) => Some(endpoint_seq(scheme, h, port)),
                }
            }
        },
    }
}

/// Resolves a path to the canonical namenode URI that keys the connection
/// cache, or reports why the path names no endpoint.
pub fn get_namenode_uri(path: &str) -> (r: Result<String, HdfsErr>)
    ensures
        match r {
            Ok(u) => resolve_spec(path@) == Some(u@),
            Err(e) => {
                &&& resolve_spec(path@) is None
                &&& e matches HdfsErr::InvalidUrl(p) && p@ == path@
            },
        },
{
    match parse_uri(path) {
        None => Err(HdfsErr::InvalidUrl(path.to_owned())),
        Some(parts) => {
            let local: String = "file".to_owned();
            if parts.scheme == local {
                Ok("file:///".to_owned())
            } else {
                match parts.host {
                    None => Err(HdfsErr::InvalidUrl(path.to_owned())),
                    Some(host) => {
                        let mut uri = parts.scheme.concat("://");
                        uri.append(host.as_str());
                        if let Some(p) = parts.port {
                            uri.append(":");
                            let ps = port_to_string(p);
                            uri.append(ps.as_str());
                        }
                        proof {
                            assert(uri@ =~= endpoint_seq(
                                parts.scheme@,
                                host@,
                                parts.port,
                            ));
                        }
                        Ok(uri)
                    },
                }
            }
        },
    }
}

/// Law: endpoint resolution is deterministic and pure, so resolving equal
/// input strings gives equal outcomes.
pub proof fn lemma_resolve_deterministic(s1: Seq<char>, s2: Seq<char>)
    requires
        s1 == s2,
    ensures
        resolve_spec(s1) == resolve_spec(s2),
{
}

/// Law: a path under the local-filesystem scheme resolves to the fixed
/// canonical local endpoint, regardless of any host, port or path content.
pub proof fn lemma_local_scheme_is_local_endpoint(s: Seq<char>)
    requires
        uri_parts(s) matches Some(parts) && parts.0 == "file"@,
    ensures
        resolve_spec(s) == Some("file:///"@),
{
}

/// Law: a non-local URI without a host resolves to no endpoint.
pub proof fn lemma_hostless_does_not_resolve(s: Seq<char>)
    requires
        uri_parts(s) matches Some(parts) && parts.0 != "file"@ && parts.1 is None,
    ensures
        resolve_spec(s) is None,
{
}

} // verus!
