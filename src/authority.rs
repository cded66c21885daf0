//! The target of a CONNECT request: a host and a port.
use vstd::prelude::*;

verus! {

/// The host and optional port that `http::uri::Authority` reads from a text,
/// or `None` where it refuses the text.
pub uninterp spec fn authority_parts(s: Seq<char>) -> Option<(Seq<char>, Option<u16>)>;

/// Relies on `http::uri::Authority::from_str`, `Authority::host` and
/// `Authority::port_u16`. The parser refuses an empty text and any text that
/// holds a `/` (the authority would end before the text does).
#[verifier::external_body]
fn split_authority(s: &str) -> (r: Option<(String, Option<u16>)>)
    ensures
        r matches Some(p) ==> authority_parts(s@) == Some((p.0@, p.1)),
        r is None ==> authority_parts(s@) is None,
        s@.len() == 0 ==> r is None,
        s@.contains('/') ==> r is None,
{
    s.parse::<http::uri::Authority>().ok().map(|a| (a.host().to_string(), a.port_u16()))
}

/// A validated `host:port` target.
#[derive(Clone, Debug)]
pub struct TunnelTarget {
    /// The authority text as the request gave it.
    pub authority: String,
    pub host: String,
    pub port: u16,
}

/// Why a target was refused.
#[derive(Clone, Copy, Debug, PartialEq, Eq, Structural)]
pub enum TargetError {
    /// The text is no authority at all.
    NotAnAuthority,
    /// The authority names no host.
    MissingHost,
    /// The authority names no port.
    MissingPort,
}

/// Whether an authority reading names both a host and a port.
pub open spec fn is_socket_authority(p: Option<(Seq<char>, Option<u16>)>) -> bool {
    p matches Some(x) && x.0.len() > 0 && x.1 is Some
}

/// The error that `parse_target` reports for a reading.
pub open spec fn target_error(p: Option<(Seq<char>, Option<u16>)>) -> TargetError {
    match p {
        None => TargetError::NotAnAuthority,
        Some(x) => if x.0.len() == 0 {
            TargetError::MissingHost
        } else {
            TargetError::MissingPort
        },
    }
}

/// Reads a CONNECT target; it must be a host and a port.
pub fn parse_target(s: &str) -> (r: Result<TunnelTarget, TargetError>)
    ensures
        r is Ok <==> is_socket_authority(authority_parts(s@)),
        r matches Ok(t) ==> t.authority@ == s@ && authority_parts(s@) == Some((t.host@, Some(t.port))),
        r matches Err(e) ==> e == target_error(authority_parts(s@)),
        s@.contains('/') ==> r == Err::<TunnelTarget, TargetError>(TargetError::NotAnAuthority),
{
    match split_authority(s) {
        None => Err(TargetError::NotAnAuthority),
        Some((host, port)) => {
            if host.as_str().is_empty() {
                Err(TargetError::MissingHost)
            } else {
                match port {
                    None => Err(TargetError::MissingPort),
                    Some(port) => Ok(TunnelTarget { authority: s.to_owned(), host, port }),
                }
            }
        },
    }
}

} // verus!
