//! The reverse proxy's decisions: resolving a sandbox or deployment to its
//! backend port and building the exact target URL. The forwarding itself —
//! reading the body, sending, copying the answer back — happens outside;
//! its failures map to status codes through the error taxonomy.

use vstd::prelude::*;
use crate::errors::SandboxError;
use crate::faas::FaasManager;
use crate::text;

verus! {

/// The query part of a target URL: `?` plus the inbound query, or nothing.
pub open spec fn spec_query_part(query: Option<&str>) -> Seq<char> {
    match query {
        Some(q) => "?"@ + q@,
        None => Seq::empty(),
    }
}

/// The path part of a target URL: the rest of the inbound path, rooted.
pub open spec fn spec_target_path(remainder: Seq<char>) -> Seq<char> {
    if remainder.len() == 0 {
        "/"@
    } else if text::starts_with_seq(remainder, "/"@) {
        remainder
    } else {
        "/"@ + remainder
    }
}

/// The URL a request for `remainder` on backend port `port` is forwarded
/// to: `http://127.0.0.1:{port}{path}{?query}`.
pub fn target_url(port: u16, remainder: &str, query: Option<&str>) -> (r: String)
    ensures
        r@ == "http://127.0.0.1:"@ + text::dec_of(port as int) + spec_target_path(
            remainder@,
        ) + spec_query_part(query),
{
    let mut url = String::from_str("http://127.0.0.1:");
    let port_text = text::u64_to_dec(port as u64);
    url.append(port_text.as_str());
    if remainder.is_empty() {
        url.append("/");
    } else if text::starts_with(remainder, "/") {
        url.append(remainder);
    } else {
        url.append("/");
        url.append(remainder);
    }
    match query {
        Some(q) => {
            url.append("?");
            url.append(q);
            proof {
                assert(url@ =~= "http://127.0.0.1:"@ + text::dec_of(port as int)
                    + spec_target_path(remainder@) + spec_query_part(query));
            }
            url
        },
        None => {
            proof {
                assert(url@ =~= "http://127.0.0.1:"@ + text::dec_of(port as int)
                    + spec_target_path(remainder@) + spec_query_part(query));
            }
            url
        },
    }
}

impl FaasManager {
    /// The backend port a sandbox is reached on: the allocator's binding
    /// first, else the port found by inspecting the container (handed in by
    /// the caller), else nothing to forward to.
    pub fn resolve_sandbox_port(&self, sandbox_id: &str, inspected: Option<u16>) -> (r:
        Result<u16, SandboxError>)
        requires
            self.wf(),
        ensures
            match r {
                Ok(p) => self.spec_port_of(sandbox_id@) == Some(p) || (self.spec_port_of(
                    sandbox_id@,
                ) is None && inspected == Some(p)),
                Err(SandboxError::ProxyNoPort) => self.spec_port_of(sandbox_id@) is None
                    && inspected is None,
                Err(_) => false,
            },
    {
        match self.get_port(sandbox_id) {
            Some(p) => Ok(p),
            None => match inspected {
                Some(p) => Ok(p),
                None => Err(SandboxError::ProxyNoPort),
            },
        }
    }
}

} // verus!
