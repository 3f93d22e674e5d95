use crate::client::camunda_cloud_token_provider::CloudToken;
use crate::error::Error;
use vstd::prelude::*;

verus! {

/// How the channel to the gateway is secured.
#[derive(Clone, Debug, PartialEq)]
pub enum ConnectionSecurity {
    /// plain text, for the `http` scheme
    Plain,
    /// TLS for the given domain name, for the `https` scheme
    Tls { domain_name: String },
}

/// Decide how to secure the channel from the URI's scheme and host. `https` needs a host.
pub fn connection_security(scheme: Option<String>, host: Option<String>) -> (r: Result<ConnectionSecurity, Error>)
    requires
        scheme matches Some(s) && s@ == "https"@ ==> host is Some,
    ensures
        match scheme {
            None => r matches Err(Error::SchemeMissingError),
            Some(s) => if s@ == "http"@ {
                r matches Ok(ConnectionSecurity::Plain)
            } else if s@ == "https"@ {
                r matches Ok(ConnectionSecurity::Tls { domain_name }) && domain_name == host->0
            } else {
                r matches Err(Error::InvalidSchemeError(t)) && t == s
            },
        },
{
    match scheme {
        None => Err(Error::SchemeMissingError),
        Some(s) => {
            let http = String::from_str("http");
            let https = String::from_str("https");
            if s == http {
                Ok(ConnectionSecurity::Plain)
            } else if s == https {
                match host {
                    Some(h) => Ok(ConnectionSecurity::Tls { domain_name: h }),
                    None => Err(Error::SchemeMissingError),
                }
            } else {
                Err(Error::InvalidSchemeError(s))
            }
        },
    }
}

/// The scheme of the `authorization` header that carries an access token.
pub open spec fn bearer_prefix() -> Seq<char> {
    seq!['B', 'e', 'a', 'r', 'e', 'r', ' ']
}

/// The value of the `authorization` header for an access token: `Bearer <token>`.
pub fn bearer_value(token: &str) -> (r: String)
    ensures
        r@ == bearer_prefix() + token@,
{
    let prefix = String::from_str("Bearer ");
    proof {
        reveal_strlit("Bearer ");
    }
    prefix.concat(token)
}

/// What a connection sends as its `authorization` header, given the outcome of fetching a
/// token (`None`: the client has no token provider): no header without a provider,
/// `Bearer <token>` for a fetched token, and a failed fetch stops the connection with its
/// error.
pub fn connection_authorization(fetched: Option<Result<CloudToken, Error>>) -> (r: Result<Option<String>, Error>)
    ensures
        match fetched {
            None => r == Ok::<Option<String>, Error>(None),
            Some(Ok(t)) => r matches Ok(Some(v)) && v@ == bearer_prefix() + t.token@,
            Some(Err(e)) => r == Err::<Option<String>, Error>(e),
        },
{
    match fetched {
        None => Ok(None),
        Some(Ok(t)) => Ok(Some(bearer_value(t.token.as_str()))),
        Some(Err(e)) => Err(e),
    }
}

} // verus!
