use vstd::prelude::*;
use crate::error::AdapterError;

verus! {

/// Whether `s` parses as an absolute URL.
pub uninterp spec fn parses_as_url(s: Seq<char>) -> bool;

/// Relies on `url::Url::parse`: it succeeds exactly on the texts that parse
/// as an absolute URL, which depends on the text alone.
#[verifier::external_body]
fn is_absolute_url(s: &str) -> (r: bool)
    ensures
        r == parses_as_url(s@),
{
    url::Url::parse(s).is_ok()
}

/// The settings that a transfer is started with: the application
/// identifier, the rendezvous and relay endpoints, and the number of words in
/// a generated passphrase.
pub struct ClientConfig {
    pub appid: String,
    pub rendezvous_url: String,
    pub transit_server_url: String,
    pub passphrase_component_len: usize,
}

impl ClientConfig {
    /// A configuration from its settings, given whether each endpoint parses
    /// as a URL. Either endpoint that does not makes it a configuration
    /// error.
    pub fn assemble(
        appid: &str,
        rendezvous_url: &str,
        transit_server_url: &str,
        passphrase_component_len: usize,
        rendezvous_parses: bool,
        transit_parses: bool,
    ) -> (r: Result<ClientConfig, AdapterError>)
        ensures
            r is Ok <==> rendezvous_parses && transit_parses,
            r matches Ok(c) ==> {
                &&& c.appid@ == appid@
                &&& c.rendezvous_url@ == rendezvous_url@
                &&& c.transit_server_url@ == transit_server_url@
                &&& c.passphrase_component_len == passphrase_component_len
            },
            r matches Err(e) ==> e == AdapterError::Configuration,
    {
        if !rendezvous_parses || !transit_parses {
            return Err(AdapterError::Configuration);
        }
        Ok(ClientConfig {
            appid: appid.to_owned(),
            rendezvous_url: rendezvous_url.to_owned(),
            transit_server_url: transit_server_url.to_owned(),
            passphrase_component_len,
        })
    }

    /// A configuration from its settings. An endpoint that does not parse as a
    /// URL is a configuration error, reported here rather than when a
    /// transfer starts.
    pub fn client_init(
        appid: &str,
        rendezvous_url: &str,
        transit_server_url: &str,
        passphrase_component_len: usize,
    ) -> (r: Result<ClientConfig, AdapterError>)
        ensures
            r is Ok <==> parses_as_url(rendezvous_url@) && parses_as_url(transit_server_url@),
            r matches Ok(c) ==> {
                &&& c.appid@ == appid@
                &&& c.rendezvous_url@ == rendezvous_url@
                &&& c.transit_server_url@ == transit_server_url@
                &&& c.passphrase_component_len == passphrase_component_len
            },
            r matches Err(e) ==> e == AdapterError::Configuration,
    {
        let rendezvous_parses = is_absolute_url(rendezvous_url);
        let transit_parses = is_absolute_url(transit_server_url);
        ClientConfig::assemble(
            appid,
            rendezvous_url,
            transit_server_url,
            passphrase_component_len,
            rendezvous_parses,
            transit_parses,
        )
    }
}

} // verus!
