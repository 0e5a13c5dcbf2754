//! Where the model is reached, and which protocol is spoken there.

use vstd::prelude::*;

use crate::error::Error;
use crate::text::concat3;
use crate::text::ends_with;
use crate::text::opt_str_view;
use crate::text::same_text;
use crate::urls::parts_of;
use crate::urls::read_url;
use crate::urls::url_parts;
use crate::urls::url_read;
use crate::urls::UrlParts;
use crate::urls::UrlView;

verus! {

/// The variant of the realtime protocol.
#[derive(Debug, Clone, Copy, PartialEq, Eq, Structural)]
pub enum Protocol {
    OpenAI,
    Azure,
}

/// An endpoint with what is needed to connect to it.
pub struct Host {
    pub endpoint: String,
    pub api_key: String,
    pub model: String,
    pub protocol: Protocol,
}

impl Host {
    /// The model at the given endpoint.
    pub fn new_with_host(host: &str, api_key: &str, model: &str, protocol: Protocol) -> (r: Host)
        ensures
            r.endpoint@ == host@,
            r.api_key@ == api_key@,
            r.model@ == model@,
            r.protocol == protocol,
    {
        Host {
            endpoint: host.to_owned(),
            api_key: api_key.to_owned(),
            model: model.to_owned(),
            protocol,
        }
    }

    /// The model at OpenAI's own endpoint.
    pub fn new(api_key: &str, model: &str, protocol: Protocol) -> (r: Host)
        ensures
            r.endpoint@ == "wss://api.openai.com/v1/realtime"@,
            r.api_key@ == api_key@,
            r.model@ == model@,
            r.protocol == protocol,
    {
        Host::new_with_host("wss://api.openai.com/v1/realtime", api_key, model, protocol)
    }
}

/// The message for an Azure protocol without a host.
pub open spec fn azure_needs_host() -> Seq<char> {
    "Protocol `azure` requires an Azure OpenAI `host` endpoint. Set `host` to your Azure OpenAI realtime websocket URL."@
}

/// The message for a host that tells nothing about the protocol.
pub open spec fn cannot_infer(host: Seq<char>) -> Seq<char> {
    "Cannot infer protocol from host `"@ + host
        + "`. Set `protocol` explicitly to `openai` or `azure`, use `wss://api.openai.com/v1/realtime`, or use an Azure OpenAI host."@
}

/// The protocol that a URL tells: OpenAI's own endpoint, or a host in Azure.
pub open spec fn url_protocol(url: UrlView) -> Option<Protocol> {
    if url.scheme == "wss"@ && url.host == Some("api.openai.com"@) && url.path == "/v1/realtime"@ {
        Some(Protocol::OpenAI)
    } else if url.host is Some && ".openai.azure.com"@.is_suffix_of(url.host->0) {
        Some(Protocol::Azure)
    } else {
        None
    }
}

/// The protocol for a host, or why there is none.
pub open spec fn inferred(host: Option<Seq<char>>) -> Result<Protocol, Seq<Seq<char>>> {
    match host {
        None => Ok(Protocol::OpenAI),
        Some(text) => match url_read(text) {
            Err(cause) => Err(seq!["Invalid host URL: "@ + text, cause]),
            Ok(url) => match url_protocol(url_parts(url)) {
                Some(protocol) => Ok(protocol),
                None => Err(seq![cannot_infer(text)]),
            },
        },
    }
}

/// The protocol for a choice of one and a host, or why there is none.
pub open spec fn resolved(protocol: Option<Protocol>, host: Option<Seq<char>>) -> Result<
    Protocol,
    Seq<Seq<char>>,
> {
    let chosen = match protocol {
        Some(p) => Ok(p),
        None => inferred(host),
    };
    match chosen {
        Ok(Protocol::Azure) if host is None => Err(seq![azure_needs_host()]),
        _ => chosen,
    }
}

/// The protocol that a URL tells.
pub fn protocol_of_url(url: &UrlParts) -> (r: Option<Protocol>)
    ensures
        r == url_protocol(url@),
{
    match &url.host {
        Some(host) => {
            if same_text(url.scheme.as_str(), "wss") && same_text(host.as_str(), "api.openai.com")
                && same_text(url.path.as_str(), "/v1/realtime") {
                Some(Protocol::OpenAI)
            } else if ends_with(host.as_str(), ".openai.azure.com") {
                Some(Protocol::Azure)
            } else {
                None
            }
        },
        None => None,
    }
}

/// The protocol for a host; without a host it is OpenAI's.
pub fn infer_protocol_from_host(host: Option<&str>) -> (r: Result<Protocol, Error>)
    ensures
        r matches Ok(p) ==> inferred(opt_str_view(host)) == Ok::<Protocol, Seq<Seq<char>>>(p),
        r matches Err(e) ==> inferred(opt_str_view(host)) == Err::<Protocol, Seq<Seq<char>>>(e@),
{
    let host = match host {
        Some(host) => host,
        None => return Ok(Protocol::OpenAI),
    };
    match read_url(host) {
        Err(cause) => {
            let outer = crate::text::concat2("Invalid host URL: ", host);
            let error = Error::from_text(cause).context(outer.as_str());
            assert(error@ =~= seq![outer@, cause@]);
            Err(error)
        },
        Ok(url) => match protocol_of_url(&parts_of(&url)) {
            Some(protocol) => Ok(protocol),
            None => Err(
                Error::from_text(
                    concat3(
                        "Cannot infer protocol from host `",
                        host,
                        "`. Set `protocol` explicitly to `openai` or `azure`, use `wss://api.openai.com/v1/realtime`, or use an Azure OpenAI host.",
                    ),
                ),
            ),
        },
    }
}

/// Checks that a protocol can be spoken with a host. Only Azure needs to be told one.
pub fn validate_protocol_host(protocol: Protocol, host: Option<&str>) -> (r: Result<(), Error>)
    ensures
        r is Err <==> protocol == Protocol::Azure && host is None,
        r matches Err(e) ==> e@ == seq![azure_needs_host()],
{
    match (protocol, host) {
        (Protocol::Azure, None) => Err(
            Error::new(
                "Protocol `azure` requires an Azure OpenAI `host` endpoint. Set `host` to your Azure OpenAI realtime websocket URL.",
            ),
        ),
        (Protocol::Azure, Some(_)) => Ok(()),
        (Protocol::OpenAI, _) => Ok(()),
    }
}

/// The protocol to speak: the one that was chosen, else the one for the host.
pub fn resolve_protocol(protocol: Option<Protocol>, host: Option<&str>) -> (r: Result<
    Protocol,
    Error,
>)
    ensures
        r matches Ok(p) ==> resolved(protocol, opt_str_view(host)) == Ok::<
            Protocol,
            Seq<Seq<char>>,
        >(p),
        r matches Err(e) ==> resolved(protocol, opt_str_view(host)) == Err::<
            Protocol,
            Seq<Seq<char>>,
        >(e@),
{
    let protocol = match protocol {
        Some(protocol) => protocol,
        None => match infer_protocol_from_host(host) {
            Ok(protocol) => protocol,
            Err(error) => return Err(error),
        },
    };
    match validate_protocol_host(protocol, host) {
        Ok(()) => Ok(protocol),
        Err(error) => Err(error),
    }
}

} // verus!
