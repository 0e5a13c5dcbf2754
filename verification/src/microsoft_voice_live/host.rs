//! Where the service is reached.

use vstd::prelude::*;

use crate::error::Error;
use crate::text::concat2;
use crate::text::concat3;
use crate::text::same_text;
use crate::text::trim;
use crate::text::trimmed;
use crate::urls::add_pairs;
use crate::urls::drop_query;
use crate::urls::pair_texts;
use crate::urls::push_pair;
use crate::urls::read_url;
use crate::urls::scheme_of;
use crate::urls::text_of;
use crate::urls::url_read;
use crate::urls::url_scheme;
use crate::urls::url_with_pairs;
use crate::urls::url_without_query;

verus! {

/// An endpoint with what is needed to connect to it. The URL says all about the model, so that the
/// connection adds the key only.
pub struct Host {
    pub wss_url: String,
    pub api_key: String,
}

/// The query of the URL.
pub open spec fn query_pairs(model: Seq<char>, api_version: Seq<char>) -> Seq<
    (Seq<char>, Seq<char>),
> {
    seq![("api-version"@, api_version), ("model"@, model)]
}

/// The URL for an endpoint, or why there is none. The path is kept; the query is replaced.
pub open spec fn voice_live_url(
    endpoint: Seq<char>,
    model: Seq<char>,
    api_version: Seq<char>,
) -> Result<Seq<char>, Seq<Seq<char>>> {
    match url_read(trimmed(endpoint)) {
        Err(cause) => Err(seq!["Invalid Voice Live endpoint URL: "@ + endpoint, cause]),
        Ok(url) => if url_scheme(url) == "wss"@ {
            Ok(url_with_pairs(url_without_query(url), query_pairs(model, api_version)))
        } else {
            Err(
                seq![
                    "Unsupported Voice Live endpoint URL scheme: "@ + url_scheme(url)
                        + ". Use wss://"@,
                ],
            )
        },
    }
}

/// Checks the scheme of an endpoint.
pub fn check_scheme(scheme: &str) -> (r: Result<(), Error>)
    ensures
        r is Ok <==> scheme@ == "wss"@,
        r matches Err(e) ==> e@ == seq![
            "Unsupported Voice Live endpoint URL scheme: "@ + scheme@ + ". Use wss://"@,
        ],
{
    if same_text(scheme, "wss") {
        Ok(())
    } else {
        Err(
            Error::from_text(
                concat3("Unsupported Voice Live endpoint URL scheme: ", scheme, ". Use wss://"),
            ),
        )
    }
}

/// The URL for an endpoint, which has to be a `wss` URL.
pub fn build_voice_live_url(endpoint: &str, model: &str, api_version: &str) -> (r: Result<
    String,
    Error,
>)
    ensures
        ({
            let url = voice_live_url(endpoint@, model@, api_version@);
            &&& r is Ok <==> url is Ok
            &&& r matches Ok(text) ==> url->Ok_0 == text@
            &&& r matches Err(e) ==> url->Err_0 == e@
        }),
{
    let address = trim(endpoint);
    let mut url = match read_url(address.as_str()) {
        Ok(url) => url,
        Err(cause) => {
            let outer = concat2("Invalid Voice Live endpoint URL: ", endpoint);
            let error = Error::from_text(cause).context(outer.as_str());
            assert(error@ =~= seq![outer@, cause@]);
            return Err(error);
        },
    };
    let scheme = scheme_of(&url);
    match check_scheme(scheme.as_str()) {
        Ok(()) => {},
        Err(error) => return Err(error),
    }
    drop_query(&mut url);
    let mut pairs: Vec<(String, String)> = Vec::new();
    push_pair(&mut pairs, "api-version", api_version);
    push_pair(&mut pairs, "model", model);
    assert(pair_texts(pairs@) =~= query_pairs(model@, api_version@));
    add_pairs(&mut url, &pairs);
    Ok(text_of(&url))
}

impl Host {
    /// The host for an endpoint.
    pub fn new(endpoint: &str, api_key: &str, model: &str, api_version: &str) -> (r: Result<
        Host,
        Error,
    >)
        ensures
            ({
                let url = voice_live_url(endpoint@, model@, api_version@);
                &&& r is Ok <==> url is Ok
                &&& r matches Ok(host) ==> url->Ok_0 == host.wss_url@ && host.api_key@ == api_key@
                &&& r matches Err(e) ==> url->Err_0 == e@
            }),
    {
        match build_voice_live_url(endpoint, model, api_version) {
            Ok(wss_url) => Ok(Host { wss_url, api_key: api_key.to_owned() }),
            Err(error) => Err(error),
        }
    }
}

} // verus!
