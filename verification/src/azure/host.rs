//! Where the services are reached.

use vstd::prelude::*;

use crate::error::Error;
use crate::text::opt_view;
use crate::urls::read_url;
use crate::urls::text_of;
use crate::urls::url_read;

verus! {

/// Where a service is reached, and the key for it.
pub struct Host {
    pub address: Address,
    pub subscription_key: String,
}

/// Where a service is reached.
pub enum Address {
    /// At a URL.
    Url(String),
    /// In a region.
    Region(String),
}

/// Where a service is reached, as mathematical values.
pub enum AddressView {
    Url(Seq<char>),
    Region(Seq<char>),
}

impl View for Address {
    type V = AddressView;

    open spec fn view(&self) -> AddressView {
        match *self {
            Address::Url(url) => AddressView::Url(url@),
            Address::Region(region) => AddressView::Region(region@),
        }
    }
}

impl Host {
    /// A host by its URL.
    pub fn from_host(host: String, subscription_key: String) -> (r: Result<Host, Error>)
        ensures
            r is Ok <==> url_read(host@) is Ok,
            r matches Ok(h) ==> h.address@ == AddressView::Url(url_read(host@)->Ok_0)
                && h.subscription_key@ == subscription_key@,
            r matches Err(e) ==> e@ == seq![url_read(host@)->Err_0],
    {
        match read_url(host.as_str()) {
            Ok(url) => Host::from_read(Ok(text_of(&url)), subscription_key),
            Err(cause) => Host::from_read(Err(cause), subscription_key),
        }
    }

    /// A host by its URL, given what was read from a text: the URL, or why there is none.
    pub fn from_read(url: Result<String, String>, subscription_key: String) -> (r: Result<
        Host,
        Error,
    >)
        ensures
            r is Ok <==> url is Ok,
            r matches Ok(h) ==> h.address@ == AddressView::Url(url->Ok_0@)
                && h.subscription_key@ == subscription_key@,
            r matches Err(e) ==> e@ == seq![url->Err_0@],
    {
        match url {
            Ok(url) => Ok(Host { address: Address::Url(url), subscription_key }),
            Err(cause) => Err(Error::from_text(cause)),
        }
    }

    /// A host by its region.
    pub fn from_subscription(region: String, subscription_key: String) -> (r: Host)
        ensures
            r.address@ == AddressView::Region(region@),
            r.subscription_key@ == subscription_key@,
    {
        Host { address: Address::Region(region), subscription_key }
    }

    /// The host that parameters mean: the URL comes before the region, and without both, `missing`
    /// is the message.
    pub fn from_params(
        host: Option<String>,
        region: Option<String>,
        subscription_key: String,
        missing: &str,
    ) -> (r: Result<Host, Error>)
        ensures
            ({
                let address = addressed(opt_view(host), opt_view(region), missing@);
                &&& r is Ok <==> address is Ok
                &&& r matches Ok(h) ==> h.address@ == address->Ok_0 && h.subscription_key@
                    == subscription_key@
                &&& r matches Err(e) ==> e@ == seq![address->Err_0]
            }),
    {
        match host {
            Some(host) => Host::from_host(host, subscription_key),
            None => match region {
                Some(region) => Ok(Host::from_subscription(region, subscription_key)),
                None => Err(Error::new(missing)),
            },
        }
    }
}

/// The address that parameters mean, or why there is none.
pub open spec fn addressed(
    host: Option<Seq<char>>,
    region: Option<Seq<char>>,
    missing: Seq<char>,
) -> Result<AddressView, Seq<char>> {
    match (host, region) {
        (Some(host), _) => match url_read(host) {
            Ok(url) => Ok(AddressView::Url(url)),
            Err(cause) => Err(cause),
        },
        (None, Some(region)) => Ok(AddressView::Region(region)),
        (None, None) => Err(missing),
    }
}

} // verus!
