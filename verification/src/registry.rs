//! The services that conversations can be held with.

use vstd::prelude::*;

use crate::error::Error;
use crate::table::Table;
use crate::text::concat3;

verus! {

/// Services by their names.
pub struct Registry<S: View> {
    services: Table<String, S>,
}

impl<S: View> View for Registry<S> {
    type V = Map<Seq<char>, S::V>;

    closed spec fn view(&self) -> Map<Seq<char>, S::V> {
        self.services@
    }
}

/// The message for a service that is not there.
pub open spec fn unregistered(name: Seq<char>) -> Seq<char> {
    "`"@ + name + "`: Unregistered service"@
}

impl<S: View> Registry<S> {
    /// No services.
    pub fn empty() -> (r: Registry<S>)
        ensures
            r@ == Map::<Seq<char>, S::V>::empty(),
    {
        Registry { services: Table::new() }
    }

    /// The same services and one more.
    pub fn add_service(self, name: &str, service: S) -> (r: Registry<S>)
        ensures
            r@ == self@.insert(name@, service@),
    {
        let mut services = self.services;
        let _ = services.insert(name.to_owned(), service);
        Registry { services }
    }

    /// The service with the given name.
    pub fn service(&self, name: &str) -> (r: Result<&S, Error>)
        ensures
            r is Ok <==> self@.contains_key(name@),
            r matches Ok(service) ==> service@ == self@[name@],
            r matches Err(e) ==> e@ == seq![unregistered(name@)],
    {
        let key = name.to_owned();
        match self.services.get(&key) {
            Some(service) => Ok(service),
            None => Err(Error::from_text(concat3("`", name, "`: Unregistered service"))),
        }
    }
}

/// The services that come with this library.
#[derive(Debug, Clone, Copy, PartialEq, Eq, Structural)]
pub enum ServiceKind {
    AzureTranscribe,
    AzureSynthesize,
    AzureTranslate,
    OpenAIDialog,
    AristechTranscribe,
    AristechSynthesize,
}

impl View for ServiceKind {
    type V = ServiceKind;

    open spec fn view(&self) -> ServiceKind {
        *self
    }
}

/// The name that a service is registered under.
pub open spec fn service_name(kind: ServiceKind) -> Seq<char> {
    match kind {
        ServiceKind::AzureTranscribe => "azure-transcribe"@,
        ServiceKind::AzureSynthesize => "azure-synthesize"@,
        ServiceKind::AzureTranslate => "azure-translate"@,
        ServiceKind::OpenAIDialog => "openai-dialog"@,
        ServiceKind::AristechTranscribe => "aristech-transcribe"@,
        ServiceKind::AristechSynthesize => "aristech-synthesize"@,
    }
}

impl ServiceKind {
    /// The name that the service is registered under.
    pub fn name(self) -> (r: &'static str)
        ensures
            r@ == service_name(self),
    {
        match self {
            ServiceKind::AzureTranscribe => "azure-transcribe",
            ServiceKind::AzureSynthesize => "azure-synthesize",
            ServiceKind::AzureTranslate => "azure-translate",
            ServiceKind::OpenAIDialog => "openai-dialog",
            ServiceKind::AristechTranscribe => "aristech-transcribe",
            ServiceKind::AristechSynthesize => "aristech-synthesize",
        }
    }
}

/// The services that a registry holds unless it is told others.
pub open spec fn default_services() -> Map<Seq<char>, ServiceKind> {
    Map::<Seq<char>, ServiceKind>::empty().insert(
        "azure-transcribe"@,
        ServiceKind::AzureTranscribe,
    ).insert("azure-synthesize"@, ServiceKind::AzureSynthesize).insert(
        "openai-dialog"@,
        ServiceKind::OpenAIDialog,
    )
}

/// All services.
pub open spec fn all_services() -> Map<Seq<char>, ServiceKind> {
    Map::<Seq<char>, ServiceKind>::empty().insert(
        "azure-transcribe"@,
        ServiceKind::AzureTranscribe,
    ).insert("azure-synthesize"@, ServiceKind::AzureSynthesize).insert(
        "azure-translate"@,
        ServiceKind::AzureTranslate,
    ).insert("openai-dialog"@, ServiceKind::OpenAIDialog).insert(
        "aristech-transcribe"@,
        ServiceKind::AristechTranscribe,
    ).insert("aristech-synthesize"@, ServiceKind::AristechSynthesize)
}

impl Registry<ServiceKind> {
    /// The same services and one more, under its own name.
    fn with(self, kind: ServiceKind) -> (r: Registry<ServiceKind>)
        ensures
            r@ == self@.insert(service_name(kind), kind),
    {
        self.add_service(kind.name(), kind)
    }
}

impl Default for Registry<ServiceKind> {
    fn default() -> (r: Registry<ServiceKind>)
        ensures
            r@ == default_services(),
    {
        Registry::empty().with(ServiceKind::AzureTranscribe).with(
            ServiceKind::AzureSynthesize,
        ).with(ServiceKind::OpenAIDialog)
    }
}

/// All services.
pub fn registry() -> (r: Registry<ServiceKind>)
    ensures
        r@ == all_services(),
{
    Registry::empty().with(ServiceKind::AzureTranscribe).with(ServiceKind::AzureSynthesize).with(
        ServiceKind::AzureTranslate,
    ).with(ServiceKind::OpenAIDialog).with(ServiceKind::AristechTranscribe).with(
        ServiceKind::AristechSynthesize,
    )
}

/// Takes the parameters of a service, or reports why they could not be read.
pub fn service_params<P>(params: Result<P, Error>) -> (r: Result<P, Error>)
    ensures
        r is Ok <==> params is Ok,
        r is Ok ==> r == params,
        r matches Err(e) ==> e@ == seq!["Failed to deserialize service params"@]
            + params->Err_0@,
{
    match params {
        Ok(params) => Ok(params),
        Err(error) => Err(error.context("Failed to deserialize service params")),
    }
}

/// A service that was added is found under its name, and the others stay as they were.
pub proof fn law_added_services_are_found<V>(
    services: Map<Seq<char>, V>,
    name: Seq<char>,
    service: V,
    other: Seq<char>,
)
    ensures
        services.insert(name, service).contains_key(name),
        services.insert(name, service)[name] == service,
        other != name ==> (services.insert(name, service).contains_key(other)
            <==> services.contains_key(other)),
        other != name && services.contains_key(other) ==> services.insert(name, service)[other]
            == services[other],
{
}

/// Each service has its own name, and is found under it.
pub proof fn law_services_have_their_names(kind: ServiceKind, name: Seq<char>)
    ensures
        unregistered(name) == "`"@ + name + "`: Unregistered service"@,
        all_services().contains_key(name) <==> (name == "azure-transcribe"@ || name
            == "azure-synthesize"@ || name == "azure-translate"@ || name == "openai-dialog"@
            || name == "aristech-transcribe"@ || name == "aristech-synthesize"@),
        default_services().contains_key(name) <==> (name == "azure-transcribe"@ || name
            == "azure-synthesize"@ || name == "openai-dialog"@),
        all_services().contains_key(service_name(kind)) && all_services()[service_name(kind)]
            == kind,
        default_services().contains_key(service_name(kind)) ==> default_services()[service_name(
            kind,
        )] == kind,
        kind is AzureTranscribe ==> service_name(kind) == "azure-transcribe"@,
        kind is AzureSynthesize ==> service_name(kind) == "azure-synthesize"@,
        kind is AzureTranslate ==> service_name(kind) == "azure-translate"@,
        kind is OpenAIDialog ==> service_name(kind) == "openai-dialog"@,
        kind is AristechTranscribe ==> service_name(kind) == "aristech-transcribe"@,
        kind is AristechSynthesize ==> service_name(kind) == "aristech-synthesize"@,
{
    reveal_strlit("azure-transcribe");
    reveal_strlit("azure-synthesize");
    reveal_strlit("azure-translate");
    reveal_strlit("openai-dialog");
    reveal_strlit("aristech-transcribe");
    reveal_strlit("aristech-synthesize");
    let (a, b, c) = ("azure-transcribe"@, "azure-synthesize"@, "azure-translate"@);
    let (d, e, f) = ("openai-dialog"@, "aristech-transcribe"@, "aristech-synthesize"@);
    assert(a.len() == 16 && b.len() == 16 && c.len() == 15);
    assert(d.len() == 13 && e.len() == 19 && f.len() == 19);
    assert(a[6] == 't' && b[6] == 's' && e[9] == 't' && f[9] == 's');
    assert(a != b && e != f);
}

/// A service is found under the name that it was registered with, and parameters that cannot be read
/// are reported as such.
pub proof fn law_found_services<S: View, P>(
    registry: Registry<S>,
    name: &str,
    service: S,
    added: Registry<S>,
    found: Result<&S, Error>,
    params: Result<P, Error>,
    checked: Result<P, Error>,
)
    requires
        call_ensures(Registry::<S>::add_service, (registry, name, service), added),
        call_ensures(Registry::<S>::service, (&registry, name), found),
        call_ensures(service_params::<P>, (params,), checked),
    ensures
        added@.contains_key(name@) && added@[name@] == service@,
        forall|other: Seq<char>|
            other != name@ ==> (#[trigger] added@.contains_key(other) <==> registry@.contains_key(
                other,
            )),
        found is Ok <==> registry@.contains_key(name@),
        found is Ok ==> found->Ok_0@ == registry@[name@],
        found is Err ==> found->Err_0@ == seq!["`"@ + name@ + "`: Unregistered service"@],
        params is Ok ==> checked == params,
        params is Err ==> checked is Err && checked->Err_0@.len() == params->Err_0@.len() + 1
            && checked->Err_0@[0] == "Failed to deserialize service params"@,
{
}

} // verus!
