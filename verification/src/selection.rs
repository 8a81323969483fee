//! The selection policy: which source each part of a client configuration is
//! taken from, given the three optional values a caller may supply.
//!
//! Region, credentials and endpoint are three separate concerns. Each has its
//! own rule, stated as a spec function over plain sequences of characters, and
//! its own executable function proved to follow that rule.

use vstd::prelude::*;

verus! {

/// Where the region of a configuration comes from.
#[derive(Debug, Clone, PartialEq, Eq)]
pub enum RegionSource {
    /// A region named by the caller. It wins over anything a profile says.
    Explicit(String),
    /// The region setting of the named profile.
    Profile(String),
    /// No override: the SDK's own provider chain decides.
    DefaultChain,
}

/// Where the credentials of a configuration come from.
#[derive(Debug, Clone, PartialEq, Eq)]
pub enum CredentialsSource {
    /// The credentials stored under the named profile.
    Profile(String),
    /// No override: the SDK's own provider chain decides.
    DefaultChain,
}

/// Which endpoint the clients of a configuration talk to.
#[derive(Debug, Clone, PartialEq, Eq)]
pub enum EndpointSource {
    /// The given URL, for every service.
    Override(String),
    /// No override: each service resolves its regional endpoint.
    Default,
}

/// The three choices that make up one client configuration.
#[derive(Debug, Clone, PartialEq, Eq)]
pub struct Selection {
    pub region: RegionSource,
    pub credentials: CredentialsSource,
    pub endpoint: EndpointSource,
}

/// Model of a [`RegionSource`]: the same choice over sequences of characters.
pub enum RegionSourceView {
    Explicit(Seq<char>),
    Profile(Seq<char>),
    DefaultChain,
}

/// Model of a [`CredentialsSource`].
pub enum CredentialsSourceView {
    Profile(Seq<char>),
    DefaultChain,
}

/// Model of an [`EndpointSource`].
pub enum EndpointSourceView {
    Override(Seq<char>),
    Default,
}

/// Model of a [`Selection`], and of what a configuration loader has been told.
pub struct SelectionView {
    pub region: RegionSourceView,
    pub credentials: CredentialsSourceView,
    pub endpoint: EndpointSourceView,
}

impl View for RegionSource {
    type V = RegionSourceView;

    open spec fn view(&self) -> RegionSourceView {
        match self {
            RegionSource::Explicit(name) => RegionSourceView::Explicit(name@),
            RegionSource::Profile(name) => RegionSourceView::Profile(name@),
            RegionSource::DefaultChain => RegionSourceView::DefaultChain,
        }
    }
}

impl View for CredentialsSource {
    type V = CredentialsSourceView;

    open spec fn view(&self) -> CredentialsSourceView {
        match self {
            CredentialsSource::Profile(name) => CredentialsSourceView::Profile(name@),
            CredentialsSource::DefaultChain => CredentialsSourceView::DefaultChain,
        }
    }
}

impl View for EndpointSource {
    type V = EndpointSourceView;

    open spec fn view(&self) -> EndpointSourceView {
        match self {
            EndpointSource::Override(url) => EndpointSourceView::Override(url@),
            EndpointSource::Default => EndpointSourceView::Default,
        }
    }
}

impl View for Selection {
    type V = SelectionView;

    open spec fn view(&self) -> SelectionView {
        SelectionView {
            region: self.region@,
            credentials: self.credentials@,
            endpoint: self.endpoint@,
        }
    }
}

impl SelectionView {
    /// The selection in which nothing is overridden.
    pub open spec fn untouched() -> SelectionView {
        SelectionView {
            region: RegionSourceView::DefaultChain,
            credentials: CredentialsSourceView::DefaultChain,
            endpoint: EndpointSourceView::Default,
        }
    }
}

/// The region rule: a given region is used as it is; without one, a given
/// profile supplies the region; without either, nothing is overridden.
pub open spec fn region_rule(
    region: Option<Seq<char>>,
    profile: Option<Seq<char>>,
) -> RegionSourceView {
    match (region, profile) {
        (Some(name), _) => RegionSourceView::Explicit(name),
        (None, Some(name)) => RegionSourceView::Profile(name),
        (None, None) => RegionSourceView::DefaultChain,
    }
}

/// The credentials rule: a given profile supplies the credentials, whatever
/// was decided for the region; without one, nothing is overridden.
pub open spec fn credentials_rule(profile: Option<Seq<char>>) -> CredentialsSourceView {
    match profile {
        Some(name) => CredentialsSourceView::Profile(name),
        None => CredentialsSourceView::DefaultChain,
    }
}

/// The endpoint rule: a given URL replaces the endpoint; without one, nothing
/// is overridden.
pub open spec fn endpoint_rule(endpoint: Option<Seq<char>>) -> EndpointSourceView {
    match endpoint {
        Some(url) => EndpointSourceView::Override(url),
        None => EndpointSourceView::Default,
    }
}

/// The whole policy: the three rules side by side.
pub open spec fn selection_rule(
    region: Option<Seq<char>>,
    profile: Option<Seq<char>>,
    endpoint: Option<Seq<char>>,
) -> SelectionView {
    SelectionView {
        region: region_rule(region, profile),
        credentials: credentials_rule(profile),
        endpoint: endpoint_rule(endpoint),
    }
}

/// Decides where the region comes from.
pub fn select_region(region: Option<String>, profile: Option<&str>) -> (source: RegionSource)
    ensures
        source@ == region_rule(region.deep_view(), profile.deep_view()),
{
    match (region, profile) {
        (Some(name), _) => RegionSource::Explicit(name),
        (None, Some(name)) => RegionSource::Profile(name.to_owned()),
        (None, None) => RegionSource::DefaultChain,
    }
}

/// Decides where the credentials come from.
pub fn select_credentials(profile: Option<&str>) -> (source: CredentialsSource)
    ensures
        source@ == credentials_rule(profile.deep_view()),
{
    match profile {
        Some(name) => CredentialsSource::Profile(name.to_owned()),
        None => CredentialsSource::DefaultChain,
    }
}

/// Decides which endpoint is used.
pub fn select_endpoint(endpoint: Option<String>) -> (source: EndpointSource)
    ensures
        source@ == endpoint_rule(endpoint.deep_view()),
{
    match endpoint {
        Some(url) => EndpointSource::Override(url),
        None => EndpointSource::Default,
    }
}

impl Selection {
    /// Applies the three rules to the values a caller supplied.
    pub fn new(region: Option<String>, profile: Option<&str>, endpoint: Option<String>) -> (selection: Selection)
        ensures
            selection@ == selection_rule(
                region.deep_view(),
                profile.deep_view(),
                endpoint.deep_view(),
            ),
    {
        Selection {
            region: select_region(region, profile),
            credentials: select_credentials(profile),
            endpoint: select_endpoint(endpoint),
        }
    }
}

} // verus!
