//! Carrying a selection over to the SDK's configuration loader.
//!
//! The loader is a value of the SDK and opaque here. What it has been told
//! about region, credentials and endpoint is named by [`loader_view`]; the
//! few SDK calls that change it sit in private wrappers whose contracts are
//! taken on trust, and everything that decides which of them to call is
//! verified against those contracts.

use crate::selection::{
    selection_rule, CredentialsSource, CredentialsSourceView, EndpointSource, EndpointSourceView,
    RegionSource, RegionSourceView, Selection, SelectionView,
};
use aws_config::profile::{ProfileFileCredentialsProvider, ProfileFileRegionProvider};
use aws_config::{ConfigLoader, Region};
use vstd::prelude::*;

verus! {

/// `aws_config::ConfigLoader`, the SDK's builder of a shared configuration.
/// Nothing inside it is visible to the verifier.
#[verifier::external_type_specification]
#[verifier::external_body]
pub struct ExConfigLoader(aws_config::ConfigLoader);

/// What a loader has been told so far: its region provider, its credentials
/// provider and its endpoint URL, each either set by one of the calls below
/// or left to the SDK. Trusted: the wrappers in this file are the only
/// statements about it.
pub uninterp spec fn loader_view(loader: ConfigLoader) -> SelectionView;

/// `aws_config::from_env`. Trusted: the loader it returns has no region
/// provider, no credentials provider and no endpoint URL set.
#[verifier::external_body]
fn sdk_loader() -> (loader: ConfigLoader)
    ensures
        loader_view(loader) == SelectionView::untouched(),
{
    aws_config::from_env()
}

/// `ConfigLoader::region` on `Region::new(name)`. Trusted: the loader's
/// region becomes that fixed region, and its credentials and endpoint stay
/// as they were.
#[verifier::external_body]
fn with_region(loader: ConfigLoader, name: String) -> (out: ConfigLoader)
    ensures
        loader_view(out).region == RegionSourceView::Explicit(name@),
        loader_view(out).credentials == loader_view(loader).credentials,
        loader_view(out).endpoint == loader_view(loader).endpoint,
{
    loader.region(Region::new(name))
}

/// `ConfigLoader::region` on a `ProfileFileRegionProvider` that its builder
/// (`builder`, `profile_name`, `build`) made for `profile`. Trusted: the
/// loader's region becomes the one read from that profile, and its
/// credentials and endpoint stay as they were.
#[verifier::external_body]
fn with_profile_region(loader: ConfigLoader, profile: &str) -> (out: ConfigLoader)
    ensures
        loader_view(out).region == RegionSourceView::Profile(profile@),
        loader_view(out).credentials == loader_view(loader).credentials,
        loader_view(out).endpoint == loader_view(loader).endpoint,
{
    loader.region(ProfileFileRegionProvider::builder().profile_name(profile).build())
}

/// `ConfigLoader::credentials_provider` on a
/// `ProfileFileCredentialsProvider` that its builder (`builder`,
/// `profile_name`, `build`) made for `profile`. Trusted: the loader's
/// credentials become those read from that profile, and its region and
/// endpoint stay as they were.
#[verifier::external_body]
fn with_profile_credentials(loader: ConfigLoader, profile: &str) -> (out: ConfigLoader)
    ensures
        loader_view(out).region == loader_view(loader).region,
        loader_view(out).credentials == CredentialsSourceView::Profile(profile@),
        loader_view(out).endpoint == loader_view(loader).endpoint,
{
    loader.credentials_provider(
        ProfileFileCredentialsProvider::builder().profile_name(profile).build(),
    )
}

/// `ConfigLoader::endpoint_url`. Trusted: the loader's endpoint becomes
/// `url`, and its region and credentials stay as they were.
#[verifier::external_body]
fn with_endpoint_url(loader: ConfigLoader, url: String) -> (out: ConfigLoader)
    ensures
        loader_view(out).region == loader_view(loader).region,
        loader_view(out).credentials == loader_view(loader).credentials,
        loader_view(out).endpoint == EndpointSourceView::Override(url@),
{
    loader.endpoint_url(url)
}

impl SelectionView {
    /// The effect of a region choice: an override replaces the region, the
    /// default chain leaves everything as it was.
    pub open spec fn override_region(self, source: RegionSourceView) -> SelectionView {
        match source {
            RegionSourceView::DefaultChain => self,
            _ => SelectionView { region: source, credentials: self.credentials, endpoint: self.endpoint },
        }
    }

    /// The effect of a credentials choice.
    pub open spec fn override_credentials(self, source: CredentialsSourceView) -> SelectionView {
        match source {
            CredentialsSourceView::DefaultChain => self,
            _ => SelectionView { region: self.region, credentials: source, endpoint: self.endpoint },
        }
    }

    /// The effect of an endpoint choice.
    pub open spec fn override_endpoint(self, source: EndpointSourceView) -> SelectionView {
        match source {
            EndpointSourceView::Default => self,
            _ => SelectionView { region: self.region, credentials: self.credentials, endpoint: source },
        }
    }
}

/// Tells the loader where the region comes from. With
/// [`RegionSource::DefaultChain`] the loader is handed back untouched.
pub fn apply_region(loader: ConfigLoader, source: RegionSource) -> (out: ConfigLoader)
    ensures
        loader_view(out) == loader_view(loader).override_region(source@),
        source is DefaultChain ==> out == loader,
{
    match source {
        RegionSource::Explicit(name) => with_region(loader, name),
        RegionSource::Profile(profile) => with_profile_region(loader, profile.as_str()),
        RegionSource::DefaultChain => loader,
    }
}

/// Tells the loader where the credentials come from. With
/// [`CredentialsSource::DefaultChain`] the loader is handed back untouched.
pub fn apply_credentials(loader: ConfigLoader, source: CredentialsSource) -> (out: ConfigLoader)
    ensures
        loader_view(out) == loader_view(loader).override_credentials(source@),
        source is DefaultChain ==> out == loader,
{
    match source {
        CredentialsSource::Profile(profile) => with_profile_credentials(loader, profile.as_str()),
        CredentialsSource::DefaultChain => loader,
    }
}

/// Tells the loader which endpoint to use. With [`EndpointSource::Default`]
/// the loader is handed back untouched.
pub fn apply_endpoint(loader: ConfigLoader, source: EndpointSource) -> (out: ConfigLoader)
    ensures
        loader_view(out) == loader_view(loader).override_endpoint(source@),
        source is Default ==> out == loader,
{
    match source {
        EndpointSource::Override(url) => with_endpoint_url(loader, url),
        EndpointSource::Default => loader,
    }
}

/// Prepares the configuration of the SDK clients: a loader that starts from
/// the SDK's defaults and carries exactly the overrides that the selection
/// policy asks for, applied in the order region, credentials, endpoint.
///
/// The loader is returned ready to be loaded; loading it is the caller's one
/// asynchronous step.
pub fn build_client_config(
    region: Option<String>,
    profile: Option<&str>,
    endpoint: Option<String>,
) -> (loader: ConfigLoader)
    ensures
        loader_view(loader) == selection_rule(
            region.deep_view(),
            profile.deep_view(),
            endpoint.deep_view(),
        ),
{
    let selection = Selection::new(region, profile, endpoint);
    let loader = sdk_loader();
    let loader = apply_region(loader, selection.region);
    let loader = apply_credentials(loader, selection.credentials);
    apply_endpoint(loader, selection.endpoint)
}

} // verus!
