//! What the selection policy guarantees, stated over [`selection_rule`] for
//! every combination of inputs. [`Selection::new`](crate::Selection::new) and
//! [`build_client_config`](crate::build_client_config) are proved equal to
//! that rule, so each law holds of what they return.

use crate::selection::{
    selection_rule, CredentialsSourceView, EndpointSourceView, RegionSourceView, SelectionView,
};
use vstd::prelude::*;

verus! {

/// A given region is the region of the configuration, whether or not a
/// profile is given as well.
pub proof fn explicit_region_wins(
    region: Seq<char>,
    profile: Option<Seq<char>>,
    endpoint: Option<Seq<char>>,
)
    ensures
        selection_rule(Some(region), profile, endpoint).region == RegionSourceView::Explicit(
            region,
        ),
{
}

/// Without a region, a given profile is where the region is read from.
pub proof fn profile_supplies_region(profile: Seq<char>, endpoint: Option<Seq<char>>)
    ensures
        selection_rule(None, Some(profile), endpoint).region == RegionSourceView::Profile(
            profile,
        ),
{
}

/// Without a region and without a profile, no region override is applied.
pub proof fn region_defaults_without_inputs(endpoint: Option<Seq<char>>)
    ensures
        selection_rule(None, None, endpoint).region == RegionSourceView::DefaultChain,
{
}

/// A given profile is where the credentials are read from, whichever branch
/// decided the region.
pub proof fn profile_supplies_credentials(
    region: Option<Seq<char>>,
    profile: Seq<char>,
    endpoint: Option<Seq<char>>,
)
    ensures
        selection_rule(region, Some(profile), endpoint).credentials
            == CredentialsSourceView::Profile(profile),
{
}

/// Without a profile, no credentials override is applied.
pub proof fn credentials_default_without_profile(
    region: Option<Seq<char>>,
    endpoint: Option<Seq<char>>,
)
    ensures
        selection_rule(region, None, endpoint).credentials == CredentialsSourceView::DefaultChain,
{
}

/// A given endpoint is the endpoint of the configuration; without one, no
/// endpoint override is applied.
pub proof fn endpoint_follows_input(
    region: Option<Seq<char>>,
    profile: Option<Seq<char>>,
    endpoint: Option<Seq<char>>,
)
    ensures
        endpoint matches Some(url) ==> selection_rule(region, profile, endpoint).endpoint
            == EndpointSourceView::Override(url),
        endpoint is None ==> selection_rule(region, profile, endpoint).endpoint
            == EndpointSourceView::Default,
{
}

/// At most one region source is active, and presence alone decides which: a
/// fixed region exactly when a region is given, the profile's region exactly
/// when only a profile is given, the default chain exactly when neither is.
pub proof fn region_sources_are_exclusive(
    region: Option<Seq<char>>,
    profile: Option<Seq<char>>,
    endpoint: Option<Seq<char>>,
)
    ensures
        selection_rule(region, profile, endpoint).region is Explicit <==> region is Some,
        selection_rule(region, profile, endpoint).region is Profile <==> region is None
            && profile is Some,
        selection_rule(region, profile, endpoint).region is DefaultChain <==> region is None
            && profile is None,
{
}

/// Applying a region choice, a credentials choice and an endpoint choice, in
/// that order, to a loader that has been told nothing leaves it holding
/// exactly those three choices.
pub proof fn overrides_compose(
    region: RegionSourceView,
    credentials: CredentialsSourceView,
    endpoint: EndpointSourceView,
)
    ensures
        SelectionView::untouched().override_region(region).override_credentials(
            credentials,
        ).override_endpoint(endpoint) == (SelectionView { region, credentials, endpoint }),
{
}

/// The three concerns do not interfere: the region depends on the region and
/// profile alone, the credentials on the profile alone, the endpoint on the
/// endpoint alone.
pub proof fn concerns_are_independent(
    region_a: Option<Seq<char>>,
    region_b: Option<Seq<char>>,
    profile_a: Option<Seq<char>>,
    profile_b: Option<Seq<char>>,
    endpoint_a: Option<Seq<char>>,
    endpoint_b: Option<Seq<char>>,
)
    ensures
        selection_rule(region_a, profile_a, endpoint_a).region == selection_rule(
            region_a,
            profile_a,
            endpoint_b,
        ).region,
        selection_rule(region_a, profile_a, endpoint_a).credentials == selection_rule(
            region_b,
            profile_a,
            endpoint_b,
        ).credentials,
        selection_rule(region_a, profile_a, endpoint_a).endpoint == selection_rule(
            region_b,
            profile_b,
            endpoint_a,
        ).endpoint,
{
}

} // verus!
