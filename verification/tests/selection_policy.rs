use aws_client_config::selection::{select_credentials, select_endpoint, select_region};
use aws_client_config::{CredentialsSource, EndpointSource, RegionSource, Selection};

fn text(s: &str) -> Option<String> {
    Some(s.to_string())
}

#[test]
fn region_alone_overrides_only_the_region() {
    let got = Selection::new(text("us-west-2"), None, None);
    assert_eq!(
        got,
        Selection {
            region: RegionSource::Explicit("us-west-2".to_string()),
            credentials: CredentialsSource::DefaultChain,
            endpoint: EndpointSource::Default,
        }
    );
}

#[test]
fn profile_alone_supplies_region_and_credentials() {
    let got = Selection::new(None, Some("dev"), None);
    assert_eq!(
        got,
        Selection {
            region: RegionSource::Profile("dev".to_string()),
            credentials: CredentialsSource::Profile("dev".to_string()),
            endpoint: EndpointSource::Default,
        }
    );
}

#[test]
fn endpoint_alone_overrides_only_the_endpoint() {
    let got = Selection::new(None, None, text("http://localhost:9000"));
    assert_eq!(
        got,
        Selection {
            region: RegionSource::DefaultChain,
            credentials: CredentialsSource::DefaultChain,
            endpoint: EndpointSource::Override("http://localhost:9000".to_string()),
        }
    );
}

#[test]
fn explicit_region_wins_over_profile_region() {
    let got = Selection::new(text("eu-central-1"), Some("dev"), text("http://x"));
    assert_eq!(
        got,
        Selection {
            region: RegionSource::Explicit("eu-central-1".to_string()),
            credentials: CredentialsSource::Profile("dev".to_string()),
            endpoint: EndpointSource::Override("http://x".to_string()),
        }
    );
}

#[test]
fn nothing_given_overrides_nothing() {
    let got = Selection::new(None, None, None);
    assert_eq!(
        got,
        Selection {
            region: RegionSource::DefaultChain,
            credentials: CredentialsSource::DefaultChain,
            endpoint: EndpointSource::Default,
        }
    );
}

#[test]
fn select_region_takes_the_given_region_with_or_without_profile() {
    let expected = RegionSource::Explicit("ap-south-1".to_string());
    assert_eq!(select_region(text("ap-south-1"), None), expected);
    assert_eq!(select_region(text("ap-south-1"), Some("dev")), expected);
    assert_eq!(select_region(text("ap-south-1"), Some("prod")), expected);
}

#[test]
fn select_region_falls_back_to_the_profile() {
    assert_eq!(
        select_region(None, Some("prod")),
        RegionSource::Profile("prod".to_string())
    );
}

#[test]
fn select_region_without_inputs_is_the_default_chain() {
    assert_eq!(select_region(None, None), RegionSource::DefaultChain);
}

#[test]
fn select_credentials_follows_the_profile_only() {
    assert_eq!(
        select_credentials(Some("dev")),
        CredentialsSource::Profile("dev".to_string())
    );
    assert_eq!(select_credentials(None), CredentialsSource::DefaultChain);
}

#[test]
fn select_endpoint_follows_the_endpoint_only() {
    assert_eq!(
        select_endpoint(text("http://localhost:9000")),
        EndpointSource::Override("http://localhost:9000".to_string())
    );
    assert_eq!(select_endpoint(None), EndpointSource::Default);
}

#[test]
fn credentials_do_not_depend_on_the_region_branch() {
    let with_region = Selection::new(text("us-east-1"), Some("dev"), None);
    let without_region = Selection::new(None, Some("dev"), None);
    assert_eq!(with_region.credentials, without_region.credentials);
    assert_eq!(
        with_region.credentials,
        CredentialsSource::Profile("dev".to_string())
    );
    assert_ne!(with_region.region, without_region.region);
}

#[test]
fn endpoint_does_not_depend_on_region_or_profile() {
    let a = Selection::new(text("us-east-1"), Some("dev"), text("http://x"));
    let b = Selection::new(None, None, text("http://x"));
    assert_eq!(a.endpoint, b.endpoint);
    let c = Selection::new(text("us-east-1"), Some("dev"), None);
    assert_eq!(c.endpoint, EndpointSource::Default);
}

#[test]
fn presence_decides_not_content() {
    let got = Selection::new(text(""), Some(""), text(""));
    assert_eq!(
        got,
        Selection {
            region: RegionSource::Explicit(String::new()),
            credentials: CredentialsSource::Profile(String::new()),
            endpoint: EndpointSource::Override(String::new()),
        }
    );
    assert_eq!(
        select_region(None, Some("")),
        RegionSource::Profile(String::new())
    );
}

#[test]
fn profile_name_is_kept_letter_for_letter() {
    assert_eq!(
        select_region(None, Some(" Dev-Ops_1 ")),
        RegionSource::Profile(" Dev-Ops_1 ".to_string())
    );
    assert_eq!(
        select_credentials(Some(" Dev-Ops_1 ")),
        CredentialsSource::Profile(" Dev-Ops_1 ".to_string())
    );
}
