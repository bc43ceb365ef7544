//! Engines that are released on GitHub.

use pesde::engine::source::github::errors::{DownloadError, ResolveError};
use pesde::engine::source::github::{github_url, Asset, GitHubEngineSource, Release};
use pesde::failure::Failure;
use pesde::project::{AuthConfig, Token};
use pesde::version::{read_version, Version};

fn version(s: &str) -> Version {
    read_version(s).unwrap()
}

fn source() -> GitHubEngineSource {
    GitHubEngineSource {
        owner: "lune-org".to_string(),
        repo: "lune".to_string(),
        asset_template: "lune-{VERSION}-linux.zip".to_string(),
    }
}

fn auth(token: Option<&str>) -> AuthConfig {
    AuthConfig {
        tokens: token
            .map(|t| Token { url: github_url(), token: t.to_string() })
            .into_iter()
            .collect(),
    }
}

fn release(tag: &str, assets: &[&str]) -> Release {
    Release {
        tag_name: tag.to_string(),
        assets: assets
            .iter()
            .map(|a| Asset { name: a.to_string(), url: format!("https://example.com/{a}") })
            .collect(),
    }
}

#[test]
fn engines_have_their_directory() {
    let p = source().directory();
    assert_eq!(p.root, "github");
    assert_eq!(p.parts, vec!["lune-org".to_string(), "lune".to_string()]);
    assert_eq!(source().expected_file_name(), "lune");
}

#[test]
fn releases_are_asked_for() {
    let r = source().releases_request(&auth(Some("Bearer x")));
    assert_eq!(r.url, "https://api.github.com/repos/lune-org/lune/releases");
    assert_eq!(r.token.as_deref(), Some("Bearer x"));
    assert!(r.accept.is_none());
    assert!(source().releases_request(&auth(None)).token.is_none());
}

#[test]
fn names_in_urls_are_escaped() {
    let mut s = source();
    s.owner = "a/b c?".to_string();
    s.repo = "é-._~".to_string();
    assert_eq!(
        s.releases_request(&auth(None)).url,
        "https://api.github.com/repos/a%2Fb%20c%3F/%C3%A9-._~/releases"
    );
}

#[test]
fn tags_are_read_as_versions() {
    let listed = vec![release("v0.9.1", &[]), release("nightly", &[]), release("0.8.0", &[])];
    let texts: Vec<Option<String>> =
        source().read_releases(&listed).iter().map(|v| v.as_ref().map(|v| v.to_text())).collect();
    assert_eq!(texts, vec![Some("0.9.1".to_string()), None, Some("0.8.0".to_string())]);
}

#[test]
fn candidates_ascend() {
    let listed = vec![
        release("v0.9.1", &[]),
        release("nightly", &[]),
        release("v0.10.0", &[]),
        release("v0.8.0", &[]),
        release("0.9.1", &[]),
        release("v0.9.1-rc.1", &[]),
        release("v0.7.0", &[]),
    ];
    let accepts = vec![true, true, true, true, true, true, false];
    let found = source().resolve(Ok(&listed), &accepts).unwrap();
    let found: Vec<(String, usize)> =
        found.iter().map(|c| (c.version.to_text(), c.release)).collect();
    assert_eq!(
        found,
        vec![
            ("0.8.0".to_string(), 3),
            ("0.9.1-rc.1".to_string(), 5),
            ("0.9.1".to_string(), 4),
            ("0.10.0".to_string(), 2),
        ]
    );
}

#[test]
fn numbers_decide_the_order() {
    let tags =
        ["v1.0.0", "v0.2.0", "v0.1.10", "v0.1.9", "v0.1.0", "v1.0.0-a", "v0.10.0", "v0.1.0+b"];
    let listed: Vec<Release> = tags.iter().map(|t| release(t, &[])).collect();
    let found = source().resolve(Ok(&listed), &vec![true; 8]).unwrap();
    let found: Vec<String> = found.iter().map(|c| c.version.to_text()).collect();
    assert_eq!(
        found,
        ["0.1.0", "0.1.0+b", "0.1.9", "0.1.10", "0.2.0", "0.10.0", "1.0.0-a", "1.0.0"]
    );
}

#[test]
fn failed_requests_are_told() {
    let e = source().resolve(Err(Failure::of("offline")), &Vec::new()).unwrap_err();
    assert!(matches!(e, ResolveError::Request(_)));
    let f = e.into_failure();
    assert_eq!(f.message, "failed to handle GitHub API request");
    assert_eq!(f.causes, vec!["offline".to_string()]);
}

#[test]
fn assets_are_found() {
    let r = release("v1.0.0", &["other.zip", "LUNE-1.0.0+B-LINUX.zip", "lune-1.0.0-linux.zip"]);
    let (i, request) = source().download(&r, &version("1.0.0+b"), &auth(Some("t"))).unwrap();
    assert_eq!(i, 1);
    assert_eq!(request.url, "https://example.com/LUNE-1.0.0+B-LINUX.zip");
    assert_eq!(request.accept, Some("application/octet-stream"));
    assert_eq!(request.token.as_deref(), Some("t"));
    let (i, _) = source().download(&r, &version("1.0.0"), &auth(None)).unwrap();
    assert_eq!(i, 2);
    let (i, _) = source().download(&r, &version("1.0.0+c"), &auth(None)).unwrap();
    assert_eq!(i, 2);
}

#[test]
fn assets_can_be_missing() {
    let r = release("v1.0.0", &["other.zip"]);
    let e = source().download(&r, &version("1.0.0"), &auth(None)).unwrap_err();
    assert!(matches!(e, DownloadError::AssetNotFound));
    assert_eq!(e.into_failure().message, "failed to find asset for current platform");
}

#[test]
fn downloads_are_finished() {
    assert_eq!(source().finish_download(Ok(()), Ok(7)).unwrap(), 7);
    let e = source().finish_download::<u8>(Err(Failure::of("x")), Err(Failure::of("y")));
    let e = e.unwrap_err();
    assert!(matches!(e, DownloadError::Request(_)));
    assert_eq!(e.into_failure().message, "failed to handle GitHub API request");
    let e = source().finish_download::<u8>(Ok(()), Err(Failure::of("y"))).unwrap_err();
    assert!(matches!(e, DownloadError::ParseAssetName(_)));
    let f = e.into_failure();
    assert_eq!((f.message.as_str(), f.causes.len()), ("failed to parse asset name", 1));
}
