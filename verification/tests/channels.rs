use firefox_versions::version::{
    get_version_from_target, FirefoxTargets, FirefoxVersionAPI, VersionError, VERSIONS_URL,
};

fn document() -> FirefoxVersionAPI {
    FirefoxVersionAPI {
        FIREFOX_AURORA: String::new(),
        FIREFOX_DEVEDITION: "129.0b9".to_string(),
        FIREFOX_ESR: "115.13.0esr".to_string(),
        FIREFOX_ESR_NEXT: "128.0.3esr".to_string(),
        FIREFOX_NIGHTLY: "130.0a1".to_string(),
        LAST_MERGE_DATE: "2024-07-08".to_string(),
        LAST_RELEASE_DATE: "2024-07-09".to_string(),
        LATEST_FIREFOX_VERSION: "128.0".to_string(),
        LATEST_FIREFOX_DEVEL_VERSION: "129.0b8".to_string(),
    }
}

fn invalid(name: &str) -> String {
    format!("Invalid target '{}'. Try 'stable', 'beta', 'nightly', 'dev', or 'esr'.", name)
}

#[test]
fn each_key_names_its_channel() {
    let parse = |name: &str| FirefoxTargets::try_from(&name.to_string());
    assert_eq!(parse("stable"), Ok(FirefoxTargets::Stable));
    assert_eq!(parse("beta"), Ok(FirefoxTargets::Beta));
    assert_eq!(parse("nightly"), Ok(FirefoxTargets::Nightly));
    assert_eq!(parse("dev"), Ok(FirefoxTargets::DevEdition));
    assert_eq!(parse("esr"), Ok(FirefoxTargets::ESRNext));
}

#[test]
fn unknown_target_is_refused_with_the_message() {
    assert_eq!(
        FirefoxTargets::try_from(&"bogus".to_string()),
        Err("Invalid target 'bogus'. Try 'stable', 'beta', 'nightly', 'dev', or 'esr'.".to_string())
    );
}

#[test]
fn targets_are_matched_letter_for_letter() {
    for name in [
        "", "Stable", "STABLE", "stable ", " stable", "stabl", "stables", "sta", "Beta", "night",
        "nightly\n", "de", "devel", "dev-edition", "DevEdition", "esr-next", "ESRNext", "es", "esd",
        "der", "release", "aurora",
    ] {
        assert_eq!(FirefoxTargets::try_from(&name.to_string()), Err(invalid(name)), "{:?}", name);
    }
}

#[test]
fn targets_outside_ascii_are_refused_whole() {
    for name in ["stablé", "dév", "бета", "esr\u{301}", "🦊"] {
        assert_eq!(FirefoxTargets::try_from(&name.to_string()), Err(invalid(name)), "{:?}", name);
    }
}

#[test]
fn a_long_target_is_refused_whole() {
    let name = "stable".repeat(2000);
    assert_eq!(FirefoxTargets::try_from(&name), Err(invalid(&name)));
}

#[test]
fn try_into_reads_a_target_too() {
    let name = "nightly".to_string();
    let parsed: Result<FirefoxTargets, String> = (&name).try_into();
    assert_eq!(parsed, Ok(FirefoxTargets::Nightly));
}

#[test]
fn each_channel_has_its_field() {
    let doc = document();
    assert_eq!(doc.get_version(&FirefoxTargets::Stable), "128.0");
    assert_eq!(doc.get_version(&FirefoxTargets::Beta), "129.0b8");
    assert_eq!(doc.get_version(&FirefoxTargets::Nightly), "130.0a1");
    assert_eq!(doc.get_version(&FirefoxTargets::DevEdition), "129.0b9");
    assert_eq!(doc.get_version(&FirefoxTargets::ESRNext), "128.0.3esr");
}

#[test]
fn looking_up_twice_gives_the_same_version() {
    let doc = document();
    for target in [
        FirefoxTargets::Stable,
        FirefoxTargets::Beta,
        FirefoxTargets::Nightly,
        FirefoxTargets::DevEdition,
        FirefoxTargets::ESRNext,
    ] {
        let first = doc.get_version(&target).to_string();
        let second = doc.get_version(&target).to_string();
        assert_eq!(first, second);
        assert_eq!(doc.clone().get_version(&target), first);
    }
}

#[test]
fn a_version_is_handed_on_as_it_stands() {
    let mut doc = document();
    doc.LATEST_FIREFOX_VERSION = String::new();
    doc.FIREFOX_NIGHTLY = " not a version\n".to_string();
    assert_eq!(doc.get_version(&FirefoxTargets::Stable), "");
    assert_eq!(doc.get_version(&FirefoxTargets::Nightly), " not a version\n");
}

#[test]
fn a_channel_gets_its_version_from_the_fetched_document() {
    assert_eq!(FirefoxTargets::Stable.get_version(Ok(document())), Ok("128.0".to_string()));
    assert_eq!(FirefoxTargets::ESRNext.get_version(Ok(document())), Ok("128.0.3esr".to_string()));
}

#[test]
fn a_failed_fetch_is_an_upstream_error() {
    assert_eq!(
        FirefoxTargets::Beta.get_version(Err("error decoding response body".to_string())),
        Err(VersionError::Upstream("error decoding response body".to_string()))
    );
}

#[test]
fn a_known_target_resolves_to_its_version() {
    assert_eq!(
        get_version_from_target(&"stable".to_string(), Ok(document())),
        Ok("128.0".to_string())
    );
    assert_eq!(
        get_version_from_target(&"beta".to_string(), Ok(document())),
        Ok("129.0b8".to_string())
    );
    assert_eq!(
        get_version_from_target(&"nightly".to_string(), Ok(document())),
        Ok("130.0a1".to_string())
    );
    assert_eq!(
        get_version_from_target(&"dev".to_string(), Ok(document())),
        Ok("129.0b9".to_string())
    );
    assert_eq!(
        get_version_from_target(&"esr".to_string(), Ok(document())),
        Ok("128.0.3esr".to_string())
    );
}

#[test]
fn an_unknown_target_is_the_first_error() {
    let expected = Err(VersionError::InvalidChannel(invalid("bogus")));
    assert_eq!(get_version_from_target(&"bogus".to_string(), Ok(document())), expected);
    assert_eq!(
        get_version_from_target(&"bogus".to_string(), Err("connection refused".to_string())),
        expected
    );
}

#[test]
fn a_known_target_with_a_failed_fetch_is_an_upstream_error() {
    assert_eq!(
        get_version_from_target(&"dev".to_string(), Err("connection refused".to_string())),
        Err(VersionError::Upstream("connection refused".to_string()))
    );
}

#[test]
fn an_error_gives_its_text() {
    assert_eq!(VersionError::InvalidChannel(invalid("x")).message(), invalid("x"));
    assert_eq!(VersionError::Upstream("timed out".to_string()).message(), "timed out");
    assert_eq!(VersionError::Upstream(String::new()).message(), "");
}

#[test]
fn the_document_is_fetched_from_product_details() {
    assert_eq!(VERSIONS_URL, "https://product-details.mozilla.org/1.0/firefox_versions.json");
}
