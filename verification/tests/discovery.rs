use presence_core::errors::DiscoveryError;
use presence_core::pipes::filter_endpoints;
use presence_core::pipes::local_endpoints;
use presence_core::pipes::name_matches;
use presence_core::pipes::parse_line_output;
use presence_core::pipes::with_sentinel;

const SENTINEL: &str = "No Discord IPC pipes found";

#[test]
fn marker_matching() {
    assert!(name_matches("discord-ipc-0"));
    assert!(name_matches("x-discord-ipc"));
    assert!(name_matches("discord-ipc"));
    assert!(!name_matches("discord-ip"));
    assert!(!name_matches("spotify-ipc-0"));
    assert!(!name_matches(""));
}

#[test]
fn filtering_keeps_only_marked_names_in_order() {
    let names = vec![
        "mojo.shared".to_string(),
        "discord-ipc-0".to_string(),
        "crashpad_1234".to_string(),
        "discord-ipc-1".to_string(),
    ];
    let found = filter_endpoints(&names);
    assert_eq!(found, vec!["discord-ipc-0".to_string(), "discord-ipc-1".to_string()]);
}

#[test]
fn empty_scan_yields_the_sentinel() {
    let r = with_sentinel(Vec::new());
    assert_eq!(r, vec![SENTINEL.to_string()]);
}

#[test]
fn nonempty_scan_passes_through() {
    let r = with_sentinel(vec!["discord-ipc-0".to_string()]);
    assert_eq!(r, vec!["discord-ipc-0".to_string()]);
}

#[test]
fn line_output_is_trimmed_and_cleaned() {
    let lines = parse_line_output("  discord-ipc-0 \r\n\r\n\tdiscord-ipc-1\n   \n");
    assert_eq!(lines, vec!["discord-ipc-0".to_string(), "discord-ipc-1".to_string()]);
}

#[test]
fn line_output_without_trailing_break() {
    let lines = parse_line_output("discord-ipc-0");
    assert_eq!(lines, vec!["discord-ipc-0".to_string()]);
    assert_eq!(parse_line_output(""), Vec::<String>::new());
}

#[test]
fn unsupported_platform_fails_immediately() {
    let r = local_endpoints(false, Some(vec!["discord-ipc-0".to_string()]), None);
    assert_eq!(r, Err(DiscoveryError::UnsupportedPlatform));
}

#[test]
fn supported_platform_with_no_endpoints_is_nonempty() {
    // Even a scan that found nothing reports the sentinel, so "ran fine,
    // found nothing" stays distinguishable from the error case.
    let r = local_endpoints(true, Some(vec!["mojo.shared".to_string()]), None);
    assert_eq!(r, Ok(vec![SENTINEL.to_string()]));
}

#[test]
fn primary_listing_is_filtered() {
    let names = vec!["a".to_string(), "discord-ipc-2".to_string()];
    let r = local_endpoints(true, Some(names), None);
    assert_eq!(r, Ok(vec!["discord-ipc-2".to_string()]));
}

#[test]
fn fallback_output_is_parsed_when_the_listing_call_fails() {
    let r = local_endpoints(true, None, Some(" discord-ipc-0 \n".to_string()));
    assert_eq!(r, Ok(vec!["discord-ipc-0".to_string()]));
    let empty = local_endpoints(true, None, Some("   \n".to_string()));
    assert_eq!(empty, Ok(vec![SENTINEL.to_string()]));
}

#[test]
fn both_strategies_failing_is_an_error() {
    let r = local_endpoints(true, None, None);
    assert_eq!(r, Err(DiscoveryError::EnumerationFailed));
    assert_eq!(
        DiscoveryError::EnumerationFailed.message(),
        "Failed to enumerate pipes"
    );
    assert_eq!(
        DiscoveryError::UnsupportedPlatform.message(),
        "debug_ipc_pipes: supported on Windows only"
    );
}
