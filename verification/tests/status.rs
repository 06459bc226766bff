use ma_runtime::status::{
    append_decimal, now_unix_secs, status_json, status_page, status_report, unix_secs_of, uptime_secs, Stats,
};

fn stats() -> Stats {
    Stats {
        our_did: "did:ma:k51x".to_string(),
        endpoint_id: "abc123".to_string(),
        ipfs_requests: 7,
        rpc_requests: 12,
        pings_received: 3,
        started_at: 1_000,
        ipfs_publisher_enabled: true,
    }
}

#[test]
fn default_stats_are_zero() {
    let s = Stats::default();
    assert_eq!(s.rpc_requests, 0);
    assert_eq!(s.ipfs_requests, 0);
    assert_eq!(s.pings_received, 0);
    assert_eq!(s.started_at, 0);
    assert!(!s.ipfs_publisher_enabled);
    assert!(s.our_did.is_empty());
}

#[test]
fn counters_count_one_at_a_time() {
    let mut s = stats();
    s.record_rpc_request();
    s.record_ping();
    s.record_ipfs_request();
    s.record_ipfs_request();
    assert_eq!((s.rpc_requests, s.pings_received, s.ipfs_requests), (13, 4, 9));
}

#[test]
fn uptime_saturates() {
    let s = stats();
    assert_eq!(uptime_secs(&s, 1_500), 500);
    assert_eq!(uptime_secs(&s, 999), 0);
}

#[test]
fn clock_is_after_the_epoch() {
    assert!(now_unix_secs() > 1_600_000_000);
}

#[test]
fn decimal_notation() {
    let mut s = String::from("n=");
    append_decimal(&mut s, 0);
    assert_eq!(s, "n=0");
    let mut s = String::new();
    append_decimal(&mut s, u64::MAX);
    assert_eq!(s, u64::MAX.to_string());
    let mut s = String::new();
    append_decimal(&mut s, 1_000_207);
    assert_eq!(s, "1000207");
}

#[test]
fn status_page_matches_template() {
    let r = status_report(&stats(), 1_042);
    assert_eq!(r.uptime_secs, 42);
    let html = status_page(&r);
    let expected = format!(
        r#"<!DOCTYPE html>
<html lang="en">
<head><meta charset="utf-8"><title>間 Runtime</title>
<style>body{{font-family:monospace;max-width:700px;margin:2em auto;background:#111;color:#eee}}
h1{{color:#7cf}}table{{border-collapse:collapse;width:100%}}
td,th{{padding:6px 12px;border:1px solid #333;text-align:left}}
th{{background:#222}}a{{color:#7cf}}</style></head>
<body>
<h1>間 Runtime</h1>
<table>
<tr><th>Field</th><th>Value</th></tr>
<tr><td>DID</td><td>{our_did}</td></tr>
<tr><td>Endpoint ID (iroh)</td><td>{endpoint_id}</td></tr>
<tr><td>Uptime (seconds)</td><td>{uptime}</td></tr>
<tr><td>IPFS publisher</td><td>{ipfs_status}</td></tr>
<tr><td>IPFS publish requests</td><td>{ipfs_requests}</td></tr>
<tr><td>RPC requests</td><td>{rpc_requests}</td></tr>
<tr><td>Pings received</td><td>{pings_received}</td></tr>
</table>
<p><a href="/status.json">status.json</a></p>
</body></html>"#,
        our_did = "did:ma:k51x",
        endpoint_id = "abc123",
        uptime = 42,
        ipfs_status = "enabled",
        ipfs_requests = 7,
        rpc_requests = 12,
        pings_received = 3
    );
    assert_eq!(html, expected);
}

#[test]
fn disabled_publisher_is_shown() {
    let mut s = stats();
    s.ipfs_publisher_enabled = false;
    let html = status_page(&status_report(&s, 0));
    assert!(html.contains("<td>IPFS publisher</td><td>disabled</td>"));
    assert!(html.contains("<td>Uptime (seconds)</td><td>0</td>"));
}

#[test]
fn unix_secs_of_clock_outcome() {
    assert_eq!(unix_secs_of(Some(1_700_000_000)), 1_700_000_000);
    assert_eq!(unix_secs_of(None), 0);
}

#[test]
fn status_json_has_exact_keys_and_values() {
    let s = Stats {
        our_did: "did:ma:abc".to_string(),
        endpoint_id: "ep1".to_string(),
        ipfs_requests: 1,
        rpc_requests: 2,
        pings_received: 3,
        started_at: u64::MAX,
        ipfs_publisher_enabled: true,
    };
    let (content_type, body) = status_json(&status_report(&s, 5));
    assert_eq!(content_type, "application/json");
    assert_eq!(
        body,
        "{\"did\":\"did:ma:abc\",\"endpoint_id\":\"ep1\",\"ipfs_publisher\":true,\"ipfs_requests\":1,\
         \"pings_received\":3,\"rpc_requests\":2,\"started_at\":18446744073709551615,\"uptime_secs\":0}"
    );
    let v: serde_json::Value = serde_json::from_str(&body).unwrap();
    let expected: serde_json::Value = serde_json::from_str(
        "{\"did\":\"did:ma:abc\",\"endpoint_id\":\"ep1\",\"uptime_secs\":0,\"ipfs_publisher\":true,\
         \"ipfs_requests\":1,\"rpc_requests\":2,\"pings_received\":3,\"started_at\":18446744073709551615}",
    )
    .unwrap();
    assert_eq!(v, expected);
}

#[test]
fn status_json_escapes_strings() {
    let mut s = stats();
    s.our_did = "a\"b\\c\n".to_string();
    s.ipfs_publisher_enabled = false;
    let (_, body) = status_json(&status_report(&s, 1_010));
    assert!(body.starts_with("{\"did\":\"a\\\"b\\\\c\\n\",\"endpoint_id\":\"abc123\",\"ipfs_publisher\":false,"));
    assert!(body.ends_with("\"uptime_secs\":10}"));
    let v: serde_json::Value = serde_json::from_str(&body).unwrap();
    assert_eq!(v["did"], "a\"b\\c\n");
}
