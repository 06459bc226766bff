//! Runtime statistics and the status page.

use vstd::prelude::*;
use std::time::{Duration, SystemTime, SystemTimeError};

verus! {

/// Counters and identity shown by the status server.
pub struct Stats {
    pub our_did: String,
    pub endpoint_id: String,
    pub ipfs_requests: u64,
    pub rpc_requests: u64,
    pub pings_received: u64,
    pub started_at: u64,
    pub ipfs_publisher_enabled: bool,
}

impl Default for Stats {
    fn default() -> (s: Stats)
        ensures
            s.our_did@ == Seq::<char>::empty(),
            s.endpoint_id@ == Seq::<char>::empty(),
            s.ipfs_requests == 0,
            s.rpc_requests == 0,
            s.pings_received == 0,
            s.started_at == 0,
            !s.ipfs_publisher_enabled,
    {
        Stats {
            our_did: String::new(),
            endpoint_id: String::new(),
            ipfs_requests: 0,
            rpc_requests: 0,
            pings_received: 0,
            started_at: 0,
            ipfs_publisher_enabled: false,
        }
    }
}

impl Stats {
    /// Counts one message received on the RPC service.
    pub fn record_rpc_request(&mut self)
        requires
            old(self).rpc_requests < u64::MAX,
        ensures
            final(self).rpc_requests == old(self).rpc_requests + 1,
            final(self).ipfs_requests == old(self).ipfs_requests,
            final(self).pings_received == old(self).pings_received,
            final(self).started_at == old(self).started_at,
            final(self).our_did == old(self).our_did,
            final(self).endpoint_id == old(self).endpoint_id,
            final(self).ipfs_publisher_enabled == old(self).ipfs_publisher_enabled,
    {
        self.rpc_requests = self.rpc_requests + 1;
    }

    /// Counts one message received on the IPFS publisher service.
    pub fn record_ipfs_request(&mut self)
        requires
            old(self).ipfs_requests < u64::MAX,
        ensures
            final(self).ipfs_requests == old(self).ipfs_requests + 1,
            final(self).rpc_requests == old(self).rpc_requests,
            final(self).pings_received == old(self).pings_received,
            final(self).started_at == old(self).started_at,
            final(self).our_did == old(self).our_did,
            final(self).endpoint_id == old(self).endpoint_id,
            final(self).ipfs_publisher_enabled == old(self).ipfs_publisher_enabled,
    {
        self.ipfs_requests = self.ipfs_requests + 1;
    }

    /// Counts one ping answered.
    pub fn record_ping(&mut self)
        requires
            old(self).pings_received < u64::MAX,
        ensures
            final(self).pings_received == old(self).pings_received + 1,
            final(self).rpc_requests == old(self).rpc_requests,
            final(self).ipfs_requests == old(self).ipfs_requests,
            final(self).started_at == old(self).started_at,
            final(self).our_did == old(self).our_did,
            final(self).endpoint_id == old(self).endpoint_id,
            final(self).ipfs_publisher_enabled == old(self).ipfs_publisher_enabled,
    {
        self.pings_received = self.pings_received + 1;
    }
}

#[verifier::external_type_specification]
#[verifier::external_body]
pub struct ExSystemTime(std::time::SystemTime);

#[verifier::external_type_specification]
#[verifier::external_body]
pub struct ExSystemTimeError(std::time::SystemTimeError);

/// The current system time (`SystemTime::now`); nothing is known of it.
#[verifier::external_body]
fn system_time_now() -> SystemTime {
    SystemTime::now()
}

/// The time elapsed from the Unix epoch to `t`
/// (`SystemTime::duration_since(UNIX_EPOCH)`), an error where `t` is
/// earlier; nothing is known of it.
#[verifier::external_body]
fn since_unix_epoch(t: &SystemTime) -> Result<Duration, SystemTimeError> {
    t.duration_since(std::time::UNIX_EPOCH)
}

/// The whole seconds of a duration (`Duration::as_secs`).
#[verifier::external_body]
fn whole_seconds(d: &Duration) -> u64 {
    d.as_secs()
}

/// The Unix time in whole seconds given the clock's outcome: the whole
/// seconds elapsed since the epoch, or `None` where the clock reads before
/// the epoch, which counts as 0.
pub fn unix_secs_of(elapsed: Option<u64>) -> (secs: u64)
    ensures
        secs == match elapsed {
            Some(x) => x,
            None => 0,
        },
{
    match elapsed {
        Some(x) => x,
        None => 0,
    }
}

/// The current Unix time in whole seconds, 0 where the clock is set before
/// the epoch ([`unix_secs_of`] of the clock's reading).
pub fn now_unix_secs() -> u64 {
    let elapsed = match since_unix_epoch(&system_time_now()) {
        Ok(d) => Some(whole_seconds(&d)),
        Err(_) => None,
    };
    unix_secs_of(elapsed)
}

/// Seconds since start at time `now`; 0 where `now` is earlier than the
/// start.
pub fn uptime_secs(stats: &Stats, now: u64) -> (uptime: u64)
    ensures
        uptime == if now >= stats.started_at { now - stats.started_at } else { 0 },
{
    now.saturating_sub(stats.started_at)
}

/// The state shown at a moment: the stats and the uptime then.
pub struct StatusReport {
    pub did: String,
    pub endpoint_id: String,
    pub uptime_secs: u64,
    pub ipfs_publisher: bool,
    pub ipfs_requests: u64,
    pub rpc_requests: u64,
    pub pings_received: u64,
    pub started_at: u64,
}

/// What the status page and `status.json` show at time `now`.
pub fn status_report(stats: &Stats, now: u64) -> (report: StatusReport)
    ensures
        report.did@ == stats.our_did@,
        report.endpoint_id@ == stats.endpoint_id@,
        report.uptime_secs == if now >= stats.started_at { now - stats.started_at } else { 0 },
        report.ipfs_publisher == stats.ipfs_publisher_enabled,
        report.ipfs_requests == stats.ipfs_requests,
        report.rpc_requests == stats.rpc_requests,
        report.pings_received == stats.pings_received,
        report.started_at == stats.started_at,
{
    StatusReport {
        did: stats.our_did.clone(),
        endpoint_id: stats.endpoint_id.clone(),
        uptime_secs: uptime_secs(stats, now),
        ipfs_publisher: stats.ipfs_publisher_enabled,
        ipfs_requests: stats.ipfs_requests,
        rpc_requests: stats.rpc_requests,
        pings_received: stats.pings_received,
        started_at: stats.started_at,
    }
}

/// The decimal digit `d` (0..=9).
pub open spec fn digit_char(d: nat) -> char {
    if d == 0 { '0' }
    else if d == 1 { '1' }
    else if d == 2 { '2' }
    else if d == 3 { '3' }
    else if d == 4 { '4' }
    else if d == 5 { '5' }
    else if d == 6 { '6' }
    else if d == 7 { '7' }
    else if d == 8 { '8' }
    else { '9' }
}

/// The decimal notation of `n`, without leading zeros.
pub open spec fn decimal(n: nat) -> Seq<char>
    decreases n,
{
    if n < 10 {
        seq![digit_char(n)]
    } else {
        decimal(n / 10).push(digit_char(n % 10))
    }
}

fn digit_str(d: u64) -> (s: &'static str)
    requires
        d < 10,
    ensures
        s@ == seq![digit_char(d as nat)],
{
    proof {
        reveal_strlit("0");
        reveal_strlit("1");
        reveal_strlit("2");
        reveal_strlit("3");
        reveal_strlit("4");
        reveal_strlit("5");
        reveal_strlit("6");
        reveal_strlit("7");
        reveal_strlit("8");
        reveal_strlit("9");
    }
    if d == 0 { "0" }
    else if d == 1 { "1" }
    else if d == 2 { "2" }
    else if d == 3 { "3" }
    else if d == 4 { "4" }
    else if d == 5 { "5" }
    else if d == 6 { "6" }
    else if d == 7 { "7" }
    else if d == 8 { "8" }
    else { "9" }
}

/// Appends the decimal notation of `n`.
pub fn append_decimal(out: &mut String, n: u64)
    ensures
        final(out)@ == old(out)@ + decimal(n as nat),
    decreases n,
{
    if n >= 10 {
        append_decimal(out, n / 10);
    }
    out.append(digit_str(n % 10));
    assert(out@ =~= old(out)@ + decimal(n as nat));
}

/// The status page before the DID.
pub const PAGE_HEAD: &'static str = "<!DOCTYPE html>\n<html lang=\"en\">\n<head><meta charset=\"utf-8\"><title>間 Runtime</title>\n<style>body{font-family:monospace;max-width:700px;margin:2em auto;background:#111;color:#eee}\nh1{color:#7cf}table{border-collapse:collapse;width:100%}\ntd,th{padding:6px 12px;border:1px solid #333;text-align:left}\nth{background:#222}a{color:#7cf}</style></head>\n<body>\n<h1>間 Runtime</h1>\n<table>\n<tr><th>Field</th><th>Value</th></tr>\n<tr><td>DID</td><td>";
/// The status page between the DID and the endpoint id.
pub const PAGE_ENDPOINT: &'static str = "</td></tr>\n<tr><td>Endpoint ID (iroh)</td><td>";
/// The status page between the endpoint id and the uptime.
pub const PAGE_UPTIME: &'static str = "</td></tr>\n<tr><td>Uptime (seconds)</td><td>";
/// The status page between the uptime and the publisher state.
pub const PAGE_PUBLISHER: &'static str = "</td></tr>\n<tr><td>IPFS publisher</td><td>";
/// The status page between the publisher state and the publish requests.
pub const PAGE_IPFS_REQUESTS: &'static str = "</td></tr>\n<tr><td>IPFS publish requests</td><td>";
/// The status page between the publish requests and the RPC requests.
pub const PAGE_RPC_REQUESTS: &'static str = "</td></tr>\n<tr><td>RPC requests</td><td>";
/// The status page between the RPC requests and the pings.
pub const PAGE_PINGS: &'static str = "</td></tr>\n<tr><td>Pings received</td><td>";
/// The status page after the pings.
pub const PAGE_TAIL: &'static str = "</td></tr>\n</table>\n<p><a href=\"/status.json\">status.json</a></p>\n</body></html>";
/// The publisher state shown when the service runs.
pub const PUBLISHER_ENABLED: &'static str = "enabled";
/// The publisher state shown when the service is off.
pub const PUBLISHER_DISABLED: &'static str = "disabled";

/// The HTML status page of a report.
pub open spec fn status_html(r: StatusReport) -> Seq<char> {
    PAGE_HEAD@ + r.did@ + PAGE_ENDPOINT@ + r.endpoint_id@ + PAGE_UPTIME@ + decimal(r.uptime_secs as nat)
        + PAGE_PUBLISHER@ + (if r.ipfs_publisher { PUBLISHER_ENABLED@ } else { PUBLISHER_DISABLED@ })
        + PAGE_IPFS_REQUESTS@ + decimal(r.ipfs_requests as nat) + PAGE_RPC_REQUESTS@ + decimal(
        r.rpc_requests as nat,
    ) + PAGE_PINGS@ + decimal(r.pings_received as nat) + PAGE_TAIL@
}

/// Renders the HTML status page of a report.
pub fn status_page(r: &StatusReport) -> (html: String)
    ensures
        html@ == status_html(*r),
{
    let mut html = PAGE_HEAD.to_owned();
    html.append(r.did.as_str());
    html.append(PAGE_ENDPOINT);
    html.append(r.endpoint_id.as_str());
    html.append(PAGE_UPTIME);
    append_decimal(&mut html, r.uptime_secs);
    html.append(PAGE_PUBLISHER);
    html.append(if r.ipfs_publisher { PUBLISHER_ENABLED } else { PUBLISHER_DISABLED });
    html.append(PAGE_IPFS_REQUESTS);
    append_decimal(&mut html, r.ipfs_requests);
    html.append(PAGE_RPC_REQUESTS);
    append_decimal(&mut html, r.rpc_requests);
    html.append(PAGE_PINGS);
    append_decimal(&mut html, r.pings_received);
    html.append(PAGE_TAIL);
    html
}

/// The JSON string literal that `serde_json` writes for `s`.
pub uninterp spec fn json_string_text(s: Seq<char>) -> Seq<char>;

/// Writes `s` as a JSON string literal with `serde_json::to_string`.
///
/// Trusted: the result is the named [`json_string_text`] of the text; where
/// the text holds no `"`, no `\` and no control character below U+0020, it
/// is the text between double quotes (serde_json escapes only those; writing
/// into a `Vec` cannot fail).
#[verifier::external_body]
fn json_string(s: &str) -> (text: String)
    ensures
        text@ == json_string_text(s@),
        (forall|i: int| 0 <= i < s@.len() ==> s@[i] != '"' && s@[i] != '\\' && (#[trigger] s@[i] as u32) >= 0x20)
            ==> text@ == "\""@ + s@ + "\""@,
{
    match serde_json::to_string(s) {
        Ok(text) => text,
        Err(_) => String::new(),
    }
}

/// The content type of `status.json`.
pub const JSON_CONTENT_TYPE: &'static str = "application/json";

/// The `status.json` document of a report: one JSON object with the keys
/// `did`, `endpoint_id`, `ipfs_publisher`, `ipfs_requests`,
/// `pings_received`, `rpc_requests`, `started_at` and `uptime_secs`, in
/// serde_json's key order, numbers in decimal.
pub open spec fn status_json_text(r: StatusReport) -> Seq<char> {
    "{\"did\":"@ + json_string_text(r.did@) + ",\"endpoint_id\":"@ + json_string_text(r.endpoint_id@)
        + ",\"ipfs_publisher\":"@ + (if r.ipfs_publisher { "true"@ } else { "false"@ })
        + ",\"ipfs_requests\":"@ + decimal(r.ipfs_requests as nat) + ",\"pings_received\":"@
        + decimal(r.pings_received as nat) + ",\"rpc_requests\":"@ + decimal(r.rpc_requests as nat)
        + ",\"started_at\":"@ + decimal(r.started_at as nat) + ",\"uptime_secs\":"@ + decimal(
        r.uptime_secs as nat,
    ) + "}"@
}

/// The `status.json` response of a report: its content type and body.
pub fn status_json(r: &StatusReport) -> (response: (&'static str, String))
    ensures
        response.0@ == JSON_CONTENT_TYPE@,
        response.1@ == status_json_text(*r),
{
    let mut body = "{\"did\":".to_owned();
    body.append(json_string(r.did.as_str()).as_str());
    body.append(",\"endpoint_id\":");
    body.append(json_string(r.endpoint_id.as_str()).as_str());
    body.append(",\"ipfs_publisher\":");
    body.append(if r.ipfs_publisher { "true" } else { "false" });
    body.append(",\"ipfs_requests\":");
    append_decimal(&mut body, r.ipfs_requests);
    body.append(",\"pings_received\":");
    append_decimal(&mut body, r.pings_received);
    body.append(",\"rpc_requests\":");
    append_decimal(&mut body, r.rpc_requests);
    body.append(",\"started_at\":");
    append_decimal(&mut body, r.started_at);
    body.append(",\"uptime_secs\":");
    append_decimal(&mut body, r.uptime_secs);
    body.append("}");
    (JSON_CONTENT_TYPE, body)
}

/// The number that a string of decimal digits denotes.
pub open spec fn digits_value(s: Seq<char>) -> nat
    decreases s.len(),
{
    if s.len() == 0 {
        0
    } else {
        digits_value(s.drop_last()) * 10 + ((s.last() as u32 - '0' as u32) as nat)
    }
}

proof fn lemma_digit_char(d: nat)
    requires
        d < 10,
    ensures
        '0' <= digit_char(d) <= '9',
        (digit_char(d) as u32 - '0' as u32) == d,
{
}

/// The decimal notation of `n` is made of the digits `0`..`9`, and reads
/// back as `n`.
pub proof fn lemma_decimal_reads_back(n: nat)
    ensures
        forall|i: int| 0 <= i < decimal(n).len() ==> '0' <= #[trigger] decimal(n)[i] <= '9',
        digits_value(decimal(n)) == n,
    decreases n,
{
    let d = decimal(n);
    if n >= 10 {
        lemma_decimal_reads_back(n / 10);
        lemma_digit_char(n % 10);
        assert(d.drop_last() =~= decimal(n / 10));
        assert(d.last() == digit_char(n % 10));
        assert forall|i: int| 0 <= i < d.len() implies '0' <= #[trigger] d[i] <= '9' by {
            if i < d.len() - 1 {
                assert(d[i] == decimal(n / 10)[i]);
            }
        }
        assert(digits_value(d) == (n / 10) * 10 + n % 10);
        assert(n == (n / 10) * 10 + n % 10) by (nonlinear_arith);
    } else {
        lemma_digit_char(n);
        assert(d.drop_last() =~= Seq::<char>::empty());
        assert(digits_value(d.drop_last()) == 0);
    }
}

/// Whether `seg` occurs in `s`.
pub open spec fn has_segment(s: Seq<char>, seg: Seq<char>) -> bool {
    exists|pre: Seq<char>, post: Seq<char>| #[trigger] (pre + seg + post) == s
}

proof fn lemma_segment(s: Seq<char>, pre: Seq<char>, seg: Seq<char>, post: Seq<char>)
    requires
        s =~= pre + seg + post,
    ensures
        has_segment(s, seg),
{
    assert(pre + seg + post == s);
}

/// The end of a table row.
spec fn row_end() -> Seq<char> {
    "</td></tr>\n"@
}

/// The value shown for the publisher.
spec fn publisher_text(r: StatusReport) -> Seq<char> {
    if r.ipfs_publisher { "enabled"@ } else { "disabled"@ }
}

/// Each page constant between two values ends one row and starts the next.
proof fn lemma_page_constants()
    ensures
        PAGE_ENDPOINT@ =~= row_end() + "<tr><td>Endpoint ID (iroh)</td><td>"@,
        PAGE_UPTIME@ =~= row_end() + "<tr><td>Uptime (seconds)</td><td>"@,
        PAGE_PUBLISHER@ =~= row_end() + "<tr><td>IPFS publisher</td><td>"@,
        PAGE_IPFS_REQUESTS@ =~= row_end() + "<tr><td>IPFS publish requests</td><td>"@,
        PAGE_RPC_REQUESTS@ =~= row_end() + "<tr><td>RPC requests</td><td>"@,
        PAGE_PINGS@ =~= row_end() + "<tr><td>Pings received</td><td>"@,
        PAGE_TAIL@ =~= row_end() + PAGE_TAIL@.subrange(11, PAGE_TAIL@.len() as int),
        (if true { PUBLISHER_ENABLED@ } else { PUBLISHER_DISABLED@ }) == "enabled"@,
        PUBLISHER_DISABLED@ == "disabled"@,
{
    reveal_strlit("</td></tr>\n");
    reveal_strlit("<tr><td>Endpoint ID (iroh)</td><td>");
    reveal_strlit("<tr><td>Uptime (seconds)</td><td>");
    reveal_strlit("<tr><td>IPFS publisher</td><td>");
    reveal_strlit("<tr><td>IPFS publish requests</td><td>");
    reveal_strlit("<tr><td>RPC requests</td><td>");
    reveal_strlit("<tr><td>Pings received</td><td>");
    reveal_strlit("</td></tr>\n<tr><td>Endpoint ID (iroh)</td><td>");
    reveal_strlit("</td></tr>\n<tr><td>Uptime (seconds)</td><td>");
    reveal_strlit("</td></tr>\n<tr><td>IPFS publisher</td><td>");
    reveal_strlit("</td></tr>\n<tr><td>IPFS publish requests</td><td>");
    reveal_strlit("</td></tr>\n<tr><td>RPC requests</td><td>");
    reveal_strlit("</td></tr>\n<tr><td>Pings received</td><td>");
    reveal_strlit("</td></tr>\n</table>\n<p><a href=\"/status.json\">status.json</a></p>\n</body></html>");
}

/// The page as its rows: `status_html(r)` is the head, then for each value
/// its label cell, the value and the row end, then the tail.
proof fn lemma_page_as_rows(r: StatusReport)
    ensures
        status_html(r) =~= PAGE_HEAD@ + r.did@ + row_end() + "<tr><td>Endpoint ID (iroh)</td><td>"@
            + r.endpoint_id@ + row_end() + "<tr><td>Uptime (seconds)</td><td>"@ + decimal(
            r.uptime_secs as nat,
        ) + row_end() + "<tr><td>IPFS publisher</td><td>"@ + publisher_text(r) + row_end()
            + "<tr><td>IPFS publish requests</td><td>"@ + decimal(r.ipfs_requests as nat) + row_end()
            + "<tr><td>RPC requests</td><td>"@ + decimal(r.rpc_requests as nat) + row_end()
            + "<tr><td>Pings received</td><td>"@ + decimal(r.pings_received as nat) + row_end()
            + PAGE_TAIL@.subrange(11, PAGE_TAIL@.len() as int),
{
    lemma_page_constants();
}

/// The status page shows each value in its own row, between its label cell
/// and the row end: the endpoint id, the whole uptime, the publisher state
/// and the three counters, the numbers in decimal.
#[verifier::rlimit(60)]
pub proof fn lemma_page_rows(r: StatusReport)
    ensures
        has_segment(status_html(r), "<tr><td>Endpoint ID (iroh)</td><td>"@ + r.endpoint_id@ + "</td></tr>\n"@),
        has_segment(
            status_html(r),
            "<tr><td>Uptime (seconds)</td><td>"@ + decimal(r.uptime_secs as nat) + "</td></tr>\n"@,
        ),
        has_segment(
            status_html(r),
            "<tr><td>IPFS publisher</td><td>"@ + (if r.ipfs_publisher { "enabled"@ } else { "disabled"@ })
                + "</td></tr>\n"@,
        ),
        has_segment(
            status_html(r),
            "<tr><td>IPFS publish requests</td><td>"@ + decimal(r.ipfs_requests as nat) + "</td></tr>\n"@,
        ),
        has_segment(
            status_html(r),
            "<tr><td>RPC requests</td><td>"@ + decimal(r.rpc_requests as nat) + "</td></tr>\n"@,
        ),
        has_segment(
            status_html(r),
            "<tr><td>Pings received</td><td>"@ + decimal(r.pings_received as nat) + "</td></tr>\n"@,
        ),
{
    lemma_page_as_rows(r);
    let e = row_end();
    let l1 = "<tr><td>Endpoint ID (iroh)</td><td>"@;
    let l2 = "<tr><td>Uptime (seconds)</td><td>"@;
    let l3 = "<tr><td>IPFS publisher</td><td>"@;
    let l4 = "<tr><td>IPFS publish requests</td><td>"@;
    let l5 = "<tr><td>RPC requests</td><td>"@;
    let l6 = "<tr><td>Pings received</td><td>"@;
    let r1 = l1 + r.endpoint_id@ + e;
    let r2 = l2 + decimal(r.uptime_secs as nat) + e;
    let r3 = l3 + publisher_text(r) + e;
    let r4 = l4 + decimal(r.ipfs_requests as nat) + e;
    let r5 = l5 + decimal(r.rpc_requests as nat) + e;
    let r6 = l6 + decimal(r.pings_received as nat) + e;
    let head = PAGE_HEAD@ + r.did@ + e;
    let tail = PAGE_TAIL@.subrange(11, PAGE_TAIL@.len() as int);
    let page = status_html(r);
    assert(page =~= head + r1 + r2 + r3 + r4 + r5 + r6 + tail);
    lemma_segment(page, head, r1, r2 + r3 + r4 + r5 + r6 + tail);
    lemma_segment(page, head + r1, r2, r3 + r4 + r5 + r6 + tail);
    lemma_segment(page, head + r1 + r2, r3, r4 + r5 + r6 + tail);
    lemma_segment(page, head + r1 + r2 + r3, r4, r5 + r6 + tail);
    lemma_segment(page, head + r1 + r2 + r3 + r4, r5, r6 + tail);
    lemma_segment(page, head + r1 + r2 + r3 + r4 + r5, r6, tail);
    reveal_strlit("</td></tr>\n");
}

/// Each key literal of `status.json` is its separator and its quoted key.
proof fn lemma_json_literals()
    ensures
        "{\"did\":"@ =~= "{"@ + "\"did\":"@,
        ",\"endpoint_id\":"@ =~= ","@ + "\"endpoint_id\":"@,
        ",\"ipfs_publisher\":"@ =~= ","@ + "\"ipfs_publisher\":"@,
        ",\"ipfs_requests\":"@ =~= ","@ + "\"ipfs_requests\":"@,
        ",\"pings_received\":"@ =~= ","@ + "\"pings_received\":"@,
        ",\"rpc_requests\":"@ =~= ","@ + "\"rpc_requests\":"@,
        ",\"started_at\":"@ =~= ","@ + "\"started_at\":"@,
        ",\"uptime_secs\":"@ =~= ","@ + "\"uptime_secs\":"@,
{
    reveal_strlit("\"did\":");
    reveal_strlit("{\"did\":");
    reveal_strlit("\"endpoint_id\":");
    reveal_strlit(",\"endpoint_id\":");
    reveal_strlit("\"ipfs_publisher\":");
    reveal_strlit(",\"ipfs_publisher\":");
    reveal_strlit("\"ipfs_requests\":");
    reveal_strlit(",\"ipfs_requests\":");
    reveal_strlit("\"pings_received\":");
    reveal_strlit(",\"pings_received\":");
    reveal_strlit("\"rpc_requests\":");
    reveal_strlit(",\"rpc_requests\":");
    reveal_strlit("\"started_at\":");
    reveal_strlit(",\"started_at\":");
    reveal_strlit("\"uptime_secs\":");
    reveal_strlit(",\"uptime_secs\":");
    reveal_strlit("{");
    reveal_strlit(",");
}

/// `status.json` as its fields: `{`, the fields `"key":value` separated by
/// commas, `}`.
proof fn lemma_json_as_fields(r: StatusReport)
    ensures
        status_json_text(r) =~= "{"@ + ("\"did\":"@ + json_string_text(r.did@)) + ","@ + ("\"endpoint_id\":"@ + json_string_text(r.endpoint_id@)) + ","@ + ("\"ipfs_publisher\":"@ + (if r.ipfs_publisher { "true"@ } else { "false"@ })) + ","@ + ("\"ipfs_requests\":"@ + decimal(r.ipfs_requests as nat)) + ","@ + ("\"pings_received\":"@ + decimal(r.pings_received as nat)) + ","@ + ("\"rpc_requests\":"@ + decimal(r.rpc_requests as nat)) + ","@ + ("\"started_at\":"@ + decimal(r.started_at as nat)) + ","@ + ("\"uptime_secs\":"@ + decimal(r.uptime_secs as nat)) + "}"@,
{
    lemma_json_literals();
}

/// A text that holds a segment still holds it once more text follows.
proof fn lemma_segment_extend(s: Seq<char>, t: Seq<char>, seg: Seq<char>)
    requires
        has_segment(s, seg),
    ensures
        has_segment(s + t, seg),
{
    let (pre, post) = choose|pre: Seq<char>, post: Seq<char>| #[trigger] (pre + seg + post) == s;
    lemma_segment(s + t, pre, seg, post + t);
}

/// `status.json` is one JSON object holding every field under its key:
/// the DID and endpoint id as JSON strings, the publisher state as a JSON
/// boolean, and the counters, start time and whole uptime in decimal.
pub proof fn lemma_json_fields(r: StatusReport)
    ensures
        status_json_text(r)[0] == '{',
        status_json_text(r).last() == '}',
        has_segment(status_json_text(r), "\"did\":"@ + json_string_text(r.did@)),
        has_segment(status_json_text(r), "\"endpoint_id\":"@ + json_string_text(r.endpoint_id@)),
        has_segment(status_json_text(r), "\"ipfs_publisher\":"@ + (if r.ipfs_publisher { "true"@ } else { "false"@ })),
        has_segment(status_json_text(r), "\"ipfs_requests\":"@ + decimal(r.ipfs_requests as nat)),
        has_segment(status_json_text(r), "\"pings_received\":"@ + decimal(r.pings_received as nat)),
        has_segment(status_json_text(r), "\"rpc_requests\":"@ + decimal(r.rpc_requests as nat)),
        has_segment(status_json_text(r), "\"started_at\":"@ + decimal(r.started_at as nat)),
        has_segment(status_json_text(r), "\"uptime_secs\":"@ + decimal(r.uptime_secs as nat)),
{
    lemma_json_as_fields(r);
    reveal_strlit("{");
    reveal_strlit("}");
    let f0 = "\"did\":"@ + json_string_text(r.did@);
    let f1 = "\"endpoint_id\":"@ + json_string_text(r.endpoint_id@);
    let f2 = "\"ipfs_publisher\":"@ + (if r.ipfs_publisher { "true"@ } else { "false"@ });
    let f3 = "\"ipfs_requests\":"@ + decimal(r.ipfs_requests as nat);
    let f4 = "\"pings_received\":"@ + decimal(r.pings_received as nat);
    let f5 = "\"rpc_requests\":"@ + decimal(r.rpc_requests as nat);
    let f6 = "\"started_at\":"@ + decimal(r.started_at as nat);
    let f7 = "\"uptime_secs\":"@ + decimal(r.uptime_secs as nat);
    let p0 = "{"@;
    let p1 = p0 + f0;
    let p2 = p1 + ","@;
    let p3 = p2 + f1;
    let p4 = p3 + ","@;
    let p5 = p4 + f2;
    let p6 = p5 + ","@;
    let p7 = p6 + f3;
    let p8 = p7 + ","@;
    let p9 = p8 + f4;
    let p10 = p9 + ","@;
    let p11 = p10 + f5;
    let p12 = p11 + ","@;
    let p13 = p12 + f6;
    let p14 = p13 + ","@;
    let p15 = p14 + f7;
    let p16 = p15 + "}"@;
    assert(status_json_text(r) == p16);
    lemma_segment(p1, p0, f0, Seq::empty());
    lemma_segment_extend(p1, ","@, f0);
    lemma_segment_extend(p2, f1, f0);
    lemma_segment_extend(p3, ","@, f0);
    lemma_segment_extend(p4, f2, f0);
    lemma_segment_extend(p5, ","@, f0);
    lemma_segment_extend(p6, f3, f0);
    lemma_segment_extend(p7, ","@, f0);
    lemma_segment_extend(p8, f4, f0);
    lemma_segment_extend(p9, ","@, f0);
    lemma_segment_extend(p10, f5, f0);
    lemma_segment_extend(p11, ","@, f0);
    lemma_segment_extend(p12, f6, f0);
    lemma_segment_extend(p13, ","@, f0);
    lemma_segment_extend(p14, f7, f0);
    lemma_segment_extend(p15, "}"@, f0);
    lemma_segment(p3, p2, f1, Seq::empty());
    lemma_segment_extend(p3, ","@, f1);
    lemma_segment_extend(p4, f2, f1);
    lemma_segment_extend(p5, ","@, f1);
    lemma_segment_extend(p6, f3, f1);
    lemma_segment_extend(p7, ","@, f1);
    lemma_segment_extend(p8, f4, f1);
    lemma_segment_extend(p9, ","@, f1);
    lemma_segment_extend(p10, f5, f1);
    lemma_segment_extend(p11, ","@, f1);
    lemma_segment_extend(p12, f6, f1);
    lemma_segment_extend(p13, ","@, f1);
    lemma_segment_extend(p14, f7, f1);
    lemma_segment_extend(p15, "}"@, f1);
    lemma_segment(p5, p4, f2, Seq::empty());
    lemma_segment_extend(p5, ","@, f2);
    lemma_segment_extend(p6, f3, f2);
    lemma_segment_extend(p7, ","@, f2);
    lemma_segment_extend(p8, f4, f2);
    lemma_segment_extend(p9, ","@, f2);
    lemma_segment_extend(p10, f5, f2);
    lemma_segment_extend(p11, ","@, f2);
    lemma_segment_extend(p12, f6, f2);
    lemma_segment_extend(p13, ","@, f2);
    lemma_segment_extend(p14, f7, f2);
    lemma_segment_extend(p15, "}"@, f2);
    lemma_segment(p7, p6, f3, Seq::empty());
    lemma_segment_extend(p7, ","@, f3);
    lemma_segment_extend(p8, f4, f3);
    lemma_segment_extend(p9, ","@, f3);
    lemma_segment_extend(p10, f5, f3);
    lemma_segment_extend(p11, ","@, f3);
    lemma_segment_extend(p12, f6, f3);
    lemma_segment_extend(p13, ","@, f3);
    lemma_segment_extend(p14, f7, f3);
    lemma_segment_extend(p15, "}"@, f3);
    lemma_segment(p9, p8, f4, Seq::empty());
    lemma_segment_extend(p9, ","@, f4);
    lemma_segment_extend(p10, f5, f4);
    lemma_segment_extend(p11, ","@, f4);
    lemma_segment_extend(p12, f6, f4);
    lemma_segment_extend(p13, ","@, f4);
    lemma_segment_extend(p14, f7, f4);
    lemma_segment_extend(p15, "}"@, f4);
    lemma_segment(p11, p10, f5, Seq::empty());
    lemma_segment_extend(p11, ","@, f5);
    lemma_segment_extend(p12, f6, f5);
    lemma_segment_extend(p13, ","@, f5);
    lemma_segment_extend(p14, f7, f5);
    lemma_segment_extend(p15, "}"@, f5);
    lemma_segment(p13, p12, f6, Seq::empty());
    lemma_segment_extend(p13, ","@, f6);
    lemma_segment_extend(p14, f7, f6);
    lemma_segment_extend(p15, "}"@, f6);
    lemma_segment(p15, p14, f7, Seq::empty());
    lemma_segment_extend(p15, "}"@, f7);
}

} // verus!
