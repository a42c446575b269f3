use shelly_scrape::cascade::{first_probe, identify_with, next_step, probe_url, Endpoint, ProbeResult, Step};
use shelly_scrape::classify::{classify, classify_lowered, extended_keywords, primary_keywords, Verdict};
use shelly_scrape::discover::{confirmed_devices, scan_candidates, ShellyDevice};
use shelly_scrape::scan::{extract_device_info_from_nmap_line, parse_scan_output, split_lines, HostCandidate};

fn answer(status_ok: bool, body: &str) -> ProbeResult {
    ProbeResult { succeeded: true, status_ok, body: Some(body.to_string()) }
}

fn unreadable(status_ok: bool) -> ProbeResult {
    ProbeResult { succeeded: true, status_ok, body: None }
}

fn down() -> ProbeResult {
    ProbeResult::failed()
}

fn words(ws: &[&str]) -> Vec<String> {
    ws.iter().map(|w| w.to_string()).collect()
}

#[test]
fn named_report_line_gives_address_and_name() {
    let out = "Starting Nmap 7.94\nNmap scan report for router (192.168.1.1)\nHost is up (0.0010s latency).\n";
    let hosts = parse_scan_output(out);
    assert_eq!(
        hosts,
        vec![HostCandidate { address: "192.168.1.1".to_string(), display_name: Some("router".to_string()) }]
    );
    assert_eq!(
        extract_device_info_from_nmap_line("Nmap scan report for router (192.168.1.1)"),
        Some(("192.168.1.1".to_string(), Some("router".to_string())))
    );
}

#[test]
fn bare_report_line_gives_address_only() {
    assert_eq!(
        extract_device_info_from_nmap_line("Nmap scan report for 10.0.0.5"),
        Some(("10.0.0.5".to_string(), None))
    );
    let hosts = parse_scan_output("Nmap scan report for 10.0.0.5\r\nHost is up.\r\n");
    assert_eq!(hosts, vec![HostCandidate { address: "10.0.0.5".to_string(), display_name: None }]);
}

#[test]
fn report_line_without_address_is_skipped() {
    assert_eq!(extract_device_info_from_nmap_line("Nmap scan report for somehost"), None);
    assert!(parse_scan_output("Nmap scan report for somehost\n").is_empty());
}

#[test]
fn empty_name_gives_no_display_name() {
    assert_eq!(
        extract_device_info_from_nmap_line("Nmap scan report for (10.0.0.1)"),
        Some(("10.0.0.1".to_string(), None))
    );
    assert_eq!(
        extract_device_info_from_nmap_line("Nmap scan report for   (10.0.0.1)"),
        Some(("10.0.0.1".to_string(), None))
    );
    assert_eq!(
        parse_scan_output("Nmap scan report for (10.0.0.1)\n"),
        vec![HostCandidate { address: "10.0.0.1".to_string(), display_name: None }]
    );
    assert_eq!(
        extract_device_info_from_nmap_line("Nmap scan report for plug.lan (10.0.0.2)"),
        Some(("10.0.0.2".to_string(), Some("plug.lan".to_string())))
    );
}

#[test]
fn odd_report_lines() {
    assert_eq!(extract_device_info_from_nmap_line("Nmap scan report for box (10.0.0.7"), None);
    assert_eq!(extract_device_info_from_nmap_line("Nmap scan report for ) x ("), None);
    assert_eq!(
        extract_device_info_from_nmap_line("Nmap scan report for 10.0.0.9 (10.0.0.9)"),
        Some(("10.0.0.9".to_string(), None))
    );
    assert_eq!(
        extract_device_info_from_nmap_line("(10.0.0.3)"),
        Some(("10.0.0.3".to_string(), None))
    );
    assert_eq!(
        extract_device_info_from_nmap_line("Nmap scan report for 10.0.0.4   "),
        Some(("10.0.0.4".to_string(), None))
    );
    assert_eq!(extract_device_info_from_nmap_line(""), None);
    assert!(parse_scan_output("").is_empty());
    assert!(parse_scan_output("host 10.0.0.5\n").is_empty());
}

#[test]
fn lines_are_split_at_line_feeds() {
    assert_eq!(split_lines("a\r\nb\n\nc"), words(&["a", "b", "", "c"]));
    assert_eq!(split_lines("a\n"), words(&["a"]));
    assert!(split_lines("").is_empty());
}

#[test]
fn exclusion_dominates_acceptance() {
    assert_eq!(classify("this is a Hikvision Shelly clone", &primary_keywords()), Verdict::Reject);
    assert_eq!(classify("IPCAM relay", &extended_keywords()), Verdict::Reject);
}

#[test]
fn classification_lowercases_the_text() {
    assert_eq!(classify("SHELLY Plus 1PM", &primary_keywords()), Verdict::Accept);
    assert_eq!(classify_lowered("SHELLY Plus 1PM", &primary_keywords()), Verdict::Inconclusive);
    assert_eq!(classify("{\"WIFI_STA\":{}}", &extended_keywords()), Verdict::Accept);
    assert_eq!(classify("{\"wifi_sta\":{}}", &primary_keywords()), Verdict::Inconclusive);
    assert_eq!(classify("hello", &words(&["hel"])), Verdict::Accept);
    assert_eq!(classify("", &primary_keywords()), Verdict::Inconclusive);
}

#[test]
fn confirmation_sweep_fails_closed() {
    let rs = vec![down(), unreadable(true), down(), answer(false, "shelly"), unreadable(false)];
    assert_eq!(identify_with(&rs), (Verdict::Reject, 5));
    let rs = vec![down(), unreadable(true)];
    assert_eq!(identify_with(&rs), (Verdict::Reject, 5));
}

#[test]
fn brand_word_on_first_probe_ends_cascade() {
    let rs = vec![answer(true, "{\"type\":\"SHSW-1\",\"shelly\":true}")];
    assert_eq!(identify_with(&rs), (Verdict::Accept, 1));

    // a mock transport that counts the probes it answers
    let mut probes: Vec<Endpoint> = Vec::new();
    let mut at = first_probe();
    let verdict = loop {
        probes.push(at);
        let r = match at {
            Endpoint::Shelly => answer(true, "Shelly"),
            _ => answer(true, "relay"),
        };
        match next_step(at, &r) {
            Step::Done(v) => break v,
            Step::Probe(next) => at = next,
        }
    };
    assert_eq!(verdict, Verdict::Accept);
    assert_eq!(probes, vec![Endpoint::Shelly]);
}

#[test]
fn identification_repeats_its_verdict() {
    let rs = vec![down(), unreadable(true), answer(true, "nothing"), answer(true, "{\"relay\":1}")];
    let first = identify_with(&rs);
    let second = identify_with(&rs);
    assert_eq!(first, second);
    assert_eq!(first, (Verdict::Accept, 4));
}

#[test]
fn cascade_steps() {
    assert_eq!(next_step(Endpoint::Shelly, &down()), Step::Probe(Endpoint::Status));
    assert_eq!(next_step(Endpoint::Shelly, &answer(true, "hello")), Step::Probe(Endpoint::Status));
    assert_eq!(next_step(Endpoint::Shelly, &unreadable(true)), Step::Probe(Endpoint::Status));
    assert_eq!(next_step(Endpoint::Shelly, &answer(true, "Video server")), Step::Done(Verdict::Reject));
    assert_eq!(next_step(Endpoint::Status, &down()), Step::Done(Verdict::Reject));
    assert_eq!(next_step(Endpoint::Status, &answer(true, "{\"meter\":0}")), Step::Done(Verdict::Accept));
    assert_eq!(next_step(Endpoint::Status, &answer(true, "{}")), Step::Done(Verdict::Reject));
    assert_eq!(next_step(Endpoint::Status, &unreadable(true)), Step::Probe(Endpoint::Settings));
    assert_eq!(next_step(Endpoint::Status, &unreadable(false)), Step::Done(Verdict::Reject));
    assert_eq!(next_step(Endpoint::Settings, &answer(true, "camera")), Step::Done(Verdict::Reject));
    assert_eq!(next_step(Endpoint::Settings, &answer(false, "shelly")), Step::Probe(Endpoint::Ota));
    assert_eq!(next_step(Endpoint::Ota, &answer(true, "{}")), Step::Probe(Endpoint::Meter));
    assert_eq!(next_step(Endpoint::Meter, &answer(true, "{\"wifi_sta\":1}")), Step::Done(Verdict::Accept));
    assert_eq!(next_step(Endpoint::Meter, &down()), Step::Done(Verdict::Reject));
}

#[test]
fn probe_addresses_and_timeouts() {
    assert_eq!(probe_url("10.0.0.5", Endpoint::Shelly), "http://10.0.0.5/shelly");
    assert_eq!(probe_url("10.0.0.5", Endpoint::Meter), "http://10.0.0.5/meter/0");
    assert_eq!(Endpoint::Settings.path(), "/settings");
    assert_eq!(Endpoint::Ota.path(), "/ota");
    assert_eq!(Endpoint::Status.path(), "/status");
    assert_eq!(Endpoint::Shelly.timeout_secs(), 3);
    assert_eq!(Endpoint::Status.timeout_secs(), 3);
    assert_eq!(Endpoint::Ota.timeout_secs(), 2);
}

#[test]
fn failed_scan_reports_its_error_text() {
    let r = scan_candidates(false, "", "Failed to resolve \"bad\".");
    assert_eq!(r.unwrap_err().message, "nmap command failed: Failed to resolve \"bad\".");
}

#[test]
fn discovery_keeps_only_the_accepted_device() {
    let out = "Starting Nmap\nNmap scan report for cam (192.168.1.20)\nHost is up.\nNmap scan report for 192.168.1.30\nHost is up.\nNmap done: 256 IP addresses (2 hosts up)\n";
    let hosts = scan_candidates(true, out, "").unwrap();
    assert_eq!(hosts.len(), 2);
    let verdicts: Vec<Verdict> = hosts
        .iter()
        .map(|h| {
            let body = if h.address == "192.168.1.20" { "Hikvision" } else { "shelly" };
            identify_with(&vec![answer(true, body)]).0
        })
        .collect();
    let devices = confirmed_devices(&hosts, &verdicts);
    assert_eq!(devices, vec![ShellyDevice { ip: "192.168.1.30".to_string(), hostname: None }]);
}
