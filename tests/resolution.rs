use upnp_discover::device::{Device, Service};
use upnp_discover::error::Error;
use upnp_discover::fanout::FanOut;
use upnp_discover::location::parse_location;
use upnp_discover::report::report_lines;
use upnp_discover::resolve::{finish, FetchOutcome};

const LOCATION: &str = "http://192.168.1.10:1400/xml/device_description.xml";

fn two_services() -> Vec<Service> {
    vec![
        Service::new("urn:upnp:serviceId:1".to_string(), "urn:schemas-upnp-org:service:A:1".to_string()),
        Service::new("urn:upnp:serviceId:2".to_string(), "urn:schemas-upnp-org:service:B:1".to_string()),
    ]
}

#[test]
fn valid_location_parses() {
    let uri = parse_location(LOCATION).unwrap();
    assert_eq!(uri.host(), Some("192.168.1.10"));
    assert_eq!(uri.port_u16(), Some(1400));
}

#[test]
fn invalid_location_gives_invalid_url() {
    match parse_location("not a url") {
        Err(Error::InvalidUrl(l)) => assert_eq!(l, "not a url"),
        _ => panic!("expected InvalidUrl"),
    }
}

#[test]
fn not_found_gives_http_error_code() {
    match finish(LOCATION, FetchOutcome::Status(404)) {
        Err(Error::HttpErrorCode(code)) => assert_eq!(code, 404),
        _ => panic!("expected HttpErrorCode"),
    }
}

#[test]
fn described_device_keeps_name_and_services_in_order() {
    let outcome = FetchOutcome::Described {
        friendly_name: "Living Room TV".to_string(),
        services: two_services(),
    };
    let d = finish(LOCATION, outcome).ok().unwrap();
    assert_eq!(d.friendly_name(), "Living Room TV");
    assert_eq!(d.url(), LOCATION);
    assert_eq!(d.services().len(), 2);
    assert_eq!(d.services()[0].service_id(), "urn:upnp:serviceId:1");
    assert_eq!(d.services()[1].service_id(), "urn:upnp:serviceId:2");
}

#[test]
fn missing_friendly_name_is_named() {
    let outcome = FetchOutcome::MissingElement("device".to_string(), "friendlyName".to_string());
    match finish(LOCATION, outcome) {
        Err(Error::XmlMissingElement(p, e)) => {
            assert_eq!(p, "device");
            assert_eq!(e, "friendlyName");
        }
        _ => panic!("expected XmlMissingElement"),
    }
}

#[test]
fn transport_failure_carries_location() {
    match finish(LOCATION, FetchOutcome::Unreachable("connection refused".to_string())) {
        Err(Error::NetworkError(l, c)) => {
            assert_eq!(l, LOCATION);
            assert_eq!(c, "connection refused");
        }
        _ => panic!("expected NetworkError"),
    }
}

#[test]
fn other_failures_map_to_their_kinds() {
    assert!(matches!(finish(LOCATION, FetchOutcome::Malformed("bad".to_string())), Err(Error::InvalidResponse(c)) if c == "bad"));
    assert!(matches!(finish(LOCATION, FetchOutcome::Failed("utf8".to_string())), Err(Error::RupnpError(l, c)) if l == LOCATION && c == "utf8"));
    assert!(matches!(finish(LOCATION, FetchOutcome::Aborted("cancelled".to_string())), Err(Error::JoinErr(c)) if c == "cancelled"));
}

fn device_parts(d: &Device) -> (String, String, Vec<(String, String)>) {
    (
        d.friendly_name().to_string(),
        d.url().to_string(),
        d.services().iter().map(|s| (s.service_id().to_string(), s.service_type().to_string())).collect(),
    )
}

#[test]
fn resolving_twice_gives_identical_devices() {
    let mk = || FetchOutcome::Described { friendly_name: "Living Room TV".to_string(), services: two_services() };
    let a = finish(LOCATION, mk()).ok().unwrap();
    let b = finish(LOCATION, mk()).ok().unwrap();
    assert_eq!(device_parts(&a), device_parts(&b));
}

#[test]
fn fan_out_never_exceeds_cap_with_ten_queued() {
    let mut gate = FanOut::new(6);
    let mut queued = 10;
    let mut max_seen = 0;
    let mut done = 0;
    while done < 10 {
        while queued > 0 && gate.start() {
            queued -= 1;
            max_seen = max_seen.max(gate.in_flight());
        }
        assert!(gate.in_flight() <= 6);
        assert!(gate.finish());
        done += 1;
    }
    assert_eq!(max_seen, 6);
    assert!(gate.is_idle());
    assert!(!gate.finish());
}

#[test]
fn fan_out_refuses_at_cap() {
    let mut gate = FanOut::new(1);
    assert!(gate.can_start());
    assert!(gate.start());
    assert!(!gate.can_start());
    assert!(!gate.start());
    assert_eq!(gate.in_flight(), 1);
    assert_eq!(gate.cap(), 1);
}

#[test]
fn report_lists_name_heading_and_services() {
    let outcome = FetchOutcome::Described { friendly_name: "Living Room TV".to_string(), services: two_services() };
    let d = finish(LOCATION, outcome).ok().unwrap();
    assert_eq!(
        report_lines(&d),
        vec![
            "Found 'Living Room TV'".to_string(),
            "Services: ".to_string(),
            " - 'urn:upnp:serviceId:1'".to_string(),
            " - 'urn:upnp:serviceId:2'".to_string(),
        ]
    );
}

#[test]
fn report_of_device_without_services() {
    let d = finish(LOCATION, FetchOutcome::Described { friendly_name: String::new(), services: Vec::new() }).ok().unwrap();
    assert_eq!(report_lines(&d), vec!["Found ''".to_string(), "Services: ".to_string()]);
}
