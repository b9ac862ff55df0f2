use rustpaymentapi::config::{effective_host, effective_port, parse_port};
use rustpaymentapi::exporter::{init_telemetry, ExporterConfig};

#[test]
fn non_numeric_port_falls_back_to_default_with_warning() {
    let (port, warned) = effective_port(Some("abc".to_string()));
    assert_eq!(port, 8080);
    assert!(warned);
}

#[test]
fn missing_port_is_the_default_without_warning() {
    assert_eq!(effective_port(None), (8080, false));
}

#[test]
fn numeric_port_is_used_verbatim() {
    assert_eq!(effective_port(Some("9090".to_string())), (9090, false));
    assert_eq!(effective_port(Some("+443".to_string())), (443, false));
    assert_eq!(effective_port(Some("0".to_string())), (0, false));
    assert_eq!(effective_port(Some("65535".to_string())), (65535, false));
}

#[test]
fn out_of_range_or_empty_ports_warn() {
    assert_eq!(effective_port(Some("65536".to_string())), (8080, true));
    assert_eq!(effective_port(Some("".to_string())), (8080, true));
    assert_eq!(effective_port(Some("+".to_string())), (8080, true));
    assert_eq!(effective_port(Some("80 ".to_string())), (8080, true));
    assert_eq!(effective_port(Some("-1".to_string())), (8080, true));
}

#[test]
fn parse_port_matches_the_standard_reading() {
    for s in ["0", "8080", "65535", "+17", "007"] {
        assert_eq!(parse_port(s), s.parse::<u16>().ok(), "on {s:?}");
    }
    for s in ["", "abc", "65536", "-1", " 1", "1 ", "+", "1.5"] {
        assert_eq!(parse_port(s), None, "on {s:?}");
        assert!(s.parse::<u16>().is_err(), "std agrees on {s:?}");
    }
}

#[test]
fn host_defaults_to_loopback() {
    assert_eq!(effective_host(None), "127.0.0.1".to_string());
    assert_eq!(effective_host(Some("0.0.0.0".to_string())), "0.0.0.0".to_string());
}

#[test]
fn endpoint_present_enables_the_exporter() {
    let p = init_telemetry(Some("http://localhost:4317".to_string()), 16);
    match &p.config {
        ExporterConfig::Otlp { endpoint } => assert_eq!(endpoint, "http://localhost:4317"),
        ExporterConfig::Disabled => panic!("an endpoint must enable the exporter"),
    }
    assert_eq!(p.service_name, "rustpaymentapi");
    assert_eq!(p.buffer.len(), 0);
}

#[test]
fn endpoint_absent_disables_the_exporter() {
    let p = init_telemetry(None, 16);
    assert!(matches!(p.config, ExporterConfig::Disabled));
}
