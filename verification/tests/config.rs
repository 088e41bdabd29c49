use sylva_agent::config::{parse_port, Config};

fn text(s: &str) -> Option<String> {
    Some(s.to_string())
}

#[test]
fn unset_environment_gives_the_defaults() {
    let config = Config::from_env(None, None, None).unwrap();
    assert_eq!(config.host, "127.0.0.1");
    assert_eq!(config.discovery_port, 8443);
    assert_eq!(config.state_path, "sylva-agent-state.json");
}

#[test]
fn set_environment_is_taken_as_it_is() {
    let config = Config::from_env(text("hub.example"), text("9000"), text("/var/lib/a.json")).unwrap();
    assert_eq!(config.host, "hub.example");
    assert_eq!(config.discovery_port, 9000);
    assert_eq!(config.state_path, "/var/lib/a.json");
    let empty = Config::from_env(text(""), None, text("")).unwrap();
    assert_eq!(empty.host, "");
    assert_eq!(empty.state_path, "");
}

#[test]
fn a_setting_that_is_no_port_is_refused_by_name() {
    let refused = Config::from_env(None, text("https"), None).unwrap_err();
    assert_eq!(refused.setting, "https");
    assert_eq!(refused.message(), "SYLVA_SERVER_DISCOVERY_PORT is not a port: https");
}

#[test]
fn ports_are_read_as_the_standard_library_reads_them() {
    let texts = [
        "0", "1", "8443", "65535", "65536", "70000", "99999999999999999999", "", "+", "-", "+0",
        "+65535", "++1", "-0", "-1", "00080", "000000000000000000000443", "8443 ", " 8443", "84_43",
        "0x10", "8443x", "x8443", "4.5", "٣", "8٣", "+٣", "é", "8443\n", "1+", "65535+",
    ];
    for t in texts {
        assert_eq!(parse_port(t), t.parse::<u16>().ok(), "{t:?}");
    }
}

#[test]
fn every_port_number_is_read_back() {
    for port in 0..=u16::MAX {
        assert_eq!(parse_port(&port.to_string()), Some(port));
    }
}
