use ario::launch::{
    managed_server_target, parse_launch_args, HostVerdict, LaunchOptions, LaunchParser, LaunchStep, ManagedServerTarget,
    DEFAULT_PORT,
};

fn target(host: &str, port: u16) -> Option<ManagedServerTarget> {
    Some(ManagedServerTarget { host: host.into(), port })
}

#[test]
fn parses_manageable_loopback_urls() {
    assert_eq!(managed_server_target(true, "http://localhost:9999"), target("127.0.0.1", 9999));
    assert_eq!(managed_server_target(true, "http://[::1]:47813"), target("::1", 47813));
    assert_eq!(managed_server_target(true, "http://127.0.0.1").unwrap().port, DEFAULT_PORT);
    assert_eq!(managed_server_target(true, "http://127.0.0.1").unwrap().api_base(), "http://127.0.0.1:47812");
    assert_eq!(managed_server_target(true, "http://[::1]:47813").unwrap().api_base(), "http://[::1]:47813");
    assert_eq!(managed_server_target(true, "http://127.1.2.3:5").unwrap().api_base(), "http://127.1.2.3:5");
}

#[test]
fn rejects_urls_that_must_be_externally_managed() {
    for url in [
        "https://localhost:47812",
        "http://example.com:47812",
        "http://192.168.1.5:47812",
        "http://localhost:47812/api",
        "http://user@localhost:47812",
        "not a url",
        "http://localhost:0",
    ] {
        assert_eq!(managed_server_target(true, url), None, "{url}");
    }
    assert_eq!(managed_server_target(false, "http://localhost:47812"), None);
}

/// Reads arguments, with these tests' few addresses as the address
/// parser's readings.
fn parse(args: &[&str]) -> Result<LaunchOptions, String> {
    let args: Vec<String> = args.iter().map(|a| a.to_string()).collect();
    let verdicts: Vec<HostVerdict> = args
        .iter()
        .map(|value| match value.as_str() {
            "::1" | "127.0.0.2" => HostVerdict::Loopback(value.clone()),
            "192.168.1.2" => HostVerdict::NotLoopback,
            _ => HostVerdict::NotAnAddress,
        })
        .collect();
    parse_launch_args(&args, &verdicts)
}

#[test]
fn the_parser_takes_one_argument_at_a_time() {
    let mut parser = LaunchParser::new();
    assert_eq!(parser.feed("--host".into()), Ok(LaunchStep::Continue));
    assert_eq!(parser.feed("::1".into()), Ok(LaunchStep::CheckHost("::1".into())));
    assert_eq!(parser.host_checked("::1", HostVerdict::Loopback("::1".into())), Ok(()));
    assert_eq!(parser.finish().unwrap().host, "::1");
}

#[test]
fn parses_custom_managed_listener() {
    let options = parse(&["--host", "::1", "--port", "49123", "--tui-managed"]).unwrap();
    assert_eq!(options.host, "::1");
    assert_eq!(options.port, 49123);
    assert!(options.tui_managed);
}

#[test]
fn rejects_non_loopback_and_unknown_arguments() {
    assert!(parse(&["--host", "192.168.1.2"]).is_err());
    assert!(parse(&["--wat"]).is_err());
}

#[test]
fn launch_arguments_report_each_mistake() {
    assert_eq!(parse(&[]), Ok(LaunchOptions { host: "127.0.0.1".into(), port: DEFAULT_PORT, tui_managed: false }));
    assert_eq!(parse(&["--host", "LocalHost"]).unwrap().host, "127.0.0.1");
    assert_eq!(parse(&["--host"]), Err("--host requires a value".to_string()));
    assert_eq!(parse(&["--port"]), Err("--port requires a value".to_string()));
    assert_eq!(parse(&["--port", "0"]), Err("--port must be greater than zero".to_string()));
    assert_eq!(parse(&["--port", "70000"]), Err("invalid --port: 70000".to_string()));
    assert_eq!(parse(&["--port", "+80"]).unwrap().port, 80);
    assert_eq!(parse(&["--host", "nope"]), Err("invalid --host: nope".to_string()));
    assert_eq!(parse(&["--host", "192.168.1.2"]), Err("--host must be a loopback address".to_string()));
    assert_eq!(parse(&["--wat"]), Err("unknown argument: --wat".to_string()));
}
