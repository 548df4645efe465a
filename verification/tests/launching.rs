use proxymore::emulation::{
    lower_mime_filters, parse_emulation, parse_lowered, Browser, Emulation, EmulationError,
};
use proxymore::launch::{
    addr_host, choose_interface, parse_addr, sanitize_reverse_proxy_url, Interface, PrintMode,
};

fn addr(value: &str) -> Option<(String, u16)> {
    let is_ip = |s: &str| ["127.0.0.1", "0.0.0.0", "::1", "::1:80"].contains(&s);
    let host_is_ip = addr_host(value).map(is_ip).unwrap_or(false);
    parse_addr(value, is_ip(value), host_is_ip)
}

#[test]
fn addresses_of_the_manual() {
    assert_eq!(addr("8081"), Some(("0.0.0.0".to_string(), 8081)));
    assert_eq!(addr("127.0.0.1"), Some(("127.0.0.1".to_string(), 8080)));
    assert_eq!(addr("127.0.0.1:8081"), Some(("127.0.0.1".to_string(), 8081)));
    assert_eq!(addr("0.0.0.0:8080"), Some(("0.0.0.0".to_string(), 8080)));
}

#[test]
fn addresses_at_the_edges() {
    assert_eq!(addr("65535"), Some(("0.0.0.0".to_string(), 65535)));
    assert_eq!(addr("65536"), None);
    assert_eq!(addr("+80"), Some(("0.0.0.0".to_string(), 80)));
    assert_eq!(addr(""), None);
    assert_eq!(addr("localhost:80"), None);
    assert_eq!(addr("127.0.0.1:"), None);
    assert_eq!(addr("127.0.0.1:70000"), None);
    assert_eq!(addr("::1"), Some(("::1".to_string(), 8080)));
    assert_eq!(addr("::1:80"), Some(("::1:80".to_string(), 8080)));
}

#[test]
fn interfaces_of_the_manual() {
    let tui = Interface { tui: true, print_mode: PrintMode::Nothing };
    assert_eq!(choose_interface(true, false, false, false), tui);
    assert_eq!(choose_interface(true, true, false, false), tui);
    assert_eq!(
        choose_interface(true, false, false, true),
        Interface { tui: false, print_mode: PrintMode::Oneline }
    );
    assert_eq!(choose_interface(true, true, false, true), tui);
    assert_eq!(
        choose_interface(true, false, true, false),
        Interface { tui: false, print_mode: PrintMode::Markdown }
    );
    assert_eq!(
        choose_interface(false, false, false, false),
        Interface { tui: false, print_mode: PrintMode::Markdown }
    );
}

#[test]
fn no_terminal_no_terminal_interface() {
    assert_eq!(
        choose_interface(false, true, false, false),
        Interface { tui: false, print_mode: PrintMode::Markdown }
    );
    assert_eq!(
        choose_interface(false, true, true, true),
        Interface { tui: false, print_mode: PrintMode::Markdown }
    );
    assert_eq!(PrintMode::default(), PrintMode::Markdown);
}

#[test]
fn urls_are_sanitized() {
    let f = |s: &str| sanitize_reverse_proxy_url(s.to_string());
    assert_eq!(f("https://httpbin.org"), "https://httpbin.org");
    assert_eq!(f("httpbin.org"), "http://httpbin.org");
    assert_eq!(f("httpbin.org/"), "http://httpbin.org");
    assert_eq!(f("http://a/b/"), "http://a/b");
    assert_eq!(f("a//"), "http://a/");
    assert_eq!(f(""), "http:/");
    assert_eq!(f("HTTP://a"), "http://HTTP://a");
    assert_eq!(f(&f("httpbin.org/")), "http://httpbin.org");
}

#[test]
fn emulations_by_family() {
    assert_eq!(parse_emulation("firefox").unwrap(), Emulation::Firefox147);
    assert_eq!(parse_emulation("FF").unwrap(), Emulation::Firefox147);
    assert_eq!(parse_emulation("chrome").unwrap(), Emulation::Chrome145);
    assert_eq!(parse_emulation("cr").unwrap(), Emulation::Chrome145);
    assert_eq!(parse_emulation("Safari").unwrap(), Emulation::Safari26_2);
    assert_eq!(parse_emulation("sf").unwrap(), Emulation::Safari26_2);
    assert_eq!(parse_emulation("edge").unwrap(), Emulation::Edge145);
    assert_eq!(parse_emulation("opera").unwrap(), Emulation::Opera119);
}

#[test]
fn emulations_by_version() {
    assert_eq!(parse_emulation("Firefox136").unwrap(), Emulation::Firefox136);
    assert_eq!(parse_emulation("chrome100").unwrap(), Emulation::Chrome100);
    assert_eq!(parse_emulation("safari15.3").unwrap(), Emulation::Safari15_3);
    assert_eq!(parse_emulation("edge101").unwrap(), Emulation::Edge101);
    assert_eq!(parse_emulation("OPERA116").unwrap(), Emulation::Opera116);
}

#[test]
fn emulations_that_are_refused() {
    let error = parse_emulation("Chrome99").unwrap_err();
    assert!(matches!(error, EmulationError::UnknownVersion(Browser::Chrome, _)));
    assert_eq!(error.message(), "Unknown Chrome version: Chrome99");
    assert_eq!(
        parse_emulation("firefox1").unwrap_err().message(),
        "Unknown Firefox version: firefox1"
    );
    assert_eq!(
        parse_emulation("safari1").unwrap_err().message(),
        "Unknown Safari version: safari1"
    );
    assert_eq!(parse_emulation("Edge 145").unwrap_err().message(), "Unknown Edge version: Edge 145");
    assert_eq!(parse_emulation("opera1").unwrap_err().message(), "Unknown Opera version: opera1");
    let error = parse_emulation("Lynx").unwrap_err();
    assert!(matches!(error, EmulationError::UnknownBrowser(_)));
    assert_eq!(
        error.message(),
        "Unknown browser emulation: 'Lynx'. Use firefox, chrome, safari, edge, or opera (optionally with version, e.g. firefox136)"
    );
}

#[test]
fn emulations_given_the_small_letters() {
    assert_eq!(parse_lowered("EDGE", "edge", "edge").unwrap(), Emulation::Edge145);
    assert_eq!(parse_lowered("X", "chrome145", "chrome145").unwrap(), Emulation::Chrome145);
    assert_eq!(
        parse_lowered("X", "nothing", "nothing").unwrap_err().message(),
        "Unknown browser emulation: 'X'. Use firefox, chrome, safari, edge, or opera (optionally with version, e.g. firefox136)"
    );
}

#[test]
fn mime_filters_in_small_letters() {
    assert_eq!(
        lower_mime_filters(&vec!["Application/JSON".to_string(), "text/".to_string()]),
        vec!["application/json".to_string(), "text/".to_string()]
    );
    assert!(lower_mime_filters(&vec![]).is_empty());
}

#[test]
fn versioned_names_up_to_case() {
    assert_eq!(parse_emulation("CHROME131").unwrap(), parse_emulation("chrome131").unwrap());
    assert_ne!(parse_emulation("chrome131").unwrap(), parse_emulation("edge131").unwrap());
    assert_ne!(parse_emulation("safari18").unwrap(), parse_emulation("safari18.2").unwrap());
}
