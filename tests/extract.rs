use resolvgen::search::{extract, Mode, Search};

fn run(text: &str) -> (Vec<String>, Vec<String>) {
    let e = extract(text).expect("built-in patterns compile");
    (e.suffixes, e.servers)
}

#[test]
fn servers_header_then_continuation() {
    let (suffixes, servers) = run(
        "   DNS Servers . . . : 192.168.1.1\n                                       8.8.8.8\n",
    );
    assert_eq!(servers, vec!["192.168.1.1".to_string(), "8.8.8.8".to_string()]);
    assert!(suffixes.is_empty());
}

#[test]
fn suffixes_header_then_continuation() {
    let (suffixes, servers) = run(
        "   DNS Suffix Search List . . . : example.com\n                                    corp.local\n",
    );
    assert_eq!(suffixes, vec!["example.com".to_string(), "corp.local".to_string()]);
    assert!(servers.is_empty());
}

#[test]
fn empty_input_finds_nothing() {
    let (suffixes, servers) = run("");
    assert!(suffixes.is_empty());
    assert!(servers.is_empty());
}

#[test]
fn servers_header_followed_by_suffixes_header() {
    let (suffixes, servers) =
        run("   DNS Servers . . . : 192.168.1.1\n   DNS Suffix Search List . . . : example.com\n");
    assert_eq!(servers, vec!["192.168.1.1".to_string()]);
    assert_eq!(suffixes, vec!["example.com".to_string()]);
}

#[test]
fn suffixes_header_followed_by_servers_header() {
    let (suffixes, servers) =
        run("   DNS Suffix Search List . . . : example.com\n   DNS Servers . . . : 192.168.1.1\n");
    assert_eq!(suffixes, vec!["example.com".to_string()]);
    assert_eq!(servers, vec!["192.168.1.1".to_string()]);
}

#[test]
fn header_fallback_switches_mode() {
    let mut s = Search::new().expect("built-in patterns compile");
    s.process_line("   DNS Servers . . . : 192.168.1.1");
    assert_eq!(s.mode(), Mode::InServerList);
    s.process_line("   DNS Suffix Search List . . . : example.com");
    assert_eq!(s.mode(), Mode::InSuffixList);
    s.process_line("   DNS Servers . . . : 10.0.0.1");
    assert_eq!(s.mode(), Mode::InServerList);
    assert_eq!(s.servers(), &vec!["192.168.1.1".to_string(), "10.0.0.1".to_string()]);
    assert_eq!(s.suffixes(), &vec!["example.com".to_string()]);
}

#[test]
fn unrecognized_lines_find_nothing() {
    let (suffixes, servers) = run(
        "Windows IP Configuration\n\n   Host Name . . . . . . . . . . . . : desktop\n                                       corp.local\n                                       10.0.0.1\n",
    );
    assert!(suffixes.is_empty());
    assert!(servers.is_empty());
}

#[test]
fn server_list_resets_on_foreign_line() {
    let mut s = Search::new().expect("built-in patterns compile");
    s.process_line("   DNS Servers . . . : 192.168.1.1");
    s.process_line("   NetBIOS over Tcpip. . . . . . . . : Enabled");
    assert_eq!(s.mode(), Mode::General);
    assert_eq!(s.servers(), &vec!["192.168.1.1".to_string()]);
    assert!(s.suffixes().is_empty());
    s.process_line("                                       8.8.8.8");
    assert_eq!(s.mode(), Mode::General);
    assert_eq!(s.servers(), &vec!["192.168.1.1".to_string()]);
}

#[test]
fn suffix_list_resets_on_blank_line() {
    let (suffixes, servers) =
        run("   DNS Suffix Search List . . . : example.com\n\n                  corp.local\n");
    assert_eq!(suffixes, vec!["example.com".to_string()]);
    assert!(servers.is_empty());
}

#[test]
fn general_mode_ignores_continuation_lines() {
    let mut s = Search::new().expect("built-in patterns compile");
    s.process_line("                                       8.8.8.8");
    s.process_line("                                       corp.local");
    assert_eq!(s.mode(), Mode::General);
    assert!(s.servers().is_empty());
    assert!(s.suffixes().is_empty());
}

#[test]
fn entries_keep_line_order_across_blocks() {
    let (suffixes, servers) = run(
        "DNS Servers . . : 1.1.1.1\n  2.2.2.2\nfoo: x\n   DNS Suffix Search List . : b.org\n  a.com\n DNS Servers . . : 3.3.3.3\n",
    );
    assert_eq!(
        servers,
        vec!["1.1.1.1".to_string(), "2.2.2.2".to_string(), "3.3.3.3".to_string()]
    );
    assert_eq!(suffixes, vec!["b.org".to_string(), "a.com".to_string()]);
}

#[test]
fn extracting_twice_gives_the_same_result() {
    let text = "   DNS Servers . . . : 192.168.1.1\n                 8.8.8.8\n   DNS Suffix Search List . . . : example.com\n";
    assert_eq!(run(text), run(text));
}

#[test]
fn realistic_output_with_carriage_returns() {
    let text = "Windows IP Configuration\r\n\r\n   Host Name . . . . . . . . . . . . : DESKTOP\r\n   DNS Suffix Search List. . . . . . : corp.example.com\r\n                                       lab.example.com\r\n\r\nEthernet adapter Ethernet:\r\n\r\n   DNS Servers . . . . . . . . . . . : 10.0.0.1\r\n                                       10.0.0.2\r\n   NetBIOS over Tcpip. . . . . . . . : Enabled\r\n";
    let (suffixes, servers) = run(text);
    assert_eq!(
        suffixes,
        vec!["corp.example.com".to_string(), "lab.example.com".to_string()]
    );
    assert_eq!(servers, vec!["10.0.0.1".to_string(), "10.0.0.2".to_string()]);
}

#[test]
fn process_text_continues_an_existing_run() {
    let mut s = Search::new().expect("built-in patterns compile");
    s.process_text("   DNS Servers . . . : 192.168.1.1");
    s.process_text("                 8.8.8.8");
    assert_eq!(s.servers(), &vec!["192.168.1.1".to_string(), "8.8.8.8".to_string()]);
    let e = s.into_extraction();
    assert_eq!(e.servers, vec!["192.168.1.1".to_string(), "8.8.8.8".to_string()]);
    assert!(e.suffixes.is_empty());
}

#[test]
fn built_in_patterns_compile() {
    assert!(Search::new().is_some());
}

#[test]
fn servers_header_takes_first_address() {
    let (suffixes, servers) = run("   DNS Servers . . . : 1.2.3.4 5.6.7.8\n");
    assert_eq!(servers, vec!["1.2.3.4".to_string()]);
    assert!(suffixes.is_empty());
}

#[test]
fn captures_drive_the_cascade() {
    let mut s = Search::new().expect("built-in patterns compile");
    s.process_captures(None, Some("9.9.9.9".to_string()), None, Some("x.org".to_string()));
    assert_eq!(s.mode(), Mode::General);
    assert!(s.servers().is_empty());
    assert!(s.suffixes().is_empty());
    s.process_captures(Some("1.1.1.1".to_string()), None, Some("a.com".to_string()), None);
    assert_eq!(s.mode(), Mode::InServerList);
    assert_eq!(s.servers(), &vec!["1.1.1.1".to_string()]);
    assert!(s.suffixes().is_empty());
    s.process_captures(Some("3.3.3.3".to_string()), Some("2.2.2.2".to_string()), None, None);
    assert_eq!(s.mode(), Mode::InServerList);
    assert_eq!(s.servers(), &vec!["1.1.1.1".to_string(), "2.2.2.2".to_string()]);
    s.process_captures(None, None, Some("a.com".to_string()), None);
    assert_eq!(s.mode(), Mode::InSuffixList);
    assert_eq!(s.suffixes(), &vec!["a.com".to_string()]);
    s.process_captures(Some("4.4.4.4".to_string()), None, None, Some("b.org".to_string()));
    assert_eq!(s.mode(), Mode::InSuffixList);
    assert_eq!(s.suffixes(), &vec!["a.com".to_string(), "b.org".to_string()]);
    s.process_captures(None, Some("5.5.5.5".to_string()), Some("c.net".to_string()), None);
    assert_eq!(s.mode(), Mode::General);
    assert_eq!(s.servers(), &vec!["1.1.1.1".to_string(), "2.2.2.2".to_string()]);
    assert_eq!(s.suffixes(), &vec!["a.com".to_string(), "b.org".to_string()]);
}
