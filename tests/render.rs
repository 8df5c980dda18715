use resolvgen::resolv::generate;
use resolvgen::search::{extract, Search};

const HEAD: &str = "# Auto-generated resolv.conf file\n#\n# This uses the output of ipconfig.exe on the Windows side to determine\n# valid DNS servers and search suffixes.\n\n";

#[test]
fn empty_input_renders_both_placeholders() {
    let e = extract("").expect("built-in patterns compile");
    let text = generate(&e.suffixes, &e.servers);
    assert!(text.contains("No DNS search suffixes found"));
    assert!(text.contains("No DNS nameservers found"));
    let expected = format!(
        "{HEAD}# No DNS search suffixes found. Check your ipconfig.exe output!\n\n# No DNS nameservers found. Check your ipconfig.exe output!"
    );
    assert_eq!(text, expected);
}

#[test]
fn renders_search_and_nameserver_lines() {
    let suffixes = vec!["example.com".to_string(), "corp.local".to_string()];
    let servers = vec!["192.168.1.1".to_string(), "8.8.8.8".to_string()];
    let text = generate(&suffixes, &servers);
    let expected = format!(
        "{HEAD}search example.com corp.local\n\nnameserver 192.168.1.1\nnameserver 8.8.8.8\n"
    );
    assert_eq!(text, expected);
}

#[test]
fn renders_placeholder_for_missing_suffixes_only() {
    let text = generate(&[], &["1.2.3.4".to_string()]);
    let expected = format!(
        "{HEAD}# No DNS search suffixes found. Check your ipconfig.exe output!\n\nnameserver 1.2.3.4\n"
    );
    assert_eq!(text, expected);
}

#[test]
fn renders_placeholder_for_missing_servers_only() {
    let text = generate(&["a.com".to_string()], &[]);
    let expected = format!(
        "{HEAD}search a.com\n\n# No DNS nameservers found. Check your ipconfig.exe output!"
    );
    assert_eq!(text, expected);
}

#[test]
fn search_renders_what_it_collected() {
    let mut s = Search::new().expect("built-in patterns compile");
    s.process_text("   DNS Servers . . . : 192.168.1.1\n                  8.8.8.8\n");
    let expected = format!(
        "{HEAD}# No DNS search suffixes found. Check your ipconfig.exe output!\n\nnameserver 192.168.1.1\nnameserver 8.8.8.8\n"
    );
    assert_eq!(s.generate_resolv_conf(), expected);
}
