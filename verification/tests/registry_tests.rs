use cli_shortener::registry::{check_line, lookup, publish, RegistryError, ServerAddress};

fn address(host: &str, port: u16, path: &str) -> ServerAddress {
    ServerAddress { host: host.to_string(), port, path: path.to_string() }
}

#[test]
fn publish_writes_three_lines() {
    assert_eq!(
        publish(&address("127.0.0.1", 8080, "links")),
        Some("127.0.0.1\n8080\nlinks".to_string())
    );
    assert_eq!(publish(&address("127.0.0.1", 8080, "")), Some("127.0.0.1\n8080\n".to_string()));
    assert_eq!(publish(&address("::1", 0, "a/b")), Some("::1\n0\na/b".to_string()));
    assert_eq!(
        publish(&address("0.0.0.0", 65535, "x")),
        Some("0.0.0.0\n65535\nx".to_string())
    );
}

#[test]
fn publish_refuses_what_could_not_be_read_back() {
    assert_eq!(publish(&address("", 8080, "links")), None);
    assert_eq!(publish(&address("127.0.0.1\n", 8080, "links")), None);
    assert_eq!(publish(&address("127.0.0.1", 8080, "a\nb")), None);
}

#[test]
fn lookup_without_a_record_is_not_found() {
    assert_eq!(lookup(None), Err(RegistryError::NotFound));
}

#[test]
fn lookup_reads_host_port_and_path() {
    assert_eq!(lookup(Some("127.0.0.1\n8080\nlinks")), Ok(address("127.0.0.1", 8080, "links")));
    assert_eq!(lookup(Some("127.0.0.1\n8080\n")), Ok(address("127.0.0.1", 8080, "")));
    assert_eq!(lookup(Some("::1\n0\na/b c")), Ok(address("::1", 0, "a/b c")));
    assert_eq!(lookup(Some("localhost\n0080\n")), Ok(address("localhost", 80, "")));
    assert_eq!(lookup(Some("h\n65535\n\u{e9}")), Ok(address("h", 65535, "\u{e9}")));
}

#[test]
fn lookup_of_a_corrupt_record() {
    let corrupt = [
        "",
        "127.0.0.1",
        "127.0.0.1\n",
        "127.0.0.1\n8080",
        "127.0.0.1\n80",
        "\n8080\nlinks",
        "127.0.0.1\n\nlinks",
        "127.0.0.1\nport\nlinks",
        "127.0.0.1\n80 80\nlinks",
        "127.0.0.1\n+8080\nlinks",
        "127.0.0.1\n-1\nlinks",
        "127.0.0.1\n65536\nlinks",
        "127.0.0.1\n8080\nlinks\n",
        "127.0.0.1\n8080\nlinks\nmore",
        "\n\n",
    ];
    for text in corrupt {
        assert_eq!(lookup(Some(text)), Err(RegistryError::Corrupt));
    }
}

#[test]
fn lookup_reads_back_what_publish_wrote() {
    let addresses = [
        address("127.0.0.1", 8080, ""),
        address("127.0.0.1", 0, "links"),
        address("10.1.2.3", 65535, "a/b/c"),
        address("fe80::1", 443, "s"),
    ];
    for a in addresses {
        let text = publish(&a).unwrap();
        assert_eq!(lookup(Some(&text)), Ok(a));
    }
}

#[test]
fn check_line_finds_a_line_break() {
    assert!(check_line(""));
    assert!(check_line("links"));
    assert!(!check_line("\n"));
    assert!(!check_line("a\nb"));
    assert!(!check_line("ab\n"));
}
