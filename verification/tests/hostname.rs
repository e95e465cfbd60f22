use orchestrator_client::hostname::is_valid_hostname;

#[test]
fn test_is_valid_hostname() {
    let valid_hostnames = ["localhost", "example.route.cloud.com", "127.0.0.1"];
    for hostname in valid_hostnames {
        assert!(is_valid_hostname(hostname));
    }
    let invalid_hostnames = [
        "-LoCaLhOST_",
        ".invalid",
        "invalid.ending-.char",
        "@asdf",
        "too-long-of-a-hostnameeeeeeeeeeeeeeeeeeeeeeeeeeeeeeeeeeeeeeeeeeeeeeee",
    ];
    for hostname in invalid_hostnames {
        assert!(!is_valid_hostname(hostname));
    }
}

#[test]
fn hostname_lengths_are_limited() {
    let label = "a".repeat(63);
    assert!(is_valid_hostname(&label));
    assert!(!is_valid_hostname(&"a".repeat(64)));
    let name = [label.as_str(), label.as_str(), label.as_str(), &"a".repeat(61)].join(".");
    assert_eq!(name.len(), 253);
    assert!(is_valid_hostname(&name));
    let name = [label.as_str(), label.as_str(), label.as_str(), &"a".repeat(62)].join(".");
    assert!(!is_valid_hostname(&name));
}

#[test]
fn hostname_labels_are_checked_one_by_one() {
    assert!(!is_valid_hostname(""));
    assert!(!is_valid_hostname("."));
    assert!(!is_valid_hostname("a..b"));
    assert!(!is_valid_hostname("a."));
    assert!(!is_valid_hostname("a.-b"));
    assert!(!is_valid_hostname("a-.b"));
    assert!(!is_valid_hostname("a_b"));
    assert!(!is_valid_hostname("h\u{e9}"));
    assert!(is_valid_hostname("A-1.b-2"));
}

#[test]
fn joined_valid_hostnames_are_valid() {
    for a in ["localhost", "x-1"] {
        for b in ["example.com", "127.0.0.1"] {
            assert!(is_valid_hostname(&[a, b].join(".")));
        }
    }
}
