use avalanche::config::{render_config, Remote};
use avalanche::sync::SharedMap;

#[test]
fn config_for_one_remote_is_exact() {
    let remotes = vec![Remote {
        name: "volatile".to_owned(),
        index_uri: "https://packages.test/volatile/stone.index".to_owned(),
        priority: 0,
    }];
    let expected = String::new()
        + "\navalanche:\n    repositories:\n"
        + "\n        volatile:"
        + "\n            uri: \"https://packages.test/volatile/stone.index\""
        + "\n            description: \"Remotely configured repository\""
        + "\n            priority: 0"
        + "\n                "
        + "\n        ";
    assert_eq!(render_config(&remotes), expected);
}

#[test]
fn config_joins_remotes_with_newlines() {
    let remotes = vec![
        Remote {
            name: "a".to_owned(),
            index_uri: "https://a.test/index".to_owned(),
            priority: 1,
        },
        Remote {
            name: "b".to_owned(),
            index_uri: "https://b.test/index".to_owned(),
            priority: 250,
        },
    ];
    let rendered = render_config(&remotes);
    assert!(rendered.starts_with("\navalanche:\n    repositories:\n"));
    assert!(rendered.contains("\n        a:\n            uri: \"https://a.test/index\""));
    assert!(rendered.contains("\n            priority: 1\n"));
    assert!(rendered.contains("\n        b:\n            uri: \"https://b.test/index\""));
    assert!(rendered.contains("\n            priority: 250\n"));
    // The two blocks are separated by exactly one extra newline.
    let blocks = rendered.matches("\n        ").count();
    assert!(blocks >= 2);
}

#[test]
fn config_for_no_remotes_keeps_the_frame() {
    let rendered = render_config(&Vec::new());
    assert_eq!(rendered, "\navalanche:\n    repositories:\n\n        ");
}

#[test]
fn shared_map_insert_and_remove() {
    let mut m: SharedMap<u32> = SharedMap::new();
    m.insert("https://example.com/a.git".to_owned(), 1);
    m.insert("https://example.com/b.git".to_owned(), 2);
    // Overwrite keeps one entry per key.
    m.insert("https://example.com/a.git".to_owned(), 3);
    assert_eq!(m.remove(&"https://example.com/a.git".to_owned()), Some(3));
    assert_eq!(m.remove(&"https://example.com/a.git".to_owned()), None);
    assert_eq!(m.remove(&"https://example.com/b.git".to_owned()), Some(2));
    assert_eq!(m.remove(&"missing".to_owned()), None);
}

#[test]
fn shared_map_default_is_empty() {
    let mut m: SharedMap<String> = SharedMap::default();
    assert_eq!(m.remove(&"anything".to_owned()), None);
}
