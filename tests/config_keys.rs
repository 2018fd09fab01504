use arcane_vault::config::{decimal_text, get_keys, join_key, recursive_items, ConfigNode};
use arcane_vault::repository::{PoolSettings, DATABASE_NAME_KEY, HOST_KEY, PASSWORD_KEY, USERNAME_KEY};

#[test]
fn join_key_with_and_without_prefix() {
    assert_eq!(join_key(Some("server"), "port"), "server.port");
    assert_eq!(join_key(None, "port"), "port");
    assert_eq!(join_key(Some(""), ""), ".");
}

#[test]
fn decimal_text_of_indices() {
    assert_eq!(decimal_text(0), "0");
    assert_eq!(decimal_text(9), "9");
    assert_eq!(decimal_text(10), "10");
    assert_eq!(decimal_text(1234), "1234");
}

#[test]
fn nested_values_give_indexed_and_dotted_keys() {
    let node = ConfigNode::Array(vec![
        ConfigNode::Table(vec![
            (String::from("ip_address"), ConfigNode::Scalar),
            (String::from("port"), ConfigNode::Scalar),
        ]),
        ConfigNode::Scalar,
    ]);
    assert_eq!(
        recursive_items("sacred-gate", &node, None),
        vec!["sacred-gate[0].ip_address", "sacred-gate[0].port", "sacred-gate[1]"]
    );
}

#[test]
fn prefix_is_applied_at_each_level() {
    assert_eq!(recursive_items("k", &ConfigNode::Scalar, Some("p")), vec!["p.k"]);
    let node = ConfigNode::Array(vec![ConfigNode::Scalar]);
    assert_eq!(recursive_items("k", &node, Some("p")), vec!["p.p.k[0]"]);
}

#[test]
fn empty_containers_give_no_keys() {
    assert!(recursive_items("k", &ConfigNode::Array(vec![]), None).is_empty());
    assert!(recursive_items("k", &ConfigNode::Table(vec![]), None).is_empty());
    assert!(get_keys(&vec![]).is_empty());
}

#[test]
fn keys_of_all_entries_in_order() {
    let entries = vec![
        (String::from("title"), ConfigNode::Scalar),
        (
            String::from("arcane-vault"),
            ConfigNode::Array(vec![ConfigNode::Table(vec![(String::from("username"), ConfigNode::Scalar)])]),
        ),
    ];
    assert_eq!(get_keys(&entries), vec!["title", "arcane-vault[0].username"]);
}

#[test]
fn pool_settings_need_all_four_keys() {
    let s = PoolSettings::from_keys(
        Some(String::from("127.0.0.1")),
        Some(String::from("vault")),
        Some(String::from("secret")),
        Some(String::from("users")),
    )
    .unwrap();
    assert_eq!(s.host, "127.0.0.1");
    assert_eq!(s.username, "vault");
    assert_eq!(s.password, "secret");
    assert_eq!(s.database_name, "users");
    assert!(PoolSettings::from_keys(None, Some(String::from("u")), Some(String::from("p")), Some(String::from("d"))).is_none());
    assert!(PoolSettings::from_keys(Some(String::from("h")), Some(String::from("u")), Some(String::from("p")), None).is_none());
    assert_eq!(HOST_KEY, "arcane-vault[0].ip_address");
    assert_eq!(USERNAME_KEY, "arcane-vault[0].username");
    assert_eq!(PASSWORD_KEY, "arcane-vault[0].password");
    assert_eq!(DATABASE_NAME_KEY, "arcane-vault[0].database_name");
}
