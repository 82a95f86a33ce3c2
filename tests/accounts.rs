use indexmap::IndexMap;
use launcher_core::accounts::{
    account_id, cached_accounts, choose_user_map, list_accounts, parse_login_users,
    resolve_account_id, UserMap,
};

const DIRECT: &str = "\"users\"\n{\n\t\"76561197960265729\"\n\t{\n\t\t\"AccountName\"\t\t\"alice\"\n\t\t\"PersonaName\"\t\t\"Alice\"\n\t\t\"Timestamp\"\t\t\"1700000000\"\n\t\t\"MostRecent\"\t\t\"1\"\n\t}\n}\n";

const WRAPPED: &str = "\"users\"\n{\n\t\"users\"\n\t{\n\t\t\"76561197960265729\"\n\t\t{\n\t\t\t\"AccountName\"\t\t\"alice\"\n\t\t\t\"PersonaName\"\t\t\"Alice\"\n\t\t\t\"Timestamp\"\t\t\"1700000000\"\n\t\t\t\"MostRecent\"\t\t\"1\"\n\t\t}\n\t}\n}\n";

fn record(fields: &[(&str, &str)]) -> Vec<(String, Option<String>)> {
    fields.iter().map(|(k, v)| (k.to_string(), Some(v.to_string()))).collect()
}

fn three_logins() -> UserMap {
    vec![
        ("76561197960265730".to_string(), record(&[("AccountName", "old"), ("Timestamp", "100")])),
        ("76561197960265731".to_string(), record(&[("AccountName", "new"), ("Timestamp", "500")])),
        ("76561197960265732".to_string(), record(&[("AccountName", "mid"), ("Timestamp", "300")])),
    ]
}

#[test]
fn direct_schema_is_read() {
    let users = parse_login_users(DIRECT);
    assert_eq!(users.len(), 1);
    assert_eq!(users[0].0, "76561197960265729");
    assert_eq!(users[0].1[0], ("AccountName".to_string(), Some("alice".to_string())));
    assert_eq!(users[0].1.len(), 4);
}

#[test]
fn wrapped_schema_lists_same_account() {
    let a = cached_accounts(DIRECT);
    let b = cached_accounts(WRAPPED);
    assert_eq!(a.len(), 1);
    assert_eq!(b.len(), 1);
    assert_eq!(a[0].steam_id, b[0].steam_id);
    assert_eq!(a[0].account_name, b[0].account_name);
    assert_eq!(a[0].persona_name, b[0].persona_name);
    assert_eq!(a[0].timestamp, b[0].timestamp);
    assert_eq!(b[0].steam_id, "76561197960265729");
    assert_eq!(b[0].account_name, "alice");
    assert_eq!(b[0].persona_name, "Alice");
    assert_eq!(b[0].timestamp, 1700000000);
}

#[test]
fn parse_of_serialized_logins_round_trips() {
    let mut inner = IndexMap::new();
    inner.insert("AccountName".to_string(), "bob".to_string());
    inner.insert("PersonaName".to_string(), "Bobby".to_string());
    inner.insert("Timestamp".to_string(), "42".to_string());
    let mut second = IndexMap::new();
    second.insert("AccountName".to_string(), "carol".to_string());
    let mut map: IndexMap<String, IndexMap<String, String>> = IndexMap::new();
    map.insert("76561197960265800".to_string(), inner);
    map.insert("76561197960265801".to_string(), second);
    let text = keyvalues_serde::to_string_with_key(&map, "users").unwrap();
    let parsed = parse_login_users(&text);
    let expected: UserMap = map
        .into_iter()
        .map(|(k, v)| (k, v.into_iter().map(|(f, x)| (f, Some(x))).collect()))
        .collect();
    assert_eq!(parsed, expected);
}

#[test]
fn unreadable_cache_gives_no_accounts() {
    assert!(parse_login_users("not a cache {").is_empty());
    assert!(cached_accounts("").is_empty());
}

#[test]
fn short_keys_without_wrapper_give_no_accounts() {
    let text = "\"users\"\n{\n\t\"12\"\n\t{\n\t\t\"AccountName\"\t\t\"x\"\n\t}\n}\n";
    assert!(parse_login_users(text).is_empty());
}

#[test]
fn choose_prefers_direct_map_with_account_id() {
    let direct: UserMap = vec![("76561197960265729".to_string(), record(&[("AccountName", "a")]))];
    let wrapped = vec![(
        "users".to_string(),
        Some(vec![("76561197960265999".to_string(), record(&[("AccountName", "b")]))]),
    )];
    let r = choose_user_map(Some(direct.clone()), Some(wrapped.clone()));
    assert_eq!(r, direct);
    let short: UserMap = vec![("123".to_string(), record(&[("AccountName", "c")]))];
    let r = choose_user_map(Some(short), Some(wrapped.clone()));
    assert_eq!(r[0].0, "76561197960265999");
    let r = choose_user_map(None, Some(vec![("other".to_string(), Some(vec![]))]));
    assert!(r.is_empty());
    assert!(choose_user_map(None, None).is_empty());
}

#[test]
fn accounts_are_listed_newest_first() {
    let listed = list_accounts(&three_logins());
    let times: Vec<u64> = listed.iter().map(|d| d.timestamp).collect();
    assert_eq!(times, vec![500, 300, 100]);
    assert_eq!(listed[0].account_name, "new");
    assert_eq!(listed[2].account_name, "old");
}

#[test]
fn equal_times_keep_file_order_and_defaults_apply() {
    let users: UserMap = vec![
        ("1".to_string(), record(&[("AccountName", "first"), ("Timestamp", "7")])),
        ("2".to_string(), record(&[("PersonaName", "nameless")])),
        ("3".to_string(), record(&[("AccountName", "second"), ("Timestamp", "7")])),
        ("4".to_string(), record(&[("AccountName", "bad"), ("Timestamp", "soon")])),
    ];
    let listed = list_accounts(&users);
    assert_eq!(listed.len(), 3);
    assert_eq!(listed[0].account_name, "first");
    assert_eq!(listed[1].account_name, "second");
    assert_eq!(listed[2].account_name, "bad");
    assert_eq!(listed[2].timestamp, 0);
    assert_eq!(listed[2].persona_name, "Unknown");
}

#[test]
fn account_id_is_offset_from_base() {
    let users: UserMap = vec![(
        "76561197960265729".to_string(),
        record(&[("AccountName", "Alice")]),
    )];
    assert_eq!(account_id(&users, "alice"), Some(1));
    assert_eq!(account_id(&users, "ALICE"), Some(1));
    assert_eq!(account_id(&users, "bob"), None);
    let big: UserMap = vec![(
        (76561197960265728u64 + 123456789).to_string(),
        record(&[("AccountName", "k")]),
    )];
    assert_eq!(account_id(&big, "k"), Some(123456789));
}

#[test]
fn account_id_at_base_or_not_numeric_is_none() {
    let at_base: UserMap = vec![(
        "76561197960265728".to_string(),
        record(&[("AccountName", "zero")]),
    )];
    assert_eq!(account_id(&at_base, "zero"), None);
    let below: UserMap = vec![("5".to_string(), record(&[("AccountName", "low")]))];
    assert_eq!(account_id(&below, "low"), None);
    let text: UserMap = vec![("abc".to_string(), record(&[("AccountName", "word")]))];
    assert_eq!(account_id(&text, "word"), None);
}

#[test]
fn account_id_skips_unusable_match() {
    let users: UserMap = vec![
        ("abc".to_string(), record(&[("AccountName", "dup")])),
        ("76561197960265738".to_string(), record(&[("AccountName", "DUP")])),
    ];
    assert_eq!(account_id(&users, "dup"), Some(10));
}

#[test]
fn resolve_account_id_reads_cache_text() {
    assert_eq!(resolve_account_id(DIRECT, "Alice"), Some(1));
    assert_eq!(resolve_account_id(WRAPPED, "alice"), Some(1));
    assert_eq!(resolve_account_id(DIRECT, "nobody"), None);
}

#[test]
fn nested_and_repeated_fields_read_as_absent() {
    let text = "\"users\"\n{\n\t\"76561197960265729\"\n\t{\n\t\t\"AccountName\"\t\t\"alice\"\n\t\t\"Extra\"\n\t\t{\n\t\t\t\"a\"\t\"b\"\n\t\t}\n\t\t\"Dup\"\t\"1\"\n\t\t\"Dup\"\t\"2\"\n\t}\n}\n";
    let users = parse_login_users(text);
    assert_eq!(users.len(), 1);
    let fields = &users[0].1;
    assert!(fields.contains(&("AccountName".to_string(), Some("alice".to_string()))));
    assert!(fields.contains(&("Extra".to_string(), None)));
    assert!(fields.contains(&("Dup".to_string(), None)));
    assert_eq!(cached_accounts(text)[0].account_name, "alice");
}

#[test]
fn wrapped_schema_ignores_other_top_level_keys() {
    let text = "\"users\"\n{\n\t\"note\"\t\"hello\"\n\t\"users\"\n\t{\n\t\t\"76561197960265729\"\n\t\t{\n\t\t\t\"AccountName\"\t\"alice\"\n\t\t}\n\t}\n}\n";
    let listed = cached_accounts(text);
    assert_eq!(listed.len(), 1);
    assert_eq!(listed[0].account_name, "alice");
}
