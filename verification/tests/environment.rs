use codex_mcp_client::env::{create_env_for_mcp_server, default_env_vars, EnvMap, Platform};

fn env(pairs: &[(&str, &str)]) -> EnvMap {
    EnvMap::from_pairs(pairs.iter().map(|(n, v)| (n.to_string(), v.to_string())).collect())
}

fn sorted(env: EnvMap) -> Vec<(String, String)> {
    let mut pairs = env.into_pairs();
    pairs.sort();
    pairs
}

fn pairs(pairs: &[(&str, &str)]) -> Vec<(String, String)> {
    pairs.iter().map(|(n, v)| (n.to_string(), v.to_string())).collect()
}

#[test]
fn test_create_env_for_mcp_server() {
    let env_var = "USER";
    let own_env = env(&[("USER", "me"), ("PATH", "/bin:/usr/bin")]);
    let env_var_existing_value = own_env.get(env_var).cloned().unwrap_or_default();
    let env_var_new_value = format!("{env_var_existing_value}-extra");
    let extra_env = EnvMap::from_pairs(vec![(env_var.to_owned(), env_var_new_value.clone())]);
    let mcp_server_env = create_env_for_mcp_server(Platform::Unix, &own_env, Some(extra_env));
    assert!(mcp_server_env.contains_key("PATH"));
    assert_eq!(Some(&env_var_new_value), mcp_server_env.get(env_var));
}

#[test]
fn only_default_variables_are_inherited() {
    let own_env = env(&[("HOME", "/h"), ("SECRET_KEY", "s"), ("TZ", "UTC"), ("TEMP", "t")]);
    assert_eq!(
        sorted(create_env_for_mcp_server(Platform::Unix, &own_env, None)),
        pairs(&[("HOME", "/h"), ("TZ", "UTC")])
    );
    assert_eq!(
        sorted(create_env_for_mcp_server(Platform::Windows, &own_env, None)),
        pairs(&[("TEMP", "t")])
    );
}

#[test]
fn extra_variables_are_added_and_win() {
    let own_env = env(&[("HOME", "/h"), ("LANG", "C")]);
    let extra = env(&[("LANG", "de"), ("TOKEN", "x")]);
    assert_eq!(
        sorted(create_env_for_mcp_server(Platform::Unix, &own_env, Some(extra))),
        pairs(&[("HOME", "/h"), ("LANG", "de"), ("TOKEN", "x")])
    );
}

#[test]
fn two_clients_with_the_same_default_variables_agree() {
    let one = env(&[("HOME", "/h"), ("A", "1")]);
    let other = env(&[("B", "2"), ("HOME", "/h")]);
    assert_eq!(
        sorted(create_env_for_mcp_server(Platform::Unix, &one, None)),
        sorted(create_env_for_mcp_server(Platform::Unix, &other, None))
    );
}

#[test]
fn the_default_variables_are_these() {
    assert_eq!(
        default_env_vars(Platform::Unix),
        [
            "HOME",
            "LOGNAME",
            "PATH",
            "SHELL",
            "USER",
            "__CF_USER_TEXT_ENCODING",
            "LANG",
            "LC_ALL",
            "TERM",
            "TMPDIR",
            "TZ",
        ]
    );
    assert_eq!(
        default_env_vars(Platform::Windows),
        ["PATH", "PATHEXT", "USERNAME", "USERDOMAIN", "USERPROFILE", "TEMP", "TMP"]
    );
}

#[test]
fn of_two_pairs_with_one_name_the_last_one_counts() {
    let env = env(&[("A", "1"), ("B", "2"), ("A", "3")]);
    assert_eq!(env.get("A").map(String::as_str), Some("3"));
    assert_eq!(sorted(env), pairs(&[("A", "3"), ("B", "2")]));
}

#[test]
fn variables_are_set_and_found() {
    let mut env = EnvMap::new();
    assert!(!env.contains_key("A"));
    assert_eq!(env.get("A"), None);
    env.insert("A".to_owned(), "1".to_owned());
    env.insert("A".to_owned(), "2".to_owned());
    env.extend(pairs(&[("B", "3"), ("A", "4")]));
    assert!(env.contains_key("B"));
    assert_eq!(sorted(env), pairs(&[("A", "4"), ("B", "3")]));
}
