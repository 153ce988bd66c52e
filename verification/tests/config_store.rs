use sshr::config::{find_host, remove_host, upsert_host};
use sshr::error::{Error, IoAction};
use sshr::model::{default_port, Auth, Config, HostEntry, DEFAULT_PORT};

fn cert(name: &str, host: &str) -> HostEntry {
    HostEntry {
        name: name.to_string(),
        user: "root".to_string(),
        host: host.to_string(),
        port: 22,
        auth: Auth::Cert { identity_file: "~/.ssh/id_rsa".to_string() },
    }
}

fn password(name: &str, host: &str, password: Option<&str>) -> HostEntry {
    HostEntry {
        name: name.to_string(),
        user: "admin".to_string(),
        host: host.to_string(),
        port: 2222,
        auth: Auth::Password { password: password.map(|p| p.to_string()) },
    }
}

fn three() -> Config {
    Config { hosts: vec![cert("a", "a.example"), password("b", "b.example", None), cert("c", "c.example")] }
}

fn names(cfg: &Config) -> Vec<String> {
    cfg.hosts.iter().map(|h| h.name.clone()).collect()
}

#[test]
fn default_config_has_no_hosts() {
    assert_eq!(Config::default(), Config { hosts: vec![] });
}

#[test]
fn default_port_is_22() {
    assert_eq!(default_port(), 22);
    assert_eq!(DEFAULT_PORT, 22);
}

#[test]
fn clone_keeps_every_field() {
    let cfg = three();
    assert_eq!(cfg.clone(), cfg);
    let entry = password("p", "p.example", Some("secret"));
    assert_eq!(entry.clone(), entry);
}

#[test]
fn upsert_then_find_returns_the_entry() {
    let entry = password("b", "other.example", Some("pw"));
    let cfg = upsert_host(three(), entry.clone()).unwrap();
    assert_eq!(find_host(&cfg, "b"), Ok(entry));

    let fresh = cert("z", "z.example");
    let cfg = upsert_host(three(), fresh.clone()).unwrap();
    assert_eq!(find_host(&cfg, "z"), Ok(fresh));

    let first = cert("only", "only.example");
    let cfg = upsert_host(Config::default(), first.clone()).unwrap();
    assert_eq!(find_host(&cfg, "only"), Ok(first));
}

#[test]
fn upsert_existing_name_replaces_in_place() {
    let before = three();
    let entry = password("b", "other.example", Some("pw"));
    let after = upsert_host(before.clone(), entry.clone()).unwrap();
    assert_eq!(after.hosts.len(), 3);
    assert_eq!(after.hosts[0], before.hosts[0]);
    assert_eq!(after.hosts[1], entry);
    assert_eq!(after.hosts[2], before.hosts[2]);
}

#[test]
fn upsert_new_name_appends() {
    let before = three();
    let entry = cert("d", "d.example");
    let after = upsert_host(before.clone(), entry.clone()).unwrap();
    assert_eq!(names(&after), vec!["a", "b", "c", "d"]);
    assert_eq!(after.hosts[3], entry);
    assert_eq!(&after.hosts[..3], &before.hosts[..]);
}

#[test]
fn upsert_replaces_only_the_first_of_two_equal_names() {
    let before = Config { hosts: vec![cert("a", "one"), cert("b", "two"), cert("a", "three")] };
    let after = upsert_host(before, cert("a", "new")).unwrap();
    assert_eq!(after.hosts, vec![cert("a", "new"), cert("b", "two"), cert("a", "three")]);
}

#[test]
fn upsert_matches_names_exactly() {
    let after = upsert_host(three(), cert("A", "upper.example")).unwrap();
    assert_eq!(names(&after), vec!["a", "b", "c", "A"]);
}

#[test]
fn remove_missing_name_fails_with_alias_not_found() {
    let r = remove_host(three(), "nope");
    assert_eq!(r, Err(Error::AliasNotFound { name: "nope".to_string() }));
    let r = remove_host(Config::default(), "a");
    assert_eq!(r, Err(Error::AliasNotFound { name: "a".to_string() }));
}

#[test]
fn remove_existing_name_keeps_the_others_in_order() {
    let after = remove_host(three(), "b").unwrap();
    assert_eq!(after.hosts, vec![cert("a", "a.example"), cert("c", "c.example")]);
    let after = remove_host(three(), "a").unwrap();
    assert_eq!(names(&after), vec!["b", "c"]);
    let after = remove_host(three(), "c").unwrap();
    assert_eq!(names(&after), vec!["a", "b"]);
}

#[test]
fn remove_takes_every_entry_of_that_name() {
    let before = Config { hosts: vec![cert("a", "one"), cert("b", "two"), cert("a", "three")] };
    let after = remove_host(before, "a").unwrap();
    assert_eq!(after.hosts, vec![cert("b", "two")]);
}

#[test]
fn remove_last_entry_leaves_empty_config() {
    let cfg = upsert_host(Config::default(), cert("a", "a.example")).unwrap();
    assert_eq!(remove_host(cfg, "a"), Ok(Config::default()));
}

#[test]
fn find_returns_a_copy_of_the_first_match() {
    let cfg = Config { hosts: vec![cert("a", "one"), cert("b", "two"), cert("a", "three")] };
    assert_eq!(find_host(&cfg, "a"), Ok(cert("a", "one")));
    assert_eq!(find_host(&cfg, "b"), Ok(cert("b", "two")));
    assert_eq!(cfg.hosts.len(), 3);
}

#[test]
fn find_missing_name_fails_with_alias_not_found() {
    assert_eq!(find_host(&three(), "x"), Err(Error::AliasNotFound { name: "x".to_string() }));
    assert_eq!(find_host(&three(), ""), Err(Error::AliasNotFound { name: String::new() }));
    assert_eq!(find_host(&three(), "a "), Err(Error::AliasNotFound { name: "a ".to_string() }));
}

#[test]
fn upsert_and_remove_keep_names_unique() {
    let mut cfg = Config::default();
    for name in ["a", "b", "a", "c", "b", "a"] {
        cfg = upsert_host(cfg, cert(name, "h")).unwrap();
    }
    assert_eq!(names(&cfg), vec!["a", "b", "c"]);
    let cfg = remove_host(cfg, "b").unwrap();
    assert_eq!(names(&cfg), vec!["a", "c"]);
}

#[test]
fn error_messages_name_what_failed() {
    assert_eq!(Error::AliasNotFound { name: "web".to_string() }.message(), "alias 'web' not found");
    assert_eq!(Error::HomeUnresolvable.message(), "cannot resolve home directory");
    assert_eq!(Error::ClientNotFound.message(), "ssh not found in PATH");
    assert_eq!(Error::Spawn { via_helper: false }.message(), "failed to spawn ssh");
    assert_eq!(Error::Spawn { via_helper: true }.message(), "failed to spawn sshpass/ssh");
    assert_eq!(
        Error::ConfigParse { path: "/tmp/c/config.json".to_string() }.message(),
        "parse /tmp/c/config.json"
    );
    assert_eq!(
        Error::MissingIdentityFile.message(),
        "--identity-file is required for --auth cert"
    );
}

#[test]
fn io_error_messages_name_action_and_path() {
    let at = |action| Error::ConfigIo { action, path: "/x/y".to_string() }.message();
    assert_eq!(at(IoAction::Create), "create /x/y");
    assert_eq!(at(IoAction::Read), "read /x/y");
    assert_eq!(at(IoAction::Write), "write /x/y");
}
