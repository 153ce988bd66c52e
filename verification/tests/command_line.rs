use sshr::command::{
    assemble_args, build_args, connect, connect_result, exit_code, expand_tilde, export_command,
    export_command_with_home, identity_path, needs_home, plan_connect, starts_with_home, target_of,
    Launch, CLIENT, CLIENT_FALLBACK, HELPER, IDENTITY_FLAG, PASSWORD_FLAG, PORT_FLAG,
};
use sshr::error::Error;
use sshr::model::{Auth, HostEntry};
use sshr::text::{join_spaces, port_text};

fn entry(port: u16, auth: Auth) -> HostEntry {
    HostEntry { name: "x".to_string(), user: "u".to_string(), host: "h".to_string(), port, auth }
}

fn cert(path: &str) -> Auth {
    Auth::Cert { identity_file: path.to_string() }
}

fn pw(password: Option<&str>) -> Auth {
    Auth::Password { password: password.map(|p| p.to_string()) }
}

fn strings(words: &[&str]) -> Vec<String> {
    words.iter().map(|w| w.to_string()).collect()
}

fn joined(base: &str, child: &str) -> String {
    std::path::Path::new(base).join(child).to_string_lossy().into_owned()
}

fn machine_home() -> Option<String> {
    directories::BaseDirs::new().map(|b| b.home_dir().to_string_lossy().into_owned())
}

#[test]
fn export_cert_default_port_expands_tilde() {
    let h = entry(22, cert("~/.ssh/id"));
    let line = export_command_with_home(&h, &[], Some("/home/USER"));
    assert_eq!(line, format!("ssh -i {} u@h", joined("/home/USER", ".ssh/id")));
    if std::path::MAIN_SEPARATOR == '/' {
        assert_eq!(line, "ssh -i /home/USER/.ssh/id u@h");
    }
}

#[test]
fn export_cert_uses_the_home_of_this_machine() {
    let h = entry(22, cert("~/.ssh/id"));
    let expected = match machine_home() {
        Some(home) => format!("ssh -i {} u@h", joined(&home, ".ssh/id")),
        None => "ssh -i ~/.ssh/id u@h".to_string(),
    };
    assert_eq!(export_command(&h, &[]), expected);
}

#[test]
fn export_password_port_2222_has_no_identity_flag() {
    let h = entry(2222, pw(None));
    assert_eq!(export_command(&h, &[]), "ssh -p 2222 u@h");
    let h = entry(2222, pw(Some("secret")));
    assert_eq!(export_command(&h, &[]), "ssh -p 2222 u@h");
    assert_eq!(export_command_with_home(&h, &[], Some("/home/USER")), "ssh -p 2222 u@h");
}

#[test]
fn export_default_port_password_is_client_and_target() {
    assert_eq!(export_command(&entry(22, pw(None)), &[]), "ssh u@h");
}

#[test]
fn export_without_home_keeps_the_identity_as_written() {
    let h = entry(22, cert("~/.ssh/id"));
    assert_eq!(export_command_with_home(&h, &[], None), "ssh -i ~/.ssh/id u@h");
}

#[test]
fn export_places_extra_arguments_before_the_target() {
    let h = entry(2200, cert("/keys/id"));
    let extra = strings(&["-v", "-o", "StrictHostKeyChecking=no"]);
    assert_eq!(
        export_command(&h, &extra),
        "ssh -p 2200 -i /keys/id -v -o StrictHostKeyChecking=no u@h"
    );
}

#[test]
fn export_passes_extra_arguments_unchanged() {
    let h = entry(22, pw(None));
    let extra = strings(&["", "a b", "~/x"]);
    assert_eq!(export_command(&h, &extra), "ssh  a b ~/x u@h");
}

#[test]
fn build_args_follows_the_assembly_order() {
    let h = entry(2222, cert("~/.ssh/id"));
    let args = build_args(&h, &strings(&["-A"]), Some("/home/USER"));
    assert_eq!(
        args,
        vec![
            "-p".to_string(),
            "2222".to_string(),
            "-i".to_string(),
            joined("/home/USER", ".ssh/id"),
            "-A".to_string(),
            "u@h".to_string(),
        ]
    );
    assert_eq!(build_args(&entry(22, pw(None)), &[], None), strings(&["u@h"]));
}

#[test]
fn assemble_args_takes_the_identity_as_given() {
    let h = entry(22, cert("~/.ssh/id"));
    assert_eq!(
        assemble_args(&h, Some("/elsewhere/key".to_string()), &strings(&["-v"])),
        strings(&["-i", "/elsewhere/key", "-v", "u@h"])
    );
    assert_eq!(assemble_args(&h, None, &[]), strings(&["u@h"]));
    assert_eq!(
        assemble_args(&entry(8022, pw(None)), None, &[]),
        strings(&["-p", "8022", "u@h"])
    );
}

#[test]
fn expand_tilde_joins_home_and_rest() {
    assert_eq!(expand_tilde("~/.ssh/id", Some("/home/u")), joined("/home/u", ".ssh/id"));
    assert_eq!(expand_tilde("~/", Some("/home/u")), joined("/home/u", ""));
    assert_ne!(expand_tilde("~/.ssh/id", Some("/home/u")), "/home/u");
    assert_ne!(expand_tilde("~/.ssh/id", Some("/home/u")), ".ssh/id");
}

#[test]
fn expand_tilde_leaves_other_paths_alone() {
    assert_eq!(expand_tilde("/etc/key", Some("/home/u")), "/etc/key");
    assert_eq!(expand_tilde("~", Some("/home/u")), "~");
    assert_eq!(expand_tilde("~user/key", Some("/home/u")), "~user/key");
    assert_eq!(expand_tilde("a/~/b", Some("/home/u")), "a/~/b");
    assert_eq!(expand_tilde("", Some("/home/u")), "");
}

#[test]
fn expand_tilde_without_home_is_not_an_error() {
    assert_eq!(expand_tilde("~/.ssh/id", None), "~/.ssh/id");
    assert_eq!(expand_tilde("/etc/key", None), "/etc/key");
}

#[test]
fn expand_tilde_handles_text_beyond_ascii() {
    assert_eq!(expand_tilde("~/schlüssel/é", Some("/home/zoë")), joined("/home/zoë", "schlüssel/é"));
    assert_eq!(expand_tilde("é~/x", Some("/home/u")), "é~/x");
}

#[test]
fn home_prefix_is_tilde_then_slash() {
    assert!(starts_with_home("~/"));
    assert!(starts_with_home("~/a"));
    assert!(!starts_with_home("~"));
    assert!(!starts_with_home(""));
    assert!(!starts_with_home("/~/"));
    assert!(!starts_with_home("~a/"));
    assert!(needs_home(&cert("~/k")));
    assert!(!needs_home(&cert("/k")));
    assert!(!needs_home(&pw(Some("~/k"))));
}

#[test]
fn identity_path_is_only_for_cert() {
    assert_eq!(identity_path(&cert("/k"), None), Some("/k".to_string()));
    assert_eq!(identity_path(&cert("~/k"), Some("/h")), Some(joined("/h", "k")));
    assert_eq!(identity_path(&pw(None), Some("/h")), None);
    assert_eq!(identity_path(&pw(Some("p")), None), None);
}

#[test]
fn target_is_user_at_host() {
    assert_eq!(target_of(&entry(22, pw(None))), "u@h");
    let h = HostEntry {
        name: "n".to_string(),
        user: String::new(),
        host: "example.org".to_string(),
        port: 22,
        auth: pw(None),
    };
    assert_eq!(target_of(&h), "@example.org");
}

#[test]
fn port_text_is_the_decimal_numeral() {
    assert_eq!(port_text(0), "0");
    assert_eq!(port_text(9), "9");
    assert_eq!(port_text(10), "10");
    assert_eq!(port_text(22), "22");
    assert_eq!(port_text(2222), "2222");
    assert_eq!(port_text(10000), "10000");
    assert_eq!(port_text(65535), "65535");
    for port in [1u16, 99, 100, 101, 1024, 8080, 40404, 65534] {
        assert_eq!(port_text(port), port.to_string());
    }
}

#[test]
fn join_spaces_puts_one_space_between_words() {
    assert_eq!(join_spaces(&vec![]), "");
    assert_eq!(join_spaces(&strings(&["a"])), "a");
    assert_eq!(join_spaces(&strings(&["a", "b", "c"])), "a b c");
    assert_eq!(join_spaces(&strings(&["", ""])), " ");
}

#[test]
fn plan_without_client_fails_with_client_not_found() {
    let h = entry(22, pw(Some("secret")));
    assert_eq!(plan_connect(&h, &[], None, None, None), Err(Error::ClientNotFound));
    assert_eq!(
        plan_connect(&h, &[], Some("/home/u"), None, Some("/usr/bin/sshpass".to_string())),
        Err(Error::ClientNotFound)
    );
}

#[test]
fn plan_with_password_and_helper_starts_the_helper() {
    let h = entry(2222, pw(Some("secret")));
    let plan = plan_connect(
        &h,
        &strings(&["-v"]),
        None,
        Some("/usr/bin/ssh".to_string()),
        Some("/usr/bin/sshpass".to_string()),
    );
    assert_eq!(
        plan,
        Ok(Launch {
            program: "/usr/bin/sshpass".to_string(),
            args: strings(&["-p", "secret", "/usr/bin/ssh", "-p", "2222", "-v", "u@h"]),
            via_helper: true,
        })
    );
}

#[test]
fn plan_with_password_but_no_helper_starts_the_client() {
    let h = entry(2222, pw(Some("secret")));
    let plan = plan_connect(&h, &[], None, Some("/usr/bin/ssh".to_string()), None);
    assert_eq!(
        plan,
        Ok(Launch {
            program: "/usr/bin/ssh".to_string(),
            args: strings(&["-p", "2222", "u@h"]),
            via_helper: false,
        })
    );
}

#[test]
fn plan_without_stored_password_ignores_the_helper() {
    let helper = Some("/usr/bin/sshpass".to_string());
    let plan = plan_connect(&entry(22, pw(None)), &[], None, Some("ssh".to_string()), helper.clone());
    assert_eq!(
        plan,
        Ok(Launch { program: "ssh".to_string(), args: strings(&["u@h"]), via_helper: false })
    );
    let plan = plan_connect(
        &entry(22, cert("~/.ssh/id")),
        &strings(&["ls"]),
        Some("/home/u"),
        Some("ssh".to_string()),
        helper,
    );
    assert_eq!(
        plan,
        Ok(Launch {
            program: "ssh".to_string(),
            args: vec!["-i".to_string(), joined("/home/u", ".ssh/id"), "ls".to_string(), "u@h".to_string()],
            via_helper: false,
        })
    );
}

#[test]
fn names_of_programs_and_flags() {
    assert_eq!(CLIENT, "ssh");
    assert_eq!(CLIENT_FALLBACK, "ssh.exe");
    assert_eq!(HELPER, "sshpass");
    assert_eq!(PORT_FLAG, "-p");
    assert_eq!(IDENTITY_FLAG, "-i");
    assert_eq!(PASSWORD_FLAG, "-p");
}

fn on_search_path(name: &str) -> Option<String> {
    which::which(name).ok().map(|p| p.to_string_lossy().into_owned())
}

fn machine_client() -> Option<String> {
    on_search_path("ssh").or_else(|| on_search_path("ssh.exe"))
}

fn machine_helper() -> Option<String> {
    on_search_path("sshpass")
}

#[test]
fn connect_plans_for_this_machine() {
    let h = entry(2222, pw(None));
    let extra = strings(&["-v"]);
    let expected = match machine_client() {
        Some(client) => Ok(Launch {
            program: client,
            args: strings(&["-p", "2222", "-v", "u@h"]),
            via_helper: false,
        }),
        None => Err(Error::ClientNotFound),
    };
    assert_eq!(connect(&h, &extra), expected);
}

#[test]
fn connect_agrees_with_the_plan_for_what_is_installed() {
    let entries = [
        entry(22, pw(Some("secret"))),
        entry(2200, cert("~/.ssh/id")),
        entry(22, cert("/keys/id")),
    ];
    let home = machine_home();
    for h in entries {
        let expected = plan_connect(
            &h,
            &[],
            home.as_deref(),
            machine_client(),
            machine_helper(),
        );
        assert_eq!(connect(&h, &[]), expected);
    }
}

#[test]
fn exit_code_is_the_status_or_minus_one() {
    assert_eq!(exit_code(Some(0)), 0);
    assert_eq!(exit_code(Some(255)), 255);
    assert_eq!(exit_code(Some(-7)), -7);
    assert_eq!(exit_code(None), -1);
}

#[test]
fn connect_result_reports_spawn_failures() {
    let direct = Launch { program: "ssh".to_string(), args: vec![], via_helper: false };
    let helped = Launch { program: "sshpass".to_string(), args: vec![], via_helper: true };
    assert_eq!(connect_result(&direct, Some(Some(3))), Ok(3));
    assert_eq!(connect_result(&helped, Some(None)), Ok(-1));
    assert_eq!(connect_result(&direct, None), Err(Error::Spawn { via_helper: false }));
    assert_eq!(connect_result(&helped, None), Err(Error::Spawn { via_helper: true }));
}
