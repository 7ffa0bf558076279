use bitwarden_credential::error::CredentialError;
use bitwarden_credential::text::{first_line, str_eq};
use bitwarden_credential::vault::{choose_tool, BitwardenVault};

#[test]
fn options_default_to_no_email_and_no_sync() {
    let v = BitwardenVault::new(&[]).unwrap();
    assert!(v.email_address.is_none());
    assert!(!v.auto_sync);
}

#[test]
fn options_take_email_and_sync() {
    let v = BitwardenVault::new(&["--email", "user@example.com", "--sync"]).unwrap();
    assert_eq!(v.email_address.as_deref(), Some("user@example.com"));
    assert!(v.auto_sync);
}

#[test]
fn email_without_value_is_refused() {
    match BitwardenVault::new(&["--email"]) {
        Err(CredentialError::MissingOptionValue(s)) => assert_eq!(s, "--email"),
        other => panic!("expected a missing-value error, got {:?}", other.is_ok()),
    }
}

#[test]
fn unknown_option_is_refused() {
    match BitwardenVault::new(&["--frob"]) {
        Err(CredentialError::UnknownOption(s)) => assert_eq!(s, "--frob"),
        _ => panic!("expected an unknown-option error"),
    }
}

#[test]
fn positional_argument_is_refused() {
    assert!(matches!(
        BitwardenVault::new(&["--sync", "extra"]),
        Err(CredentialError::TooManyArguments)
    ));
}

#[test]
fn session_scoped_commands_carry_fixed_flags_and_session() {
    let v = BitwardenVault { email_address: None, auto_sync: false };
    let with = v.make_cmd(&Some("sess-tok".to_string()), &["sync"]);
    assert_eq!(
        with.args,
        vec!["--nointeraction", "--cleanexit", "--session", "sess-tok", "sync"]
    );
    let without = v.make_cmd(&None, &["sync"]);
    assert_eq!(without.args, vec!["--nointeraction", "--cleanexit", "sync"]);
}

#[test]
fn signin_command_scopes_to_the_account() {
    let v = BitwardenVault {
        email_address: Some("user@example.com".to_string()),
        auto_sync: false,
    };
    assert_eq!(v.signin_command().args, vec!["login", "--raw", "user@example.com"]);
    let bare = BitwardenVault { email_address: None, auto_sync: false };
    assert_eq!(bare.signin_command().args, vec!["login", "--raw"]);
}

#[test]
fn sync_is_a_no_op_unless_enabled() {
    let off = BitwardenVault { email_address: None, auto_sync: false };
    assert!(off.sync(&None).is_none());
    let on = BitwardenVault { email_address: None, auto_sync: true };
    let cmd = on.sync(&None).unwrap();
    assert_eq!(cmd.args, vec!["--nointeraction", "--cleanexit", "sync"]);
}

#[test]
fn search_syncs_strictly_before_listing() {
    let on = BitwardenVault { email_address: None, auto_sync: true };
    let cmds = on.search_commands(&None, "https://example.com/index");
    assert_eq!(cmds.len(), 2);
    assert_eq!(cmds[0].args.last().unwrap().as_str(), "sync");
    assert_eq!(
        cmds[1].args,
        vec!["--nointeraction", "--cleanexit", "list", "items", "--url", "https://example.com/index"]
    );
    let off = BitwardenVault { email_address: None, auto_sync: false };
    let cmds = off.search_commands(&None, "https://example.com/index");
    assert_eq!(cmds.len(), 1);
    assert_eq!(cmds[0].args[2], "list");
}

#[test]
fn delete_syncs_strictly_after_deleting() {
    let on = BitwardenVault { email_address: None, auto_sync: true };
    let cmds = on.delete(&Some("s".to_string()), "item-1");
    assert_eq!(cmds.len(), 2);
    assert_eq!(
        cmds[0].args,
        vec!["--nointeraction", "--cleanexit", "--session", "s", "delete", "item", "item-1"]
    );
    assert_eq!(cmds[1].args.last().unwrap().as_str(), "sync");
    let off = BitwardenVault { email_address: None, auto_sync: false };
    assert_eq!(off.delete(&None, "item-1").len(), 1);
}

#[test]
fn tool_choice_prefers_the_canonical_name() {
    assert_eq!(choose_tool("bw", true, Some("bw.cmd"), true).unwrap(), "bw");
    assert_eq!(choose_tool("bw", false, Some("bw.cmd"), true).unwrap(), "bw.cmd");
    assert!(matches!(
        choose_tool("bw", false, Some("bw.cmd"), false),
        Err(CredentialError::ToolNotFound)
    ));
    assert!(matches!(
        choose_tool("bw", false, None, false),
        Err(CredentialError::ToolNotFound)
    ));
}

#[test]
fn error_messages_name_the_diagnostic() {
    assert_eq!(
        CredentialError::CommandExit("exit status: 1".to_string()).message(),
        "`bw` command exit error: exit status: 1"
    );
    assert_eq!(
        CredentialError::AmbiguousEntry("https://example.com/index".to_string()).message(),
        "too many Bitwarden logins match registry `https://example.com/index`, \
         consider deleting the excess entries"
    );
    assert_eq!(
        CredentialError::MissingOptionValue("--email".to_string()).message(),
        "--email needs an arg"
    );
}

#[test]
fn first_line_cuts_at_the_newline() {
    assert_eq!(first_line("token\nrest\n"), "token");
    assert_eq!(first_line("token"), "token");
    assert_eq!(first_line(""), "");
    assert_eq!(first_line("\nabc"), "");
}

#[test]
fn str_eq_compares_characters() {
    assert!(str_eq("abc", "abc"));
    assert!(!str_eq("abc", "abd"));
    assert!(!str_eq("abc", "ab"));
    assert!(str_eq("", ""));
}
