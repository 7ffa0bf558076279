use bitwarden_credential::dispatch::{
    ActionKind, BitwardenCredential, ListOutcome, RegistryRef, Response, Step, VaultOutcome,
};
use bitwarden_credential::error::CredentialError;
use bitwarden_credential::model::{LoginRecord, UriMatch, VaultItem};
use bitwarden_credential::vault::CommandRequest;

const URL: &str = "https://example.com/index";

/// An in-memory stand-in for the vault tool: it answers the machine's
/// invocations and records each argument list.
struct FakeVault {
    items: Vec<VaultItem>,
    next_id: u32,
}

fn item_from_payload(payload: &str, id: String) -> VaultItem {
    let v: serde_json::Value = serde_json::from_str(payload).expect("payload must be JSON");
    let login = v.get("login").unwrap();
    let uris = login
        .get("uris")
        .unwrap()
        .as_array()
        .unwrap()
        .iter()
        .map(|u| UriMatch {
            match_rule: u.get("match").unwrap().as_u64().map(|n| n as u32),
            uri: u.get("uri").unwrap().as_str().unwrap().to_string(),
        })
        .collect();
    VaultItem {
        id,
        kind: v.get("type").unwrap().as_u64().unwrap() as u32,
        name: v.get("name").unwrap().as_str().unwrap().to_string(),
        login: LoginRecord {
            username: login
                .get("username")
                .unwrap()
                .as_str()
                .map(|s| s.to_string()),
            password: login.get("password").unwrap().as_str().unwrap().to_string(),
            uris,
        },
    }
}

impl FakeVault {
    fn new() -> FakeVault {
        FakeVault { items: Vec::new(), next_id: 0 }
    }

    fn tail<'a>(args: &'a [String]) -> &'a [String] {
        // strip the fixed flags and the session argument
        let mut rest = args;
        while let Some(first) = rest.first() {
            match first.as_str() {
                "--nointeraction" | "--cleanexit" => rest = &rest[1..],
                "--session" => rest = &rest[2..],
                _ => break,
            }
        }
        rest
    }

    fn run(&mut self, cmd: &CommandRequest) -> VaultOutcome {
        if cmd.args.first().map(|s| s.as_str()) == Some("login") {
            return VaultOutcome::Output("sess-token\nleftover".to_string());
        }
        let tail = Self::tail(&cmd.args);
        match tail.first().map(|s| s.as_str()) {
            Some("sync") => VaultOutcome::Output(String::new()),
            Some("encode") => {
                let payload = cmd.stdin.clone().expect("encode reads stdin");
                VaultOutcome::Output(format!("ENC{}", payload))
            }
            Some("create") => {
                let encoded = &tail[2];
                assert!(encoded.starts_with("ENC"), "create must take the encoded payload");
                let id = format!("id-{}", self.next_id);
                self.next_id += 1;
                self.items.push(item_from_payload(&encoded[3..], id));
                VaultOutcome::Output(String::new())
            }
            Some("edit") => {
                let id = tail[2].clone();
                let encoded = &tail[3];
                assert!(encoded.starts_with("ENC"), "edit must take the encoded payload");
                let replacement = item_from_payload(&encoded[3..], id.clone());
                let slot = self
                    .items
                    .iter_mut()
                    .find(|it| it.id == id)
                    .expect("edit names an existing item");
                *slot = replacement;
                VaultOutcome::Output(String::new())
            }
            Some("delete") => {
                let id = tail[2].clone();
                self.items.retain(|it| it.id != id);
                VaultOutcome::Output(String::new())
            }
            other => panic!("unexpected vault invocation {:?}", other),
        }
    }
}

fn drive(
    state: &mut FakeVault,
    args: &[&str],
    name: Option<&str>,
    action: ActionKind,
    env_session: bool,
    token: Option<&str>,
    log: &mut Vec<Vec<String>>,
) -> Result<Response, CredentialError> {
    let registry = RegistryRef {
        index_url: URL.to_string(),
        name: name.map(|s| s.to_string()),
    };
    let (mut m, mut step) = BitwardenCredential::begin(args, registry, action, env_session)?;
    loop {
        match step {
            Step::Run(cmd) => {
                log.push(cmd.args.clone());
                if m.expects_list_outcome() {
                    let listed: Vec<VaultItem> =
                        state.items.iter().map(|it| it.duplicate()).collect();
                    let next = m.step_list(ListOutcome::Items(listed));
                    m = next.0;
                    step = next.1;
                } else {
                    assert!(m.expects_vault_outcome());
                    let outcome = state.run(&cmd);
                    let next = m.step_vault(outcome);
                    m = next.0;
                    step = next.1;
                }
            }
            Step::NeedToken { existing: _ } => {
                assert!(m.expects_token());
                let next = m.step_token(token.expect("the client supplies a token").to_string());
                m = next.0;
                step = next.1;
            }
            Step::Done(resp) => return Ok(resp),
            Step::Fail(e) => return Err(e),
        }
    }
}

fn subcommands(log: &[Vec<String>]) -> Vec<String> {
    log.iter()
        .map(|args| {
            if args.first().map(|s| s.as_str()) == Some("login") {
                "login".to_string()
            } else {
                FakeVault::tail(args).first().unwrap().clone()
            }
        })
        .collect()
}

#[test]
fn fetch_store_fetch_modify_remove_scenario() {
    let mut vault = FakeVault::new();
    let mut log = Vec::new();

    // fetch on a registry with no vault entry
    let r = drive(&mut vault, &[], None, ActionKind::Fetch, true, None, &mut log);
    assert!(matches!(r, Err(CredentialError::NotFound)));

    // store creates an entry named after the registry host
    let r = drive(&mut vault, &[], None, ActionKind::Store, true, Some("tok-123"), &mut log);
    assert!(matches!(r, Ok(Response::Store)));
    assert_eq!(vault.items.len(), 1);
    assert_eq!(vault.items[0].name, "Cargo registry token for example.com");
    assert_eq!(vault.items[0].login.password, "tok-123");
    assert_eq!(vault.items[0].login.uris.len(), 1);
    assert_eq!(vault.items[0].login.uris[0].uri, URL);
    assert_eq!(vault.items[0].login.uris[0].match_rule, Some(1));
    let created_id = vault.items[0].id.clone();

    // fetch returns the stored token with the session cache hint
    match drive(&mut vault, &[], None, ActionKind::Fetch, true, None, &mut log) {
        Ok(Response::Fetch { token, cache_session, operation_independent }) => {
            assert_eq!(token, "tok-123");
            assert!(cache_session);
            assert!(operation_independent);
        }
        _ => panic!("expected the stored token"),
    }

    // a second store modifies in place: entry count and id unchanged
    let r = drive(&mut vault, &[], None, ActionKind::Store, true, Some("tok-456"), &mut log);
    assert!(matches!(r, Ok(Response::Store)));
    assert_eq!(vault.items.len(), 1);
    assert_eq!(vault.items[0].id, created_id);
    assert_eq!(vault.items[0].login.password, "tok-456");

    // remove deletes the entry; a fetch afterwards finds nothing
    let r = drive(&mut vault, &[], None, ActionKind::Remove, true, None, &mut log);
    assert!(matches!(r, Ok(Response::Remove)));
    assert!(vault.items.is_empty());
    let r = drive(&mut vault, &[], None, ActionKind::Fetch, true, None, &mut log);
    assert!(matches!(r, Err(CredentialError::NotFound)));
}

#[test]
fn auto_sync_runs_before_listing_and_after_mutations() {
    let mut vault = FakeVault::new();

    let mut log = Vec::new();
    let r = drive(&mut vault, &["--sync"], None, ActionKind::Store, true, Some("t"), &mut log);
    assert!(matches!(r, Ok(Response::Store)));
    assert_eq!(subcommands(&log), vec!["sync", "list", "encode", "create", "sync"]);

    let mut log = Vec::new();
    let r = drive(&mut vault, &["--sync"], None, ActionKind::Store, true, Some("u"), &mut log);
    assert!(matches!(r, Ok(Response::Store)));
    assert_eq!(subcommands(&log), vec!["sync", "list", "encode", "edit", "sync"]);

    let mut log = Vec::new();
    let r = drive(&mut vault, &["--sync"], None, ActionKind::Remove, true, None, &mut log);
    assert!(matches!(r, Ok(Response::Remove)));
    assert_eq!(subcommands(&log), vec!["sync", "list", "delete", "sync"]);
}

#[test]
fn without_auto_sync_no_sync_runs() {
    let mut vault = FakeVault::new();
    let mut log = Vec::new();
    drive(&mut vault, &[], None, ActionKind::Store, true, Some("t"), &mut log).unwrap();
    assert_eq!(subcommands(&log), vec!["list", "encode", "create"]);
}

#[test]
fn env_session_skips_the_unlock() {
    let mut vault = FakeVault::new();
    let mut log = Vec::new();
    drive(&mut vault, &[], None, ActionKind::Store, true, Some("t"), &mut log).unwrap();
    assert!(log.iter().all(|args| args.first().map(|s| s.as_str()) != Some("login")));
}

#[test]
fn without_env_session_the_unlock_runs_first_and_scopes_the_session() {
    let mut vault = FakeVault::new();
    let mut log = Vec::new();
    drive(&mut vault, &[], None, ActionKind::Store, false, Some("t"), &mut log).unwrap();
    assert_eq!(log[0], vec!["login", "--raw"]);
    // the first line of the unlock output is the session for every later call
    for args in &log[1..] {
        assert_eq!(args[0], "--nointeraction");
        assert_eq!(args[1], "--cleanexit");
        assert_eq!(args[2], "--session");
        assert_eq!(args[3], "sess-token");
    }
}

#[test]
fn unlock_is_scoped_to_the_account_option() {
    let mut vault = FakeVault::new();
    let mut log = Vec::new();
    drive(
        &mut vault,
        &["--email", "user@example.com"],
        None,
        ActionKind::Fetch,
        false,
        None,
        &mut log,
    )
    .ok();
    assert_eq!(log[0], vec!["login", "--raw", "user@example.com"]);
}

#[test]
fn two_matching_entries_fail_the_store_without_any_mutation() {
    let mut vault = FakeVault::new();
    for id in ["a", "b"] {
        vault.items.push(VaultItem {
            id: id.to_string(),
            kind: 1,
            name: format!("dup {}", id),
            login: LoginRecord {
                username: None,
                password: "p".to_string(),
                uris: vec![UriMatch { match_rule: Some(1), uri: URL.to_string() }],
            },
        });
    }
    let mut log = Vec::new();
    let r = drive(&mut vault, &[], None, ActionKind::Store, true, Some("t"), &mut log);
    match r {
        Err(CredentialError::AmbiguousEntry(u)) => assert_eq!(u, URL),
        _ => panic!("expected an ambiguous-entry error"),
    }
    assert_eq!(vault.items.len(), 2);
    assert_eq!(vault.items[0].login.password, "p");
    assert!(subcommands(&log)
        .iter()
        .all(|s| s != "create" && s != "edit" && s != "delete"));
}

#[test]
fn a_named_registry_names_the_modified_entry() {
    let mut vault = FakeVault::new();
    let mut log = Vec::new();
    drive(&mut vault, &[], Some("crates-io"), ActionKind::Store, true, Some("t"), &mut log)
        .unwrap();
    assert_eq!(vault.items[0].name, "Cargo registry token for crates-io");
    drive(&mut vault, &[], Some("renamed"), ActionKind::Store, true, Some("u"), &mut log).unwrap();
    assert_eq!(vault.items.len(), 1);
    assert_eq!(vault.items[0].name, "renamed");
    assert_eq!(vault.items[0].login.password, "u");
}

#[test]
fn unsupported_actions_are_refused() {
    let mut vault = FakeVault::new();
    let mut log = Vec::new();
    let r = drive(&mut vault, &[], None, ActionKind::Other, true, None, &mut log);
    assert!(matches!(r, Err(CredentialError::UnsupportedOperation)));
    assert!(log.is_empty());
}

#[test]
fn undecodable_list_output_is_a_malformed_response() {
    let registry = RegistryRef { index_url: URL.to_string(), name: None };
    let (m, step) = BitwardenCredential::begin(&[], registry, ActionKind::Fetch, true).unwrap();
    assert!(matches!(step, Step::Run(_)));
    let (_, step) = m.step_list(ListOutcome::Undecodable("bad json".to_string()));
    match step {
        Step::Fail(CredentialError::MalformedResponse(t)) => assert_eq!(t, "bad json"),
        _ => panic!("expected a malformed-response failure"),
    }
}

#[test]
fn a_failing_unlock_is_a_signin_error() {
    let registry = RegistryRef { index_url: URL.to_string(), name: None };
    let (m, step) = BitwardenCredential::begin(&[], registry, ActionKind::Fetch, false).unwrap();
    assert!(matches!(step, Step::Run(_)));
    let (_, step) = m.step_vault(VaultOutcome::ExitFailure("exit status: 1".to_string()));
    match step {
        Step::Fail(CredentialError::SigninFailed(t)) => assert_eq!(t, "exit status: 1"),
        _ => panic!("expected a signin failure"),
    }
}

#[test]
fn spawn_and_io_failures_keep_their_diagnostics() {
    let registry = RegistryRef { index_url: URL.to_string(), name: None };
    let (m, _) = BitwardenCredential::begin(&[], registry, ActionKind::Fetch, false).unwrap();
    let (_, step) = m.step_vault(VaultOutcome::SpawnFailure("no such file".to_string()));
    assert!(matches!(step, Step::Fail(CredentialError::SpawnFailed(_))));

    let registry = RegistryRef { index_url: URL.to_string(), name: None };
    let (m, _) = BitwardenCredential::begin(&[], registry, ActionKind::Fetch, false).unwrap();
    let (_, step) = m.step_vault(VaultOutcome::IoFailure("broken pipe".to_string()));
    assert!(matches!(step, Step::Fail(CredentialError::IoFailed(_))));
}
