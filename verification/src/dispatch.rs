//! The session and command orchestration engine.
//!
//! One credential action is one run of [`Dispatcher`]: a state machine that
//! decides, step by step, which vault invocation to run next, and what the
//! action's outcome is. The unverified driver only spawns the requested
//! process and hands its outcome back; every decision — unlock or bypass,
//! sync ordering, entry selection, create against edit, error mapping — is
//! made and specified here.

use vstd::prelude::*;

use crate::builders::{build_create_request, build_modified, create_request_view, modified_view};
use crate::error::CredentialError;
use crate::json::{encode_create_request, encode_item, json_create_request, json_item};
use crate::model::{opt_view, VaultItem};
use crate::select::{matching, select_item, views_of};
use crate::vault::{
    create_item_request, delete_request, edit_item_request, encode_request, list_request,
    login_request, sync_request, BitwardenVault, CommandRequest,
};

verus! {

/// The registry a credential action is about: its index URL and, when the
/// client supplied one, its configured name.
pub struct RegistryRef {
    pub index_url: String,
    pub name: Option<String>,
}

/// The credential action requested by the registry client.
pub enum ActionKind {
    /// Return the stored token.
    Fetch,
    /// Store a new token, creating or modifying the vault entry.
    Store,
    /// Delete the vault entry.
    Remove,
    /// Anything this provider does not implement.
    Other,
}

/// What running one vault invocation came to, as the driver observed it.
pub enum VaultOutcome {
    /// Exit status zero; the captured standard output.
    Output(String),
    /// A non-zero exit status, rendered as text.
    ExitFailure(String),
    /// The process could not be spawned.
    SpawnFailure(String),
    /// Writing to or reading from the process failed.
    IoFailure(String),
}

/// What running the list invocation came to. Its successful output is a JSON
/// item sequence that the driver decodes into plain values before handing it
/// back.
pub enum ListOutcome {
    /// Exit status zero and the output decoded as a sequence of items.
    Items(Vec<VaultItem>),
    /// Exit status zero but the output did not decode; the diagnostic.
    Undecodable(String),
    /// A non-zero exit status, rendered as text.
    ExitFailure(String),
    /// The process could not be spawned.
    SpawnFailure(String),
    /// Writing to or reading from the process failed.
    IoFailure(String),
}

/// A finished action's successful result.
pub enum Response {
    /// The stored token, to be cached for the client's session; the result
    /// does not depend on the requested operation.
    Fetch { token: String, cache_session: bool, operation_independent: bool },
    Store,
    Remove,
}

/// What the driver must do next.
pub enum Step {
    /// Run this vault invocation and hand back its outcome.
    Run(CommandRequest),
    /// Ask the registry client for the new token material; `existing` says
    /// whether an entry for this registry already exists.
    NeedToken { existing: bool },
    /// The action succeeded.
    Done(Response),
    /// The action failed.
    Fail(CredentialError),
}

/// Where in one action's flow the machine stands.
pub enum Phase {
    /// The unlock subcommand is running.
    AwaitSignin,
    /// The pre-listing synchronization is running.
    AwaitPreSync,
    /// The URL-filtered listing is running.
    AwaitList,
    /// The client is being asked for token material; `found` is the matched
    /// entry when one exists.
    AwaitToken { found: Option<VaultItem> },
    /// The encode transform is running; `edit_id` names the entry to edit,
    /// or is nothing when a new entry is created.
    AwaitEncode { edit_id: Option<String> },
    /// The mutating subcommand (create, edit or delete) is running; `removal`
    /// says whether this action is a removal.
    AwaitMutate { removal: bool },
    /// The post-mutation synchronization is running.
    AwaitPostSync { removal: bool },
    /// The action ended.
    Finished,
}

/// One credential action in flight.
pub struct Dispatcher {
    pub vault: BitwardenVault,
    pub registry: RegistryRef,
    pub action: ActionKind,
    pub session: Option<String>,
    pub phase: Phase,
}

impl Dispatcher {
    /// Whether the next event must be a [`VaultOutcome`].
    pub open spec fn awaits_vault(self) -> bool {
        ||| self.phase is AwaitSignin
        ||| self.phase is AwaitPreSync
        ||| self.phase is AwaitEncode
        ||| self.phase is AwaitMutate
        ||| self.phase is AwaitPostSync
    }

    /// Whether the next event must be a [`ListOutcome`].
    pub open spec fn awaits_list(self) -> bool {
        self.phase is AwaitList
    }

    /// Whether the next event must be the token material.
    pub open spec fn awaits_token(self) -> bool {
        self.phase is AwaitToken
    }

    /// Exec query for [`Self::awaits_vault`], for the driver.
    pub fn expects_vault_outcome(&self) -> (r: bool)
        ensures
            r == self.awaits_vault(),
    {
        match self.phase {
            Phase::AwaitSignin => true,
            Phase::AwaitPreSync => true,
            Phase::AwaitEncode { .. } => true,
            Phase::AwaitMutate { .. } => true,
            Phase::AwaitPostSync { .. } => true,
            _ => false,
        }
    }

    /// Exec query for [`Self::awaits_list`], for the driver.
    pub fn expects_list_outcome(&self) -> (r: bool)
        ensures
            r == self.awaits_list(),
    {
        match self.phase {
            Phase::AwaitList => true,
            _ => false,
        }
    }

    /// Exec query for [`Self::awaits_token`], for the driver.
    pub fn expects_token(&self) -> (r: bool)
        ensures
            r == self.awaits_token(),
    {
        match self.phase {
            Phase::AwaitToken { .. } => true,
            _ => false,
        }
    }
}

/// The configuration, registry and action carry unchanged from `d` to the
/// machine `m` a step returned.
pub open spec fn carries(d: Dispatcher, m: Dispatcher) -> bool {
    &&& m.vault == d.vault
    &&& m.registry == d.registry
    &&& m.action == d.action
}

/// The step that opens a search, with `session` established: when auto-sync
/// is enabled, the synchronization runs strictly before the listing; else
/// the listing runs at once.
pub open spec fn search_entry(
    d: Dispatcher,
    session: Option<String>,
    r: (Dispatcher, Step),
) -> bool {
    &&& carries(d, r.0)
    &&& r.0.session == session
    &&& if d.vault.auto_sync {
        &&& r.0.phase is AwaitPreSync
        &&& r.1 matches Step::Run(c) && c@ == sync_request(opt_view(session))
    } else {
        &&& r.0.phase is AwaitList
        &&& r.1 matches Step::Run(c) && c@ == list_request(opt_view(session), d.registry.index_url@)
    }
}

/// A step that ends the action in failure.
pub open spec fn failed(r: (Dispatcher, Step), e: CredentialError) -> bool {
    &&& r.0.phase is Finished
    &&& r.1 == Step::Fail(e)
}

/// The failure step for a subprocess that could not be run at all: spawn and
/// pipe failures map to their own errors whatever the phase.
pub open spec fn process_failed(d: Dispatcher, outcome: VaultOutcome, r: (Dispatcher, Step)) -> bool {
    &&& carries(d, r.0)
    &&& outcome matches VaultOutcome::SpawnFailure(t) ==> failed(r, CredentialError::SpawnFailed(t))
    &&& outcome matches VaultOutcome::IoFailure(t) ==> failed(r, CredentialError::IoFailed(t))
}

impl Dispatcher {
    /// Opens one credential action. An unsupported action fails at once;
    /// otherwise, when the environment already advertises an unlocked
    /// session, the interactive unlock is skipped entirely and the search
    /// begins; else the unlock subcommand runs first.
    pub fn start(
        vault: BitwardenVault,
        registry: RegistryRef,
        action: ActionKind,
        env_session: bool,
    ) -> (r: (Dispatcher, Step))
        ensures
            r.0.vault == vault && r.0.registry == registry && r.0.action == action,
            action is Other ==> failed(r, CredentialError::UnsupportedOperation),
            !(action is Other) && !env_session ==> {
                &&& r.0.phase is AwaitSignin
                &&& r.0.session is None
                &&& r.1 matches Step::Run(c) && c@ == login_request(opt_view(vault.email_address))
            },
            !(action is Other) && env_session ==> search_entry(r.0, None, r),
    {
        if let ActionKind::Other = action {
            let d = Dispatcher {
                vault,
                registry,
                action,
                session: None,
                phase: Phase::Finished,
            };
            return (d, Step::Fail(CredentialError::UnsupportedOperation));
        }
        if env_session {
            let d = Dispatcher {
                vault,
                registry,
                action,
                session: None,
                phase: Phase::AwaitSignin,
            };
            d.begin_search(None)
        } else {
            let cmd = vault.signin_command();
            let d = Dispatcher {
                vault,
                registry,
                action,
                session: None,
                phase: Phase::AwaitSignin,
            };
            (d, Step::Run(cmd))
        }
    }

    /// Enters the search flow once the session question is settled.
    fn begin_search(self, session: Option<String>) -> (r: (Dispatcher, Step))
        ensures
            search_entry(self, session, r),
    {
        let Dispatcher { vault, registry, action, session: _, phase: _ } = self;
        if vault.auto_sync {
            let cmd = match vault.sync(&session) {
                Some(c) => c,
                None => unreached(),
            };
            let d = Dispatcher { vault, registry, action, session, phase: Phase::AwaitPreSync };
            (d, Step::Run(cmd))
        } else {
            let cmd = vault.make_cmd(
                &session,
                &["list", "items", "--url", registry.index_url.as_str()],
            );
            proof {
                assert(cmd@ =~= list_request(opt_view(session), registry.index_url@));
            }
            let d = Dispatcher { vault, registry, action, session, phase: Phase::AwaitList };
            (d, Step::Run(cmd))
        }
    }

    /// Feeds back the outcome of the unlock, synchronization, encode or
    /// mutating invocation the machine last requested, and decides the next
    /// step.
    pub fn step_vault(self, outcome: VaultOutcome) -> (r: (Dispatcher, Step))
        requires
            self.awaits_vault(),
        ensures
            process_failed(self, outcome, r),
            r.1 matches Step::Run(c) ==> c@.args.len() >= 2 && c@.args[0] == "--nointeraction"@,
            r.1 matches Step::Run(c) ==> (r.0.awaits_vault() || r.0.awaits_list()),
            r.1 is NeedToken ==> r.0.awaits_token(),
            r.1 is Done || r.1 is Fail ==> r.0.phase is Finished,
            self.phase is AwaitSignin ==> match outcome {
                VaultOutcome::Output(out) => {
                    &&& r.0.session matches Some(t) && t@ == crate::text::spec_first_line(out@)
                    &&& search_entry(self, r.0.session, r)
                },
                VaultOutcome::ExitFailure(t) => failed(r, CredentialError::SigninFailed(t)),
                _ => true,
            },
            self.phase is AwaitPreSync ==> match outcome {
                VaultOutcome::Output(out) => {
                    &&& carries(self, r.0)
                    &&& r.0.session == self.session
                    &&& r.0.phase is AwaitList
                    &&& r.1 matches Step::Run(c) && c@ == list_request(
                        opt_view(self.session),
                        self.registry.index_url@,
                    )
                },
                VaultOutcome::ExitFailure(t) => failed(r, CredentialError::CommandExit(t)),
                _ => true,
            },
            self.phase matches Phase::AwaitEncode { edit_id } ==> match outcome {
                VaultOutcome::Output(enc) => {
                    &&& carries(self, r.0)
                    &&& r.0.session == self.session
                    &&& r.0.phase matches Phase::AwaitMutate { removal } && removal == false
                    &&& match edit_id {
                        Some(id) => r.1 matches Step::Run(c) && c@ == edit_item_request(
                            opt_view(self.session),
                            id@,
                            enc@,
                        ),
                        None => r.1 matches Step::Run(c) && c@ == create_item_request(
                            opt_view(self.session),
                            enc@,
                        ),
                    }
                },
                VaultOutcome::ExitFailure(t) => failed(r, CredentialError::CommandExit(t)),
                _ => true,
            },
            self.phase matches Phase::AwaitMutate { removal } ==> match outcome {
                VaultOutcome::Output(out) => {
                    &&& carries(self, r.0)
                    &&& if self.vault.auto_sync {
                        &&& r.0.phase matches Phase::AwaitPostSync { removal: rm } && rm == removal
                        &&& r.0.session == self.session
                        &&& r.1 matches Step::Run(c) && c@ == sync_request(opt_view(self.session))
                    } else {
                        &&& r.0.phase is Finished
                        &&& r.1 == Step::Done(
                            if removal {
                                Response::Remove
                            } else {
                                Response::Store
                            },
                        )
                    }
                },
                VaultOutcome::ExitFailure(t) => failed(r, CredentialError::CommandExit(t)),
                _ => true,
            },
            self.phase matches Phase::AwaitPostSync { removal } ==> match outcome {
                VaultOutcome::Output(out) => {
                    &&& carries(self, r.0)
                    &&& r.0.phase is Finished
                    &&& r.1 == Step::Done(
                        if removal {
                            Response::Remove
                        } else {
                            Response::Store
                        },
                    )
                },
                VaultOutcome::ExitFailure(t) => failed(r, CredentialError::CommandExit(t)),
                _ => true,
            },
    {
        let Dispatcher { vault, registry, action, session, phase } = self;
        match outcome {
            VaultOutcome::SpawnFailure(t) => {
                let d = Dispatcher { vault, registry, action, session, phase: Phase::Finished };
                (d, Step::Fail(CredentialError::SpawnFailed(t)))
            },
            VaultOutcome::IoFailure(t) => {
                let d = Dispatcher { vault, registry, action, session, phase: Phase::Finished };
                (d, Step::Fail(CredentialError::IoFailed(t)))
            },
            VaultOutcome::ExitFailure(t) => {
                let e = match phase {
                    Phase::AwaitSignin => CredentialError::SigninFailed(t),
                    _ => CredentialError::CommandExit(t),
                };
                let d = Dispatcher { vault, registry, action, session, phase: Phase::Finished };
                (d, Step::Fail(e))
            },
            VaultOutcome::Output(out) => match phase {
                Phase::AwaitSignin => {
                    let token = crate::text::first_line(out.as_str());
                    let d = Dispatcher {
                        vault,
                        registry,
                        action,
                        session,
                        phase: Phase::AwaitSignin,
                    };
                    d.begin_search(Some(token))
                },
                Phase::AwaitPreSync => {
                    let cmd = vault.make_cmd(
                        &session,
                        &["list", "items", "--url", registry.index_url.as_str()],
                    );
                    proof {
                        assert(cmd@ =~= list_request(opt_view(session), registry.index_url@));
                    }
                    let d = Dispatcher {
                        vault,
                        registry,
                        action,
                        session,
                        phase: Phase::AwaitList,
                    };
                    (d, Step::Run(cmd))
                },
                Phase::AwaitEncode { edit_id } => {
                    let cmd = match &edit_id {
                        Some(id) => vault.edit_item_command(&session, id.as_str(), out.as_str()),
                        None => vault.create_item_command(&session, out.as_str()),
                    };
                    let d = Dispatcher {
                        vault,
                        registry,
                        action,
                        session,
                        phase: Phase::AwaitMutate { removal: false },
                    };
                    (d, Step::Run(cmd))
                },
                Phase::AwaitMutate { removal } => {
                    match vault.sync(&session) {
                        Some(cmd) => {
                            let d = Dispatcher {
                                vault,
                                registry,
                                action,
                                session,
                                phase: Phase::AwaitPostSync { removal },
                            };
                            (d, Step::Run(cmd))
                        },
                        None => {
                            let d = Dispatcher {
                                vault,
                                registry,
                                action,
                                session,
                                phase: Phase::Finished,
                            };
                            let resp = if removal {
                                Response::Remove
                            } else {
                                Response::Store
                            };
                            (d, Step::Done(resp))
                        },
                    }
                },
                Phase::AwaitPostSync { removal } => {
                    let d = Dispatcher {
                        vault,
                        registry,
                        action,
                        session,
                        phase: Phase::Finished,
                    };
                    let resp = if removal {
                        Response::Remove
                    } else {
                        Response::Store
                    };
                    (d, Step::Done(resp))
                },
                _ => unreached(),
            },
        }
    }

    /// Feeds back the outcome of the listing and decides the action's core
    /// question: no exact match, one, or an ambiguity.
    pub fn step_list(self, outcome: ListOutcome) -> (r: (Dispatcher, Step))
        requires
            self.awaits_list(),
        ensures
            r.1 matches Step::Run(c) ==> c@.args.len() >= 2 && c@.args[0] == "--nointeraction"@,
            r.1 matches Step::Run(c) ==> (r.0.awaits_vault() || r.0.awaits_list()),
            r.1 is NeedToken ==> r.0.awaits_token(),
            r.1 is Done || r.1 is Fail ==> r.0.phase is Finished,
            match outcome {
                ListOutcome::Items(items) => {
                    let m = matching(views_of(items@), self.registry.index_url@);
                    &&& carries(self, r.0)
                    &&& m.len() >= 2 ==> {
                        &&& r.0.phase is Finished
                        &&& r.1 matches Step::Fail(e) && e matches CredentialError::AmbiguousEntry(
                            u,
                        ) && u@ == self.registry.index_url@
                    }
                    &&& (m.len() == 0 && (self.action is Fetch || self.action is Remove)) ==> failed(
                        r,
                        CredentialError::NotFound,
                    )
                    &&& (m.len() == 0 && self.action is Store) ==> {
                        &&& r.0.session == self.session
                        &&& r.0.phase matches Phase::AwaitToken { found } && found is None
                        &&& r.1 == Step::NeedToken { existing: false }
                    }
                    &&& (m.len() == 1 && self.action is Fetch) ==> {
                        &&& r.0.phase is Finished
                        &&& r.1 matches Step::Done(resp) && resp matches Response::Fetch {
                            token,
                            cache_session,
                            operation_independent,
                        } && token@ == m[0].login.password && cache_session
                            && operation_independent
                    }
                    &&& (m.len() == 1 && self.action is Store) ==> {
                        &&& r.0.session == self.session
                        &&& r.0.phase matches Phase::AwaitToken { found: fnd } && fnd matches Some(
                            it,
                        ) && it@ == m[0]
                        &&& r.1 == Step::NeedToken { existing: true }
                    }
                    &&& (m.len() == 1 && self.action is Remove) ==> {
                        &&& r.0.session == self.session
                        &&& r.0.phase matches Phase::AwaitMutate { removal } && removal == true
                        &&& r.1 matches Step::Run(c) && c@ == delete_request(
                            opt_view(self.session),
                            m[0].id,
                        )
                    }
                },
                ListOutcome::Undecodable(t) => failed(r, CredentialError::MalformedResponse(t)),
                ListOutcome::ExitFailure(t) => failed(r, CredentialError::CommandExit(t)),
                ListOutcome::SpawnFailure(t) => failed(r, CredentialError::SpawnFailed(t)),
                ListOutcome::IoFailure(t) => failed(r, CredentialError::IoFailed(t)),
            },
    {
        let Dispatcher { vault, registry, action, session, phase: _ } = self;
        match outcome {
            ListOutcome::Undecodable(t) => {
                let d = Dispatcher { vault, registry, action, session, phase: Phase::Finished };
                (d, Step::Fail(CredentialError::MalformedResponse(t)))
            },
            ListOutcome::ExitFailure(t) => {
                let d = Dispatcher { vault, registry, action, session, phase: Phase::Finished };
                (d, Step::Fail(CredentialError::CommandExit(t)))
            },
            ListOutcome::SpawnFailure(t) => {
                let d = Dispatcher { vault, registry, action, session, phase: Phase::Finished };
                (d, Step::Fail(CredentialError::SpawnFailed(t)))
            },
            ListOutcome::IoFailure(t) => {
                let d = Dispatcher { vault, registry, action, session, phase: Phase::Finished };
                (d, Step::Fail(CredentialError::IoFailed(t)))
            },
            ListOutcome::Items(items) => {
                let selected = select_item(&items, registry.index_url.as_str());
                match selected {
                    Err(e) => {
                        let d = Dispatcher {
                            vault,
                            registry,
                            action,
                            session,
                            phase: Phase::Finished,
                        };
                        (d, Step::Fail(e))
                    },
                    Ok(found) => match action {
                        ActionKind::Fetch => match found {
                            Some(item) => {
                                let d = Dispatcher {
                                    vault,
                                    registry,
                                    action,
                                    session,
                                    phase: Phase::Finished,
                                };
                                let resp = Response::Fetch {
                                    token: item.login.password,
                                    cache_session: true,
                                    operation_independent: true,
                                };
                                (d, Step::Done(resp))
                            },
                            None => {
                                let d = Dispatcher {
                                    vault,
                                    registry,
                                    action,
                                    session,
                                    phase: Phase::Finished,
                                };
                                (d, Step::Fail(CredentialError::NotFound))
                            },
                        },
                        ActionKind::Store => {
                            let existing = found.is_some();
                            let d = Dispatcher {
                                vault,
                                registry,
                                action: ActionKind::Store,
                                session,
                                phase: Phase::AwaitToken { found },
                            };
                            (d, Step::NeedToken { existing })
                        },
                        ActionKind::Remove => match found {
                            Some(item) => {
                                let cmd = vault.make_cmd(
                                    &session,
                                    &["delete", "item", item.id.as_str()],
                                );
                                proof {
                                    assert(cmd@ =~= delete_request(opt_view(session), item@.id));
                                }
                                let d = Dispatcher {
                                    vault,
                                    registry,
                                    action: ActionKind::Remove,
                                    session,
                                    phase: Phase::AwaitMutate { removal: true },
                                };
                                (d, Step::Run(cmd))
                            },
                            None => {
                                let d = Dispatcher {
                                    vault,
                                    registry,
                                    action: ActionKind::Remove,
                                    session,
                                    phase: Phase::Finished,
                                };
                                (d, Step::Fail(CredentialError::NotFound))
                            },
                        },
                        // an unsupported action never reaches the listing;
                        // answer it the same way `start` does
                        ActionKind::Other => {
                            let d = Dispatcher {
                                vault,
                                registry,
                                action: ActionKind::Other,
                                session,
                                phase: Phase::Finished,
                            };
                            (d, Step::Fail(CredentialError::UnsupportedOperation))
                        },
                    },
                }
            },
        }
    }

    /// Feeds back the token material the client supplied and builds the
    /// payload: an edit of the matched entry when one exists, keeping its id
    /// and every field but the password (and optionally the name); else a
    /// fresh create request for this registry.
    pub fn step_token(self, token: String) -> (r: (Dispatcher, Step))
        requires
            self.awaits_token(),
        ensures
            carries(self, r.0),
            r.0.session == self.session,
            r.1 matches Step::Run(c) ==> c@.args.len() >= 2 && c@.args[0] == "--nointeraction"@,
            r.1 matches Step::Run(c) ==> r.0.awaits_vault(),
            self.phase matches Phase::AwaitToken { found } ==> match found {
                Some(item) => {
                    &&& r.0.phase matches Phase::AwaitEncode { edit_id } && edit_id matches Some(
                        id,
                    ) && id@ == item@.id
                    &&& r.1 matches Step::Run(c) && c@ == encode_request(
                        opt_view(self.session),
                        json_item(
                            modified_view(item@, token@, opt_view(self.registry.name)),
                        ),
                    )
                },
                None => {
                    &&& r.0.phase matches Phase::AwaitEncode { edit_id } && edit_id is None
                    &&& r.1 matches Step::Run(c) && c@ == encode_request(
                        opt_view(self.session),
                        json_create_request(
                            create_request_view(
                                self.registry.index_url@,
                                token@,
                                opt_view(self.registry.name),
                            ),
                        ),
                    )
                },
            },
    {
        let Dispatcher { vault, registry, action, session, phase } = self;
        let found = match phase {
            Phase::AwaitToken { found } => found,
            _ => unreached(),
        };
        let name_ref: Option<&str> = match &registry.name {
            Some(n) => Some(n.as_str()),
            None => None,
        };
        match found {
            Some(item) => {
                let modified = build_modified(&item, token.as_str(), &name_ref);
                let payload = encode_item(&modified);
                let cmd = vault.encode_command(&session, payload);
                let d = Dispatcher {
                    vault,
                    registry,
                    action,
                    session,
                    phase: Phase::AwaitEncode { edit_id: Some(item.id) },
                };
                (d, Step::Run(cmd))
            },
            None => {
                let req = build_create_request(registry.index_url.as_str(), token.as_str(), &name_ref);
                let payload = encode_create_request(&req);
                let cmd = vault.encode_command(&session, payload);
                let d = Dispatcher {
                    vault,
                    registry,
                    action,
                    session,
                    phase: Phase::AwaitEncode { edit_id: None },
                };
                (d, Step::Run(cmd))
            },
        }
    }
}

/// The provider itself: the entry point that opens one credential action.
pub struct BitwardenCredential;

impl BitwardenCredential {
    /// Parses the provider options and opens the action: the verified part
    /// of one `perform` invocation. The driver runs the returned steps.
    pub fn begin(
        args: &[&str],
        registry: RegistryRef,
        action: ActionKind,
        env_session: bool,
    ) -> (r: Result<(Dispatcher, Step), CredentialError>)
        ensures
            match r {
                Ok(started) => {
                    &&& crate::vault::spec_parse_args(args.deep_view())
                        matches crate::vault::ArgsOutcome::Accepted { email, auto_sync }
                        && opt_view(started.0.vault.email_address) == email
                        && started.0.vault.auto_sync == auto_sync
                    &&& started.0.registry == registry && started.0.action == action
                    &&& action is Other ==> failed(started, CredentialError::UnsupportedOperation)
                    &&& !(action is Other) && !env_session ==> {
                        &&& started.0.phase is AwaitSignin
                        &&& started.0.session is None
                        &&& started.1 matches Step::Run(c) && c@ == login_request(
                            opt_view(started.0.vault.email_address),
                        )
                    }
                    &&& !(action is Other) && env_session ==> search_entry(
                        started.0,
                        None,
                        started,
                    )
                },
                Err(e) => !(crate::vault::spec_parse_args(args.deep_view()) is Accepted),
            },
    {
        let vault = match BitwardenVault::new(args) {
            Ok(v) => v,
            Err(e) => {
                return Err(e);
            },
        };
        Ok(Dispatcher::start(vault, registry, action, env_session))
    }
}

} // verus!

