//! The vault tool's command surface: which `bw` invocation each operation
//! runs, with what flags, in what order.

use vstd::prelude::*;

use crate::error::CredentialError;
use crate::model::opt_view;
use crate::text::{starts_with_char, str_eq};

verus! {

/// One invocation of the vault tool that the unverified driver must run:
/// the argument list (the program name is the driver's concern) and the
/// bytes to pipe to its standard input, if any. Standard output is always
/// captured.
pub struct CommandRequest {
    pub args: Vec<String>,
    pub stdin: Option<String>,
}

/// Mathematical view of [`CommandRequest`].
#[verifier::ext_equal]
pub struct CommandRequestView {
    pub args: Seq<Seq<char>>,
    pub stdin: Option<Seq<char>>,
}

impl View for CommandRequest {
    type V = CommandRequestView;

    open spec fn view(&self) -> CommandRequestView {
        CommandRequestView { args: self.args.deep_view(), stdin: opt_view(self.stdin) }
    }
}

/// The fixed non-interactive flags that every session-scoped invocation
/// carries.
pub open spec fn base_flags() -> Seq<Seq<char>> {
    seq!["--nointeraction"@, "--cleanexit"@]
}

/// The explicit session argument, when a session token is available.
pub open spec fn session_flags(session: Option<Seq<char>>) -> Seq<Seq<char>> {
    match session {
        Some(s) => seq!["--session"@, s],
        None => seq![],
    }
}

/// The full argument list of a session-scoped invocation with the given
/// subcommand tail.
pub open spec fn spec_make_cmd(session: Option<Seq<char>>, tail: Seq<Seq<char>>) -> Seq<Seq<char>> {
    base_flags() + session_flags(session) + tail
}

/// The interactive unlock invocation: raw output, optionally scoped to an
/// account. It deliberately carries no session or non-interactive flags.
pub open spec fn login_request(email: Option<Seq<char>>) -> CommandRequestView {
    CommandRequestView {
        args: seq!["login"@, "--raw"@] + match email {
            Some(e) => seq![e],
            None => Seq::empty(),
        },
        stdin: None,
    }
}

/// The explicit synchronization invocation.
pub open spec fn sync_request(session: Option<Seq<char>>) -> CommandRequestView {
    CommandRequestView { args: spec_make_cmd(session, seq!["sync"@]), stdin: None }
}

/// The invocation that lists login items filtered by a registry index URL.
pub open spec fn list_request(session: Option<Seq<char>>, url: Seq<char>) -> CommandRequestView {
    CommandRequestView {
        args: spec_make_cmd(session, seq!["list"@, "items"@, "--url"@, url]),
        stdin: None,
    }
}

/// The invocation that deletes one item by id.
pub open spec fn delete_request(session: Option<Seq<char>>, id: Seq<char>) -> CommandRequestView {
    CommandRequestView { args: spec_make_cmd(session, seq!["delete"@, "item"@, id]), stdin: None }
}

/// The invocation that turns a JSON payload on stdin into the tool's own
/// encoded request form.
pub open spec fn encode_request(session: Option<Seq<char>>, payload: Seq<char>) -> CommandRequestView {
    CommandRequestView { args: spec_make_cmd(session, seq!["encode"@]), stdin: Some(payload) }
}

/// The invocation that creates one item from an encoded payload.
pub open spec fn create_item_request(
    session: Option<Seq<char>>,
    encoded: Seq<char>,
) -> CommandRequestView {
    CommandRequestView {
        args: spec_make_cmd(session, seq!["create"@, "item"@, encoded]),
        stdin: None,
    }
}

/// The invocation that edits one item, named by id, from an encoded payload.
pub open spec fn edit_item_request(
    session: Option<Seq<char>>,
    id: Seq<char>,
    encoded: Seq<char>,
) -> CommandRequestView {
    CommandRequestView {
        args: spec_make_cmd(session, seq!["edit"@, "item"@, id, encoded]),
        stdin: None,
    }
}

/// What parsing the provider's own command line yields.
pub enum ArgsOutcome {
    /// Every option was understood.
    Accepted { email: Option<Seq<char>>, auto_sync: bool },
    /// An option this program does not know.
    UnknownOption(Seq<char>),
    /// An option that needs a value came last.
    MissingOptionValue(Seq<char>),
    /// A positional argument was given.
    TooManyArguments,
}

/// Parses the provider options from position `i` on, with the values
/// accumulated so far: `--email` takes the next argument, `--sync` enables
/// auto-sync, any other flag or any positional argument is refused.
pub open spec fn parse_args_from(
    args: Seq<Seq<char>>,
    i: int,
    email: Option<Seq<char>>,
    auto_sync: bool,
) -> ArgsOutcome
    decreases args.len() - i,
{
    if i < 0 || i >= args.len() {
        ArgsOutcome::Accepted { email, auto_sync }
    } else {
        let a = args[i];
        if a == "--email"@ {
            if i + 1 < args.len() {
                parse_args_from(args, i + 2, Some(args[i + 1]), auto_sync)
            } else {
                ArgsOutcome::MissingOptionValue(a)
            }
        } else if a == "--sync"@ {
            parse_args_from(args, i + 1, email, true)
        } else if a.len() > 0 && a[0] == '-' {
            ArgsOutcome::UnknownOption(a)
        } else {
            ArgsOutcome::TooManyArguments
        }
    }
}

/// What parsing the whole provider command line yields.
pub open spec fn spec_parse_args(args: Seq<Seq<char>>) -> ArgsOutcome {
    parse_args_from(args, 0, None, false)
}

/// The per-invocation vault configuration: which account an interactive
/// unlock is scoped to, and whether mutations are followed by an explicit
/// synchronization.
pub struct BitwardenVault {
    pub email_address: Option<String>,
    pub auto_sync: bool,
}

impl BitwardenVault {
    /// Parses the provider's own options (`--email <address>`, `--sync`)
    /// into a configuration, refusing anything else.
    pub fn new(args: &[&str]) -> (r: Result<BitwardenVault, CredentialError>)
        ensures
            match r {
                Ok(v) => spec_parse_args(args.deep_view()) matches ArgsOutcome::Accepted {
                    email,
                    auto_sync,
                } && opt_view(v.email_address) == email && v.auto_sync == auto_sync,
                Err(e) => match e {
                    CredentialError::UnknownOption(s) => spec_parse_args(args.deep_view())
                        matches ArgsOutcome::UnknownOption(t) && s@ == t,
                    CredentialError::MissingOptionValue(s) => spec_parse_args(args.deep_view())
                        matches ArgsOutcome::MissingOptionValue(t) && s@ == t,
                    CredentialError::TooManyArguments => spec_parse_args(args.deep_view())
                        is TooManyArguments,
                    _ => false,
                },
            },
    {
        let ghost all = args.deep_view();
        let mut email_address: Option<String> = None;
        let mut auto_sync: bool = false;
        let mut i: usize = 0;
        while i < args.len()
            invariant
                i <= args.len(),
                all == args.deep_view(),
                all.len() == args.len(),
                spec_parse_args(all) == parse_args_from(
                    all,
                    i as int,
                    opt_view(email_address),
                    auto_sync,
                ),
            decreases args.len() - i,
        {
            let arg: &str = args[i];
            proof {
                assert(arg@ == all[i as int]);
            }
            if str_eq(arg, "--email") {
                if i + 1 < args.len() {
                    email_address = Some(args[i + 1].to_owned());
                    i = i + 2;
                } else {
                    return Err(CredentialError::MissingOptionValue(arg.to_owned()));
                }
            } else if str_eq(arg, "--sync") {
                auto_sync = true;
                i = i + 1;
            } else if starts_with_char(arg, '-') {
                return Err(CredentialError::UnknownOption(arg.to_owned()));
            } else {
                return Err(CredentialError::TooManyArguments);
            }
        }
        Ok(BitwardenVault { email_address, auto_sync })
    }

    /// The interactive unlock invocation for this configuration.
    pub fn signin_command(&self) -> (r: CommandRequest)
        ensures
            r@ == login_request(opt_view(self.email_address)),
    {
        let mut args: Vec<String> = Vec::new();
        args.push("login".to_owned());
        args.push("--raw".to_owned());
        if let Some(email) = &self.email_address {
            args.push(email.clone());
        }
        let r = CommandRequest { args, stdin: None };
        proof {
            assert(r@.args =~= login_request(opt_view(self.email_address)).args);
            assert(r@ =~= login_request(opt_view(self.email_address)));
        }
        r
    }

    /// A session-scoped invocation: the fixed non-interactive flags, the
    /// session argument when one is available, then the subcommand tail.
    pub fn make_cmd(&self, session: &Option<String>, tail: &[&str]) -> (r: CommandRequest)
        ensures
            r@.args == spec_make_cmd(opt_view(*session), tail.deep_view()),
            r@.stdin is None,
    {
        let mut args: Vec<String> = Vec::new();
        args.push("--nointeraction".to_owned());
        args.push("--cleanexit".to_owned());
        if let Some(s) = session {
            args.push("--session".to_owned());
            args.push(s.clone());
        }
        let ghost head = args.deep_view();
        let ghost hlen = head.len();
        proof {
            assert(head =~= base_flags() + session_flags(opt_view(*session)));
        }
        let mut i: usize = 0;
        while i < tail.len()
            invariant
                i <= tail.len(),
                tail@.len() == tail.len(),
                args@.len() == hlen + i,
                forall|k: int| 0 <= k < hlen ==> args.deep_view()[k] == head[k],
                forall|k: int| 0 <= k < i ==> args.deep_view()[hlen + k] == tail@[k]@,
            decreases tail.len() - i,
        {
            let s: String = tail[i].to_owned();
            args.push(s);
            i = i + 1;
        }
        proof {
            assert forall|k: int| 0 <= k < tail@.len() implies tail.deep_view()[k] == tail@[k]@ by {
            }
            assert(args.deep_view() =~= head + tail.deep_view());
        }
        CommandRequest { args, stdin: None }
    }

    /// The explicit synchronization pass: an invocation only when auto-sync
    /// was enabled at startup, otherwise nothing to run.
    pub fn sync(&self, session: &Option<String>) -> (r: Option<CommandRequest>)
        ensures
            self.auto_sync ==> (r matches Some(c) && c@ == sync_request(opt_view(*session))),
            !self.auto_sync ==> r is None,
    {
        if !self.auto_sync {
            return None;
        }
        let c = self.make_cmd(session, &["sync"]);
        proof {
            assert(c@ =~= sync_request(opt_view(*session)));
        }
        Some(c)
    }

    /// The invocations that a search issues, in order: when auto-sync is
    /// enabled, a synchronization strictly before the list, so the listing
    /// is fresh; then the URL-filtered list itself.
    pub fn search_commands(&self, session: &Option<String>, index_url: &str) -> (r: Vec<
        CommandRequest,
    >)
        ensures
            self.auto_sync ==> r@.len() == 2 && r@[0]@ == sync_request(opt_view(*session))
                && r@[1]@ == list_request(opt_view(*session), index_url@),
            !self.auto_sync ==> r@.len() == 1 && r@[0]@ == list_request(
                opt_view(*session),
                index_url@,
            ),
    {
        let mut out: Vec<CommandRequest> = Vec::new();
        if let Some(c) = self.sync(session) {
            out.push(c);
        }
        let list = self.make_cmd(session, &["list", "items", "--url", index_url]);
        proof {
            assert(list@ =~= list_request(opt_view(*session), index_url@));
        }
        out.push(list);
        out
    }

    /// The invocations that a removal issues, in order: the deletion by id,
    /// then, when auto-sync is enabled, a synchronization strictly after it.
    pub fn delete(&self, session: &Option<String>, id: &str) -> (r: Vec<CommandRequest>)
        ensures
            r@.len() >= 1,
            r@[0]@ == delete_request(opt_view(*session), id@),
            self.auto_sync ==> r@.len() == 2 && r@[1]@ == sync_request(opt_view(*session)),
            !self.auto_sync ==> r@.len() == 1,
    {
        let mut out: Vec<CommandRequest> = Vec::new();
        let del = self.make_cmd(session, &["delete", "item", id]);
        proof {
            assert(del@ =~= delete_request(opt_view(*session), id@));
        }
        out.push(del);
        if let Some(c) = self.sync(session) {
            out.push(c);
        }
        out
    }

    /// The invocation that encodes a JSON payload for create or edit.
    pub fn encode_command(&self, session: &Option<String>, payload: String) -> (r: CommandRequest)
        ensures
            r@ == encode_request(opt_view(*session), payload@),
    {
        let base = self.make_cmd(session, &["encode"]);
        let r = CommandRequest { args: base.args, stdin: Some(payload) };
        proof {
            assert(r@ =~= encode_request(opt_view(*session), r.stdin->0@));
        }
        r
    }

    /// The invocation that creates one item from an encoded payload.
    pub fn create_item_command(&self, session: &Option<String>, encoded: &str) -> (r: CommandRequest)
        ensures
            r@ == create_item_request(opt_view(*session), encoded@),
    {
        let c = self.make_cmd(session, &["create", "item", encoded]);
        proof {
            assert(c@ =~= create_item_request(opt_view(*session), encoded@));
        }
        c
    }

    /// The invocation that edits one item by id from an encoded payload.
    pub fn edit_item_command(&self, session: &Option<String>, id: &str, encoded: &str) -> (r:
        CommandRequest)
        ensures
            r@ == edit_item_request(opt_view(*session), id@, encoded@),
    {
        let c = self.make_cmd(session, &["edit", "item", id, encoded]);
        proof {
            assert(c@ =~= edit_item_request(opt_view(*session), id@, encoded@));
        }
        c
    }
}

/// Picks the vault tool's entry point from the probe results the host
/// driver gathered: the canonical name when it spawned, else the platform's
/// alternate name when there is one and it spawned, else a fatal
/// configuration error.
pub fn choose_tool(
    primary: &str,
    primary_found: bool,
    alternate: Option<&str>,
    alternate_found: bool,
) -> (r: Result<String, CredentialError>)
    ensures
        primary_found ==> (r matches Ok(s) && s@ == primary@),
        alternate matches Some(a) ==> ((!primary_found && alternate_found) ==> (r matches Ok(s)
            && s@ == a@)),
        !primary_found && (alternate is None || !alternate_found) ==> (r matches Err(e) && e
            is ToolNotFound),
{
    if primary_found {
        Ok(primary.to_owned())
    } else {
        match alternate {
            Some(a) if alternate_found => Ok(a.to_owned()),
            _ => Err(CredentialError::ToolNotFound),
        }
    }
}

} // verus!
