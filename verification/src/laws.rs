//! Relations between the library's operations, proved once and for all.

use vstd::prelude::*;

use crate::builders::{create_request_view, MATCH_BY_HOST};
use crate::model::{UriMatchView, VaultItemView};
use crate::select::{lemma_unique_match, matching, uri_matches};
use crate::vault::{list_request, login_request, sync_request};

verus! {

/// Creating an entry and then searching for the same index URL finds it:
/// when a listing holds, at the one URI-matching position, an item whose
/// login is the created request's login, the search's re-filter keeps
/// exactly that item, its password is the created token, and its URI list
/// is exactly one host-matched entry for that URL.
pub proof fn lemma_create_then_search(
    items: Seq<VaultItemView>,
    url: Seq<char>,
    token: Seq<char>,
    name: Option<Seq<char>>,
    i: int,
)
    requires
        0 <= i < items.len(),
        items[i].login == create_request_view(url, token, name).login,
        forall|j: int| 0 <= j < items.len() && j != i ==> !uri_matches(items[j], url),
    ensures
        matching(items, url).len() == 1,
        matching(items, url)[0].login.password == token,
        matching(items, url)[0].login.uris == seq![
            UriMatchView { match_rule: Some(MATCH_BY_HOST), uri: url },
        ],
{
    assert(items[i].login.uris[0].uri == url);
    assert(uri_matches(items[i], url));
    lemma_unique_match(items, url, i);
    assert(matching(items, url)[0] == items[i]);
}

/// A pre-supplied session skips the unlock entirely: the invocations the
/// search entry can issue are never the unlock invocation, whatever the
/// session, account and registry, because every session-scoped invocation
/// opens with the fixed non-interactive flag and the unlock opens with its
/// subcommand name.
pub proof fn lemma_session_bypass_never_unlocks(
    email: Option<Seq<char>>,
    session: Option<Seq<char>>,
    url: Seq<char>,
)
    ensures
        sync_request(session).args != login_request(email).args,
        list_request(session, url).args != login_request(email).args,
{
    reveal_strlit("--nointeraction");
    reveal_strlit("login");
    assert(sync_request(session).args[0] == "--nointeraction"@);
    assert(list_request(session, url).args[0] == "--nointeraction"@);
    assert(login_request(email).args[0] == "login"@);
    assert("--nointeraction"@.len() != "login"@.len());
}

} // verus!
