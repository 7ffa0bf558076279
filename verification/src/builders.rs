//! Building the create and edit payloads for the vault.

use vstd::prelude::*;

use crate::model::{
    opt_view, CreateRequest, CreateRequestView, LoginRecord, LoginRecordView, UriMatch,
    UriMatchView, VaultItem, VaultItemView,
};

verus! {

use vstd::string::StringExecFns;

/// The vault's numeric item type for login-style records.
pub const LOGIN_KIND: u32 = 1;

/// The vault's URI rule that matches by host, so one entry covers a registry
/// index URL regardless of its path.
pub const MATCH_BY_HOST: u32 = 1;

/// The host component of a URL, as the URL parser renders it, or nothing
/// when the text does not parse as a URL with a host.
pub uninterp spec fn host_of(url: Seq<char>) -> Option<Seq<char>>;

/// Relies on `url::Url::parse` and `url::Url::host`: whether a text parses
/// as a URL, and the rendering of its host, depend on the text alone.
#[verifier::external_body]
fn parse_host(url: &str) -> (r: Option<String>)
    ensures
        r matches Some(h) ==> (host_of(url@) matches Some(hh) && h@ == hh),
        r is None ==> host_of(url@) is None,
{
    match url::Url::parse(url) {
        Ok(u) => match u.host() {
            Some(h) => Some(h.to_string()),
            None => None,
        },
        Err(_) => None,
    }
}

/// The base of a created entry's default name: the supplied registry name
/// when there is one, else the index URL's host, else a fixed fallback.
pub open spec fn created_base_name(name: Option<Seq<char>>, host: Option<Seq<char>>) -> Seq<char> {
    match name {
        Some(n) => n,
        None => match host {
            Some(h) => h,
            None => "<unknown>"@,
        },
    }
}

/// The full name given to a created entry.
pub open spec fn created_name(name: Option<Seq<char>>, host: Option<Seq<char>>) -> Seq<char> {
    "Cargo registry token for "@ + created_base_name(name, host)
}

/// The view of an entry after its password, and optionally its name, are
/// replaced: every other field is the pre-modify item's.
pub open spec fn modified_view(
    item: VaultItemView,
    token: Seq<char>,
    name: Option<Seq<char>>,
) -> VaultItemView {
    VaultItemView {
        id: item.id,
        kind: item.kind,
        name: match name {
            Some(n) => n,
            None => item.name,
        },
        login: LoginRecordView {
            username: item.login.username,
            password: token,
            uris: item.login.uris,
        },
    }
}

/// The view of the request that stores a new token for a registry.
pub open spec fn create_request_view(
    url: Seq<char>,
    token: Seq<char>,
    name: Option<Seq<char>>,
) -> CreateRequestView {
    CreateRequestView {
        name: created_name(name, host_of(url)),
        login: LoginRecordView {
            username: None,
            password: token,
            uris: seq![UriMatchView { match_rule: Some(MATCH_BY_HOST), uri: url }],
        },
        kind: LOGIN_KIND,
    }
}

/// A copy of an existing entry with the password replaced by the new token
/// and, when one is supplied, the name replaced; every other field — the
/// id above all — is unchanged.
pub fn build_modified(item: &VaultItem, token: &str, name: &Option<&str>) -> (r: VaultItem)
    ensures
        r@ == modified_view(item@, token@, opt_view_str(*name)),
        r@.id == item@.id,
        r@.kind == item@.kind,
        r@.login.username == item@.login.username,
        r@.login.uris == item@.login.uris,
        r@.login.password == token@,
        r@.name == match opt_view_str(*name) {
            Some(n) => n,
            None => item@.name,
        },
{
    let mut out = item.duplicate();
    out.login.password = token.to_owned();
    if let Some(n) = name {
        out.name = (*n).to_owned();
    }
    proof {
        assert(out@ =~= modified_view(item@, token@, opt_view_str(*name)));
    }
    out
}

/// The view of an optional string slice.
pub open spec fn opt_view_str(o: Option<&str>) -> Option<Seq<char>> {
    match o {
        Some(s) => Some(s@),
        None => None,
    }
}

/// The request that stores a new token for a registry: a login-kind entry
/// whose single URI is the index URL under the match-by-host rule, whose
/// password is the token, and whose name is the supplied one or defaults to
/// naming the registry's host.
pub fn build_create_request(index_url: &str, token: &str, name: &Option<&str>) -> (r: CreateRequest)
    ensures
        r@ == create_request_view(index_url@, token@, opt_view_str(*name)),
        r@.kind == LOGIN_KIND,
        r@.login.username is None,
        r@.login.password == token@,
        r@.login.uris =~= seq![
            UriMatchView { match_rule: Some(MATCH_BY_HOST), uri: index_url@ },
        ],
        r@.name == created_name(opt_view_str(*name), host_of(index_url@)),
{
    let base: String = match name {
        Some(n) => (*n).to_owned(),
        None => match parse_host(index_url) {
            Some(h) => h,
            None => "<unknown>".to_owned(),
        },
    };
    let full = "Cargo registry token for ".to_owned().concat(base.as_str());
    let mut uris: Vec<UriMatch> = Vec::new();
    uris.push(UriMatch { match_rule: Some(MATCH_BY_HOST), uri: index_url.to_owned() });
    let r = CreateRequest {
        name: full,
        login: LoginRecord { username: None, password: token.to_owned(), uris },
        kind: LOGIN_KIND,
    };
    proof {
        assert(r@.login.uris =~= seq![
            UriMatchView { match_rule: Some(MATCH_BY_HOST), uri: index_url@ },
        ]);
        assert(r@ =~= create_request_view(index_url@, token@, opt_view_str(*name)));
    }
    r
}

} // verus!
