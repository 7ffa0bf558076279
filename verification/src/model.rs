//! The vault's item model: one login-style entry per registry.
//!
//! Each executable type has a mathematical view (`...View`) over `Seq<char>`
//! that the library's contracts are stated against.

use vstd::prelude::*;

verus! {

/// One URI attached to a vault login entry. `match_rule == Some(1)` is the
/// vault's "match by host" rule, so one entry covers a registry index URL
/// regardless of its path.
pub struct UriMatch {
    pub match_rule: Option<u32>,
    pub uri: String,
}

/// Mathematical view of [`UriMatch`].
#[verifier::ext_equal]
pub struct UriMatchView {
    pub match_rule: Option<u32>,
    pub uri: Seq<char>,
}

impl View for UriMatch {
    type V = UriMatchView;

    open spec fn view(&self) -> UriMatchView {
        UriMatchView { match_rule: self.match_rule, uri: self.uri@ }
    }
}

/// The login part of a vault item: the password field carries the registry
/// token in plaintext while in memory.
pub struct LoginRecord {
    pub username: Option<String>,
    pub password: String,
    pub uris: Vec<UriMatch>,
}

/// Mathematical view of [`LoginRecord`].
#[verifier::ext_equal]
pub struct LoginRecordView {
    pub username: Option<Seq<char>>,
    pub password: Seq<char>,
    pub uris: Seq<UriMatchView>,
}

/// The view of an optional string.
pub open spec fn opt_view(o: Option<String>) -> Option<Seq<char>> {
    match o {
        Some(s) => Some(s@),
        None => None,
    }
}

impl View for LoginRecord {
    type V = LoginRecordView;

    open spec fn view(&self) -> LoginRecordView {
        LoginRecordView {
            username: opt_view(self.username),
            password: self.password@,
            uris: self.uris@.map_values(|u: UriMatch| u@),
        }
    }
}

/// One stored credential entry as the vault lists it. `id` is assigned by
/// the vault; `kind` is the vault's numeric item type (1 = login).
pub struct VaultItem {
    pub id: String,
    pub kind: u32,
    pub name: String,
    pub login: LoginRecord,
}

/// Mathematical view of [`VaultItem`].
#[verifier::ext_equal]
pub struct VaultItemView {
    pub id: Seq<char>,
    pub kind: u32,
    pub name: Seq<char>,
    pub login: LoginRecordView,
}

impl View for VaultItem {
    type V = VaultItemView;

    open spec fn view(&self) -> VaultItemView {
        VaultItemView { id: self.id@, kind: self.kind, name: self.name@, login: self.login@ }
    }
}

/// Write-only analog of [`VaultItem`] without an `id`, sent to the vault
/// when no matching entry exists yet.
pub struct CreateRequest {
    pub name: String,
    pub login: LoginRecord,
    pub kind: u32,
}

/// Mathematical view of [`CreateRequest`].
#[verifier::ext_equal]
pub struct CreateRequestView {
    pub name: Seq<char>,
    pub login: LoginRecordView,
    pub kind: u32,
}

impl View for CreateRequest {
    type V = CreateRequestView;

    open spec fn view(&self) -> CreateRequestView {
        CreateRequestView { name: self.name@, login: self.login@, kind: self.kind }
    }
}

impl UriMatch {
    /// An owned copy whose view equals the original's.
    pub fn duplicate(&self) -> (r: UriMatch)
        ensures
            r@ == self@,
    {
        UriMatch { match_rule: self.match_rule, uri: self.uri.clone() }
    }
}

/// An owned copy of a URI list whose views equal the originals'.
pub fn duplicate_uris(uris: &Vec<UriMatch>) -> (r: Vec<UriMatch>)
    ensures
        r@.map_values(|u: UriMatch| u@) == uris@.map_values(|u: UriMatch| u@),
{
    let mut out: Vec<UriMatch> = Vec::new();
    let mut i: usize = 0;
    while i < uris.len()
        invariant
            i <= uris.len(),
            out@.len() == i,
            forall|k: int| 0 <= k < i ==> out@[k]@ == uris@[k]@,
        decreases uris.len() - i,
    {
        out.push(uris[i].duplicate());
        i = i + 1;
    }
    proof {
        let f = |u: UriMatch| u@;
        assert forall|k: int| 0 <= k < out@.len() implies out@.map_values(f)[k] == uris@.map_values(
            f,
        )[k] by {
            assert(out@.map_values(f)[k] == f(out@[k]));
            assert(uris@.map_values(f)[k] == f(uris@[k]));
        }
        assert(out@.map_values(f) =~= uris@.map_values(f));
    }
    out
}

impl LoginRecord {
    /// An owned copy whose view equals the original's.
    pub fn duplicate(&self) -> (r: LoginRecord)
        ensures
            r@ == self@,
    {
        let username = match &self.username {
            Some(u) => Some(u.clone()),
            None => None,
        };
        let r = LoginRecord {
            username,
            password: self.password.clone(),
            uris: duplicate_uris(&self.uris),
        };
        proof {
            assert(r@ =~= self@);
        }
        r
    }
}

impl VaultItem {
    /// An owned copy whose view equals the original's.
    pub fn duplicate(&self) -> (r: VaultItem)
        ensures
            r@ == self@,
    {
        let r = VaultItem {
            id: self.id.clone(),
            kind: self.kind,
            name: self.name.clone(),
            login: self.login.duplicate(),
        };
        proof {
            assert(r@ =~= self@);
        }
        r
    }
}

} // verus!
