use vstd::prelude::*;
use crate::ids::{append_uuid, hex_bytes, hex_encode, uuid_text};
use crate::models::{Permission, PermissionAction};
use crate::text::append_str;

verus! {

/// The group of administrators.
pub const ADMINISTRATORS_GROUP: &'static str = "administrators";

/// The group of service accounts.
pub const SERVICE_ACCOUNT_GROUP: &'static str = "sa";

/// The group of model managers.
pub const MODEL_MANAGERS_GROUP: &'static str = "model.managers";

/// The group of workflow managers.
pub const WORKFLOW_MANAGERS_GROUP: &'static str = "workflow.managers";

/// The name of the group that holds a principal alone.
pub fn principal_group_name(principal: u128) -> (s: String)
    ensures
        s@ == "principal."@ + uuid_text(principal),
{
    let mut s = String::new();
    append_str(&mut s, "principal.");
    append_uuid(&mut s, principal);
    proof {
        assert(s@ =~= "principal."@ + uuid_text(principal));
    }
    s
}

/// The description of the group that holds a principal alone.
pub fn principal_group_description(principal: u128) -> (s: String)
    ensures
        s@ == "Group for "@ + uuid_text(principal),
{
    let mut s = String::new();
    append_str(&mut s, "Group for ");
    append_uuid(&mut s, principal);
    proof {
        assert(s@ =~= "Group for "@ + uuid_text(principal));
    }
    s
}

/// The name of the collection created for a principal's profile.
pub fn principal_collection_name(principal: u128) -> (s: String)
    ensures
        s@ == "Collection for "@ + uuid_text(principal),
{
    let mut s = String::new();
    append_str(&mut s, "Collection for ");
    append_uuid(&mut s, principal);
    proof {
        assert(s@ =~= "Collection for "@ + uuid_text(principal));
    }
    s
}

/// The grants a principal's own group receives on the principal's
/// collection: view, list and edit.
pub fn principal_collection_permissions(collection_id: u128, group_id: u128) -> (r: Vec<Permission>)
    ensures
        r@ == seq![
            Permission { entity_id: collection_id, group_id: group_id, action: PermissionAction::View },
            Permission { entity_id: collection_id, group_id: group_id, action: PermissionAction::List },
            Permission { entity_id: collection_id, group_id: group_id, action: PermissionAction::Edit },
        ],
{
    let mut r: Vec<Permission> = Vec::new();
    r.push(Permission { entity_id: collection_id, group_id, action: PermissionAction::View });
    r.push(Permission { entity_id: collection_id, group_id, action: PermissionAction::List });
    r.push(Permission { entity_id: collection_id, group_id, action: PermissionAction::Edit });
    proof {
        assert(r@ =~= seq![
            Permission { entity_id: collection_id, group_id: group_id, action: PermissionAction::View },
            Permission { entity_id: collection_id, group_id: group_id, action: PermissionAction::List },
            Permission { entity_id: collection_id, group_id: group_id, action: PermissionAction::Edit },
        ]);
    }
    r
}

/// Whether a new principal starts verified: as asked, else as the server
/// is configured to verify accounts.
pub fn principal_verified(verified: Option<bool>, auto_verify_accounts: bool) -> (r: bool)
    ensures
        r == (match verified {
            Some(v) => v,
            None => auto_verify_accounts,
        }),
{
    match verified {
        Some(v) => v,
        None => auto_verify_accounts,
    }
}

/// Draws 16 bytes with `uuid::Uuid::new_v4`. Nothing is claimed of the bytes.
#[verifier::external_body]
pub(crate) fn random_id_bytes() -> (r: [u8; 16])
{
    *uuid::Uuid::new_v4().as_bytes()
}

/// A fresh verification token: the hexadecimal text of 16 random bytes.
pub fn new_verification_token() -> (s: String)
    ensures
        exists|b: Seq<u8>| b.len() == 16 && s@ == hex_bytes(b),
{
    let b = random_id_bytes();
    let s = hex_encode(&b);
    proof {
        assert(b@.len() == 16);
    }
    s
}

/// The verification token a new principal gets: none when it starts
/// verified, a fresh one otherwise.
pub fn principal_verification_token(verified: bool) -> (t: Option<String>)
    ensures
        verified ==> t is None,
        !verified ==> (t matches Some(s) && exists|b: Seq<u8>| b.len() == 16 && s@ == hex_bytes(b)),
{
    if verified {
        None
    } else {
        Some(new_verification_token())
    }
}

/// A refresh token is honoured only before it expires.
pub fn refresh_token_valid(expires: i64, now: i64) -> (r: bool)
    ensures
        r == (expires > now),
{
    expires > now
}

/// What validating a refresh token gives, from the row (principal,
/// expiry) that deleting the token removed: the principal when the token
/// existed and had not expired, nothing otherwise. The row is removed
/// either way, so a token is honoured at most once.
pub fn refresh_token_principal(deleted: Option<(u128, i64)>, now: i64) -> (r: Option<u128>)
    ensures
        r == (match deleted {
            Some((principal, expires)) => if expires > now { Some(principal) } else { None },
            None => None,
        }),
{
    match deleted {
        Some((principal, expires)) => if refresh_token_valid(expires, now) {
            Some(principal)
        } else {
            None
        },
        None => None,
    }
}

/// The size of a batch of imported users.
pub const FIREBASE_BATCH_SIZE: usize = 5000;

/// A batch of users to import: its number (from 1) and the range of users.
#[derive(Clone, Copy, PartialEq, Eq, Structural, Debug)]
pub struct ImportBatch {
    pub index: i32,
    pub start: usize,
    pub end: usize,
}

/// Splits `n` users into import batches of 5000, numbered from 1, the last
/// holding what is left.
pub fn firebase_import_batches(n: usize) -> (r: Vec<ImportBatch>)
    requires
        n / FIREBASE_BATCH_SIZE < i32::MAX,
    ensures
        r@.len() == (if n % FIREBASE_BATCH_SIZE == 0 { (n / FIREBASE_BATCH_SIZE) as int } else { n / FIREBASE_BATCH_SIZE + 1 }),
        forall|i: int|
            0 <= i < r@.len() ==> {
                &&& r@[i].index == i + 1
                &&& r@[i].start == i * FIREBASE_BATCH_SIZE
                &&& r@[i].end == if i == r@.len() - 1 { n as int } else { (i + 1) * FIREBASE_BATCH_SIZE }
            },
{
    let mut r: Vec<ImportBatch> = Vec::new();
    let mut start: usize = 0;
    let mut ix: i32 = 0;
    while n - start > FIREBASE_BATCH_SIZE
        invariant
            start <= n,
            start == ix * FIREBASE_BATCH_SIZE,
            r@.len() == ix,
            ix <= n / FIREBASE_BATCH_SIZE,
            n / FIREBASE_BATCH_SIZE < i32::MAX,
            forall|i: int|
                0 <= i < r@.len() ==> {
                    &&& r@[i].index == i + 1
                    &&& r@[i].start == i * FIREBASE_BATCH_SIZE
                    &&& r@[i].end == (i + 1) * FIREBASE_BATCH_SIZE
                },
        decreases n - start,
    {
        ix = ix + 1;
        r.push(ImportBatch { index: ix, start, end: start + FIREBASE_BATCH_SIZE });
        start = start + FIREBASE_BATCH_SIZE;
    }
    if start < n {
        ix = ix + 1;
        r.push(ImportBatch { index: ix, start, end: n });
    }
    r
}

/// While users are imported, the transaction is committed after every 500th
/// user (from the second user on).
pub fn firebase_commit_due(count: i32) -> (r: bool)
    ensures
        r == (count > 1 && count % 500 == 0),
{
    count > 1 && count % 500 == 0
}

/// How an imported user signs in.
#[derive(Clone, Copy, PartialEq, Eq, Structural, Debug)]
pub enum ImportedAccount {
    /// A password hashed with the imported scrypt settings.
    Password,
    /// A Google account.
    Google,
    /// A Facebook account.
    Facebook,
}

/// The sign-in an imported user gets: none without an email; a password
/// without providers; otherwise that of the last provider listed, when it is
/// Google or Facebook, and none for any other provider.
pub open spec fn imported_account_spec(email: Seq<char>, providers: Seq<Seq<char>>) -> Option<ImportedAccount> {
    if email.len() == 0 {
        None
    } else if providers.len() == 0 {
        Some(ImportedAccount::Password)
    } else if providers.last() == "google.com"@ {
        Some(ImportedAccount::Google)
    } else if providers.last() == "facebook.com"@ {
        Some(ImportedAccount::Facebook)
    } else {
        None
    }
}

/// Decides how an imported user signs in, if the user is imported at all.
pub fn imported_account(email: &String, providers: &Vec<String>) -> (r: Option<ImportedAccount>)
    ensures
        r == imported_account_spec(email@, providers@.map_values(|p: String| p@)),
{
    proof {
        assert(providers@.map_values(|p: String| p@).len() == providers@.len());
    }
    if email.as_str().unicode_len() == 0 {
        return None;
    }
    if providers.len() == 0 {
        return Some(ImportedAccount::Password);
    }
    let last = &providers[providers.len() - 1];
    proof {
        assert(providers@.map_values(|p: String| p@).last() == last@);
    }
    if *last == String::from_str("google.com") {
        Some(ImportedAccount::Google)
    } else if *last == String::from_str("facebook.com") {
        Some(ImportedAccount::Facebook)
    } else {
        None
    }
}

/// The profile name of an imported user: the display name, or `User` when
/// there is none.
pub fn imported_display_name(display_name: &String) -> (r: String)
    ensures
        r@ == (if display_name@.len() == 0 { "User"@ } else { display_name@ }),
{
    if display_name.as_str().unicode_len() == 0 {
        String::from_str("User")
    } else {
        display_name.clone()
    }
}

/// Whether an imported user starts verified: always when the server
/// verifies accounts, else as the import says.
pub fn imported_verified(auto_verify_accounts: bool, email_verified: bool) -> (r: bool)
    ensures
        r == (auto_verify_accounts || email_verified),
{
    auto_verify_accounts || email_verified
}

} // verus!
