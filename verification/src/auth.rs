//! Accounts: the offline account and the identifier it gets.

use vstd::prelude::*;
use vstd::string::StringSliceAdditionalSpecFns;

verus! {

/// An account that plays without signing in.
#[derive(Debug)]
pub struct OfflineAccount {
    pub username: String,
    pub uuid: String,
}

/// The account that is signed in, if any.
#[derive(Debug)]
pub struct AccountState {
    pub active_account: Option<OfflineAccount>,
}

impl AccountState {
    /// The state with no account signed in.
    pub fn new() -> (state: Self)
        ensures
            state.active_account is None,
    {
        AccountState { active_account: None }
    }
}

/// The refresh token of the Microsoft sign-in, kept apart from the account.
#[derive(Debug)]
pub struct MsRefreshTokenState {
    pub token: Option<String>,
}

impl MsRefreshTokenState {
    /// The state with no token.
    pub fn new() -> (state: Self)
        ensures
            state.token is None,
    {
        MsRefreshTokenState { token: None }
    }
}

impl Default for MsRefreshTokenState {
    fn default() -> (state: Self)
        ensures
            state.token is None,
    {
        MsRefreshTokenState::new()
    }
}

/// The name space of ISO object identifiers, under which offline accounts
/// get their identifiers.
pub const NAMESPACE_OID: [u8; 16] = [
    0x6b,
    0xa7,
    0xb8,
    0x12,
    0x9d,
    0xad,
    0x11,
    0xd1,
    0x80,
    0xb4,
    0x00,
    0xc0,
    0x4f,
    0xd4,
    0x30,
    0xc8,
];

/// The name-based (version 3) identifier of `name` in `namespace`, in its
/// usual hyphenated lower-case form.
pub uninterp spec fn uuid_v3_text(namespace: Seq<u8>, name: Seq<u8>) -> Seq<char>;

/// `uuid::Uuid::new_v3`: the version-3 identifier of a name in a name
/// space, written as text. It is a function of the two byte strings
/// alone; the contract gives it its name.
#[verifier::external_body]
fn uuid_v3(namespace: &[u8; 16], name: &[u8]) -> (text: String)
    ensures
        text@ == uuid_v3_text(namespace@, name@),
{
    uuid::Uuid::new_v3(&uuid::Uuid::from_bytes(*namespace), name).to_string()
}

/// The identifier of the offline account `username`: always the same for
/// the same name.
pub fn generate_offline_uuid(username: &str) -> (uuid: String)
    ensures
        uuid@ == uuid_v3_text(NAMESPACE_OID@, username.spec_bytes()),
{
    uuid_v3(&NAMESPACE_OID, username.as_bytes())
}

} // verus!
