//! The refresh-token record, the request that asks for one, and the errors
//! of issuing and finding one.

use vstd::prelude::*;

use crate::tokens::SerialNumber;
use crate::tokens::Token;

verus! {

/// Mathematical shape of a persisted refresh-token row.
pub ghost struct RefreshTokenV {
    pub id: int,
    pub serial_number: Seq<char>,
    pub token: Seq<char>,
    pub created_at: int,
    pub updated_at: int,
}

/// A persisted refresh-token row: one credential for one device, under a
/// fresh identity and the timestamps of its issuance.
#[derive(Debug)]
pub struct RefreshToken {
    pub id: u128,
    pub serial_number: SerialNumber,
    pub token: Token,
    pub created_at: i64,
    pub updated_at: i64,
}

impl View for RefreshToken {
    type V = RefreshTokenV;

    open spec fn view(&self) -> RefreshTokenV {
        RefreshTokenV {
            id: self.id as int,
            serial_number: self.serial_number@,
            token: self.token@,
            created_at: self.created_at as int,
            updated_at: self.updated_at as int,
        }
    }
}

impl RefreshToken {
    pub fn new(
        id: u128,
        serial_number: SerialNumber,
        token: Token,
        created_at: i64,
        updated_at: i64,
    ) -> (r: RefreshToken)
        ensures
            r@ == (RefreshTokenV {
                id: id as int,
                serial_number: serial_number@,
                token: token@,
                created_at: created_at as int,
                updated_at: updated_at as int,
            }),
    {
        RefreshToken { id, serial_number, token, created_at, updated_at }
    }
}

impl Clone for RefreshToken {
    fn clone(&self) -> (r: Self)
        ensures
            r@ == self@,
    {
        RefreshToken {
            id: self.id,
            serial_number: self.serial_number.clone(),
            token: self.token.clone(),
            created_at: self.created_at,
            updated_at: self.updated_at,
        }
    }
}

/// What a caller hands in to ask for a token issuance: the vendor account
/// credentials and the device the tokens are for.
#[derive(Debug)]
pub struct CreateRefreshTokenRequest {
    username: String,
    password: String,
    serial_number: SerialNumber,
}

impl CreateRefreshTokenRequest {
    /// The account name the request carries.
    pub closed spec fn spec_username(&self) -> Seq<char> {
        self.username@
    }

    /// The account password the request carries.
    pub closed spec fn spec_password(&self) -> Seq<char> {
        self.password@
    }

    /// The device serial number the request carries.
    pub closed spec fn spec_serial_number(&self) -> Seq<char> {
        self.serial_number@
    }

    pub fn new(username: String, password: String, serial_number: SerialNumber) -> (r: Self)
        ensures
            r.spec_username() == username@,
            r.spec_password() == password@,
            r.spec_serial_number() == serial_number@,
    {
        Self { username, password, serial_number }
    }

    pub fn serial_number(&self) -> (r: &SerialNumber)
        ensures
            r@ == self.spec_serial_number(),
    {
        &self.serial_number
    }

    pub fn username(&self) -> (r: &str)
        ensures
            r@ == self.spec_username(),
    {
        self.username.as_str()
    }

    pub fn password(&self) -> (r: &str)
        ensures
            r@ == self.spec_password(),
    {
        self.password.as_str()
    }
}

/// Why issuing a refresh token failed.
#[derive(Debug)]
pub enum CreateRefreshTokenError {
    /// A row for this serial number already exists and the store refused a
    /// second one.
    Duplicate { name: SerialNumber },
    /// An unclassified internal failure.
    Unknown(String),
    /// The store failed on a delete or insert.
    DatabaseError(String),
    /// No authentication adapter is registered for the provider identity.
    ProviderNotFound,
    /// The provider rejected the credentials or the transport failed.
    AuthenticationFailed,
    /// The serial number was empty or whitespace-only; nothing was attempted.
    InvalidSerialNumber,
}

/// Why a lookup of a refresh token failed.
#[derive(Debug)]
pub enum FindRefreshTokenError {
    /// No row is stored under this serial number.
    NotFound { serial_number: String },
}

/// Why deleting refresh-token rows failed.
#[derive(Debug)]
pub enum RefreshTokenError {
    DatabaseError(String),
}

} // verus!
