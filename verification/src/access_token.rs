//! The access-token record and its errors. Access tokens are persisted next
//! to refresh tokens, one row per device, and rotate together with them.

use vstd::prelude::*;

use crate::tokens::SerialNumber;
use crate::tokens::Token;

verus! {

/// Mathematical shape of a persisted access-token row.
pub ghost struct AccessTokenV {
    pub id: int,
    pub serial_number: Seq<char>,
    pub token: Seq<char>,
    pub created_at: int,
    pub updated_at: int,
}

/// A persisted access-token row.
#[derive(Debug)]
pub struct AccessToken {
    pub id: u128,
    pub serial_number: SerialNumber,
    pub token: Token,
    pub created_at: i64,
    pub updated_at: i64,
}

impl View for AccessToken {
    type V = AccessTokenV;

    open spec fn view(&self) -> AccessTokenV {
        AccessTokenV {
            id: self.id as int,
            serial_number: self.serial_number@,
            token: self.token@,
            created_at: self.created_at as int,
            updated_at: self.updated_at as int,
        }
    }
}

impl AccessToken {
    pub fn new(
        id: u128,
        serial_number: SerialNumber,
        token: Token,
        created_at: i64,
        updated_at: i64,
    ) -> (r: AccessToken)
        ensures
            r@ == (AccessTokenV {
                id: id as int,
                serial_number: serial_number@,
                token: token@,
                created_at: created_at as int,
                updated_at: updated_at as int,
            }),
    {
        AccessToken { id, serial_number, token, created_at, updated_at }
    }
}

impl Clone for AccessToken {
    fn clone(&self) -> (r: Self)
        ensures
            r@ == self@,
    {
        AccessToken {
            id: self.id,
            serial_number: self.serial_number.clone(),
            token: self.token.clone(),
            created_at: self.created_at,
            updated_at: self.updated_at,
        }
    }
}

/// Why an access-token operation failed.
#[derive(Debug)]
pub enum AccessTokenError {
    /// No row is stored under this serial number.
    NotFound { serial_number: String },
    /// The store refused the new row.
    CreateError,
    /// The store failed on a delete.
    DatabaseError(String),
}

} // verus!
