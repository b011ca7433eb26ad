//! Ports of the core: the capabilities a vendor adapter fulfils and the
//! persistence and service interfaces around token rotation.
//!
//! Adapters and stores are stateful: each trait exposes, as specification
//! state, the history the orchestration contracts speak of — the calls an
//! adapter has received, the rows a store holds and the identities it has
//! ever handed out. An implementation that talks to the outside world keeps
//! that state abstract; the in-memory implementations in this crate carry it
//! as ghost data and are verified against these contracts.

use vstd::prelude::*;

use crate::access_token::AccessToken;
use crate::access_token::AccessTokenError;
use crate::access_token::AccessTokenV;
use crate::ams::AmsError;
use crate::refresh_token::CreateRefreshTokenError;
use crate::refresh_token::FindRefreshTokenError;
use crate::refresh_token::RefreshToken;
use crate::refresh_token::RefreshTokenError;
use crate::refresh_token::RefreshTokenV;
use crate::tokens::CreateTokensError;
use crate::tokens::SerialNumber;
use crate::tokens::Token;
use crate::tokens::Tokens;

verus! {

/// The identity of a vendor whose cloud issues credentials and accepts
/// device commands. Used as the registry key and persisted as a
/// discriminator.
#[derive(Clone, Copy, Debug, PartialEq, Eq, Hash, Structural)]
pub enum ProviderType {
    BambuLab,
}

/// Authentication capability of one vendor: trades account credentials for
/// a fresh credential pair over the vendor's own protocol.
pub trait ProviderTokenService: Sized {
    /// The credentials this adapter has been asked to authenticate, oldest
    /// first, as (username, password). An implementation that keeps no
    /// such state leaves the default, of which nothing useful holds.
    open spec fn auth_attempts(&self) -> Seq<(Seq<char>, Seq<char>)> {
        Seq::empty()
    }

    /// The credential pairs this adapter has issued, oldest first, as
    /// (access token, refresh token).
    open spec fn issued(&self) -> Seq<(Seq<char>, Seq<char>)> {
        Seq::empty()
    }

    /// One authentication round-trip. Every call is recorded as an attempt;
    /// a success is recorded as an issued pair and returns exactly that
    /// pair.
    fn authenticate(&mut self, username: String, password: String) -> (r: Result<
        Tokens,
        CreateTokensError,
    >)
        ensures
            final(self).auth_attempts() == old(self).auth_attempts().push(
                (username@, password@),
            ),
            (match r {
                Ok(t) => final(self).issued() == old(self).issued().push(
                    (t.access_token@, t.refresh_token@),
                ),
                Err(_) => final(self).issued() == old(self).issued(),
            }),
    ;
}

/// Device-command capability of one vendor: delivers an RFID-refresh
/// command for a tray slot to a device over the vendor's transport.
pub trait ProviderAmsService: Sized {
    /// The commands this adapter has attempted to deliver, oldest first, as
    /// (tray slot, device serial). An implementation that keeps no such
    /// state leaves the default, of which nothing useful holds.
    open spec fn sent(&self) -> Seq<(Seq<char>, Seq<char>)> {
        Seq::empty()
    }

    /// One command round-trip. Every call is recorded as an attempted
    /// delivery; a failure of the vendor transport reports `CommandFailed`.
    fn refresh_rfid(
        &mut self,
        tray_id: String,
        device_id: String,
        username: String,
        password: String,
    ) -> (r: Result<(), AmsError>)
        ensures
            final(self).sent() == old(self).sent().push((tray_id@, device_id@)),
            r matches Err(e) ==> e is CommandFailed,
    ;
}

/// Persistence port for refresh-token rows.
pub trait RefreshTokenRepository: Sized {
    /// The stored rows, oldest first. More than one row per serial number
    /// can exist; keeping it to one is the orchestrator's duty. An
    /// implementation that keeps no such state leaves the defaults of this
    /// and the two following functions, of which nothing useful holds.
    open spec fn rows(&self) -> Seq<RefreshTokenV> {
        Seq::empty()
    }

    /// Every identity this store has ever given to a row, kept across
    /// deletes.
    open spec fn issued_ids(&self) -> Set<int> {
        Set::empty()
    }

    /// How many mutating storage operations were performed.
    open spec fn write_ops(&self) -> nat {
        0
    }

    /// Appends one row holding the given token under the given serial
    /// number, with a fresh identity. On failure the rows are unchanged.
    fn create_refresh_token(&mut self, token: &Token, serial_number: &SerialNumber) -> (r: Result<
        RefreshToken,
        CreateRefreshTokenError,
    >)
        ensures
            final(self).write_ops() == old(self).write_ops() + 1,
            old(self).issued_ids().subset_of(final(self).issued_ids()),
            (match r {
                Ok(t) => {
                    &&& t@.serial_number == serial_number@
                    &&& t@.token == token@
                    &&& !old(self).issued_ids().contains(t@.id)
                    &&& final(self).issued_ids().contains(t@.id)
                    &&& final(self).rows() == old(self).rows().push(t@)
                },
                Err(e) => {
                    &&& final(self).rows() == old(self).rows()
                    &&& !(e is ProviderNotFound)
                    &&& !(e is AuthenticationFailed)
                    &&& !(e is InvalidSerialNumber)
                },
            }),
    ;

    /// Reads one row stored under exactly this serial number; `NotFound`
    /// exactly when no such row exists.
    fn find_by_serial_number(&self, serial_number: &str) -> (r: Result<
        RefreshToken,
        FindRefreshTokenError,
    >)
        ensures
            (match r {
                Ok(t) => self.rows().contains(t@) && t@.serial_number == serial_number@,
                Err(_) => forall|i: int|
                    0 <= i < self.rows().len() ==> self.rows()[i].serial_number != serial_number@,
            }),
    ;

    /// Removes every row stored under this serial number; on failure the
    /// rows are unchanged.
    fn delete_by_serial_number(&mut self, serial_number: &str) -> (r: Result<
        (),
        RefreshTokenError,
    >)
        ensures
            final(self).write_ops() == old(self).write_ops() + 1,
            final(self).issued_ids() == old(self).issued_ids(),
            (match r {
                Ok(_) => final(self).rows() == old(self).rows().filter(
                    |row: RefreshTokenV| row.serial_number != serial_number@,
                ),
                Err(_) => final(self).rows() == old(self).rows(),
            }),
    ;
}

/// Persistence port for access-token rows.
pub trait AccessTokenRepository: Sized {
    /// The stored rows, oldest first. An implementation that keeps no such
    /// state leaves the defaults of this and the two following functions,
    /// of which nothing useful holds.
    open spec fn rows(&self) -> Seq<AccessTokenV> {
        Seq::empty()
    }

    /// Every identity this store has ever given to a row, kept across
    /// deletes.
    open spec fn issued_ids(&self) -> Set<int> {
        Set::empty()
    }

    /// How many mutating storage operations were performed.
    open spec fn write_ops(&self) -> nat {
        0
    }

    /// Appends one row holding the given token under the given serial
    /// number, with a fresh identity. On failure the rows are unchanged.
    fn create_access_token(&mut self, token: &Token, serial_number: &SerialNumber) -> (r: Result<
        AccessToken,
        AccessTokenError,
    >)
        ensures
            final(self).write_ops() == old(self).write_ops() + 1,
            old(self).issued_ids().subset_of(final(self).issued_ids()),
            (match r {
                Ok(t) => {
                    &&& t@.serial_number == serial_number@
                    &&& t@.token == token@
                    &&& !old(self).issued_ids().contains(t@.id)
                    &&& final(self).issued_ids().contains(t@.id)
                    &&& final(self).rows() == old(self).rows().push(t@)
                },
                Err(_) => final(self).rows() == old(self).rows(),
            }),
    ;

    /// Removes every row stored under this serial number; on failure the
    /// rows are unchanged.
    fn delete_by_serial_number(&mut self, serial_number: &str) -> (r: Result<(), AccessTokenError>)
        ensures
            final(self).write_ops() == old(self).write_ops() + 1,
            final(self).issued_ids() == old(self).issued_ids(),
            (match r {
                Ok(_) => final(self).rows() == old(self).rows().filter(
                    |row: AccessTokenV| row.serial_number != serial_number@,
                ),
                Err(_) => final(self).rows() == old(self).rows(),
            }),
    ;
}

/// Application-facing access-token operations: what the orchestrator uses
/// to rotate the access-token row next to the refresh-token row.
pub trait AccessTokenService: Sized {
    /// The stored rows, oldest first. An implementation that keeps no such
    /// state leaves the defaults of this and the two following functions,
    /// of which nothing useful holds.
    open spec fn rows(&self) -> Seq<AccessTokenV> {
        Seq::empty()
    }

    /// Every identity this store has ever given to a row, kept across
    /// deletes.
    open spec fn issued_ids(&self) -> Set<int> {
        Set::empty()
    }

    /// How many mutating storage operations were performed.
    open spec fn write_ops(&self) -> nat {
        0
    }

    /// Persists one access-token row; same contract as the repository
    /// operation it delegates to.
    fn create_access_token(&mut self, token: &Token, serial_number: &SerialNumber) -> (r: Result<
        AccessToken,
        AccessTokenError,
    >)
        ensures
            final(self).write_ops() == old(self).write_ops() + 1,
            old(self).issued_ids().subset_of(final(self).issued_ids()),
            (match r {
                Ok(t) => {
                    &&& t@.serial_number == serial_number@
                    &&& t@.token == token@
                    &&& !old(self).issued_ids().contains(t@.id)
                    &&& final(self).issued_ids().contains(t@.id)
                    &&& final(self).rows() == old(self).rows().push(t@)
                },
                Err(_) => final(self).rows() == old(self).rows(),
            }),
    ;

    /// Removes every access-token row stored under this serial number.
    fn delete_by_serial_number(&mut self, serial_number: &str) -> (r: Result<(), AccessTokenError>)
        ensures
            final(self).write_ops() == old(self).write_ops() + 1,
            final(self).issued_ids() == old(self).issued_ids(),
            (match r {
                Ok(_) => final(self).rows() == old(self).rows().filter(
                    |row: AccessTokenV| row.serial_number != serial_number@,
                ),
                Err(_) => final(self).rows() == old(self).rows(),
            }),
    ;
}

/// Driving port of the token lifecycle: issue tokens for a device through a
/// vendor account, and read the stored refresh token back. The verified
/// orchestrator implements it; callers outside the library reach the
/// lifecycle through this interface.
pub trait RefreshTokenService: Sized {
    fn create_refresh_token(
        &mut self,
        username: String,
        password: String,
        serial_number: &str,
        provider_type: ProviderType,
    ) -> Result<RefreshToken, CreateRefreshTokenError>;

    fn find_by_serial_number(&self, serial_number: &str) -> Result<
        RefreshToken,
        FindRefreshTokenError,
    >;
}

/// Driving port of device-command dispatch.
pub trait AmsService: Sized {
    fn refresh_rfid(
        &mut self,
        tray_id: String,
        provider: ProviderType,
        device_id: String,
    ) -> Result<(), AmsError>;
}

} // verus!
