//! The token lifecycle orchestrator: the one component that mutates the
//! credential store. Its single composite operation resolves the provider,
//! authenticates against the vendor, and rotates the persisted rows by
//! delete-then-insert.

use vstd::prelude::*;

use crate::access_token::AccessToken;
use crate::access_token::AccessTokenError;
use crate::access_token::AccessTokenV;
use crate::ports::AccessTokenRepository;
use crate::ports::AccessTokenService;
use crate::ports::ProviderTokenService;
use crate::ports::ProviderType;
use crate::ports::RefreshTokenRepository;
use crate::ports::RefreshTokenService;
use crate::refresh_token::CreateRefreshTokenError;
use crate::refresh_token::FindRefreshTokenError;
use crate::refresh_token::RefreshToken;
use crate::refresh_token::RefreshTokenV;
use crate::registry::TokenProviderManager;
use crate::tokens::SerialNumber;
use crate::tokens::Token;
use crate::tokens::trim_spec;

verus! {

/// The refresh-token rows after the best-effort delete step of a rotation:
/// either every row for `serial` was retired, or a failed delete left the
/// rows as they were.
pub open spec fn refresh_rows_retired(
    old_rows: Seq<RefreshTokenV>,
    mid: Seq<RefreshTokenV>,
    serial: Seq<char>,
) -> bool {
    mid == old_rows.filter(|row: RefreshTokenV| row.serial_number != serial) || mid == old_rows
}

/// A completed refresh-token rotation: the delete step ran best-effort and
/// exactly the new row was appended.
pub open spec fn refresh_rows_rotated(
    old_rows: Seq<RefreshTokenV>,
    new_rows: Seq<RefreshTokenV>,
    serial: Seq<char>,
    row: RefreshTokenV,
) -> bool {
    exists|mid: Seq<RefreshTokenV>|
        refresh_rows_retired(old_rows, mid, serial) && new_rows == mid.push(row)
}

/// The access-token rows after the best-effort delete step of a rotation.
pub open spec fn access_rows_retired(
    old_rows: Seq<AccessTokenV>,
    mid: Seq<AccessTokenV>,
    serial: Seq<char>,
) -> bool {
    mid == old_rows.filter(|row: AccessTokenV| row.serial_number != serial) || mid == old_rows
}

/// The access-token side of a rotation: rows for `serial` retired
/// best-effort, then one row holding `token` installed — or none, when the
/// best-effort insert failed.
pub open spec fn access_rows_rotated(
    old_rows: Seq<AccessTokenV>,
    new_rows: Seq<AccessTokenV>,
    serial: Seq<char>,
    token: Seq<char>,
) -> bool {
    exists|mid: Seq<AccessTokenV>|
        access_rows_retired(old_rows, mid, serial) && (new_rows == mid || (exists|
            row: AccessTokenV,
        |
            row.serial_number == serial && row.token == token && new_rows == mid.push(row)))
}

proof fn lemma_rows_without_serial_filter_empty(rows: Seq<RefreshTokenV>, serial: Seq<char>)
    requires
        forall|i: int| 0 <= i < rows.len() ==> rows[i].serial_number != serial,
    ensures
        rows.filter(|row: RefreshTokenV| row.serial_number == serial) == Seq::<
            RefreshTokenV,
        >::empty(),
    decreases rows.len(),
{
    reveal(Seq::filter);
    if rows.len() > 0 {
        lemma_rows_without_serial_filter_empty(rows.drop_last(), serial);
    }
}

/// Law: issuing tokens twice in sequence for the same serial number leaves
/// exactly one active refresh-token row for it, under a fresh identity. In
/// detail: when the first issuance installed the row `t1`, and the second
/// issuance retired every row for the serial number and installed `t2`
/// under an identity the store had never handed out, the rows for that
/// serial number are exactly `t2`, whose identity differs from `t1`'s.
pub proof fn lemma_repeat_issuance_single_active_row(
    rows1: Seq<RefreshTokenV>,
    rows2: Seq<RefreshTokenV>,
    issued_ids: Set<int>,
    t1: RefreshTokenV,
    t2: RefreshTokenV,
    serial: Seq<char>,
)
    requires
        rows1.contains(t1),
        t1.serial_number == serial,
        issued_ids.contains(t1.id),
        !issued_ids.contains(t2.id),
        t2.serial_number == serial,
        rows2 == rows1.filter(|row: RefreshTokenV| row.serial_number != serial).push(t2),
    ensures
        rows2.filter(|row: RefreshTokenV| row.serial_number == serial) == seq![t2],
        t2.id != t1.id,
{
    let mid = rows1.filter(|row: RefreshTokenV| row.serial_number != serial);
    assert forall|i: int| 0 <= i < mid.len() implies mid[i].serial_number != serial by {
        rows1.lemma_filter_pred(|row: RefreshTokenV| row.serial_number != serial, i);
    }
    lemma_rows_without_serial_filter_empty(mid, serial);
    reveal(Seq::filter);
    assert(rows2.drop_last() =~= mid);
    assert(rows2.last() == t2);
    assert(rows2.filter(|row: RefreshTokenV| row.serial_number == serial) =~= seq![t2]);
}

/// Law: when the store holds exactly one row for a serial number — the
/// state a completed rotation leaves — any successful lookup under that
/// serial number answers with exactly that row. Together with the lookup
/// contract, a read after a successful issuance returns the issued token.
pub proof fn lemma_find_after_rotation(
    rows: Seq<RefreshTokenV>,
    serial: Seq<char>,
    t: RefreshTokenV,
    f: RefreshTokenV,
)
    requires
        rows.filter(|row: RefreshTokenV| row.serial_number == serial) == seq![t],
        rows.contains(f),
        f.serial_number == serial,
    ensures
        f == t,
{
    let pred = |row: RefreshTokenV| row.serial_number == serial;
    let i = choose|i: int| 0 <= i < rows.len() && rows[i] == f;
    rows.lemma_filter_contains(pred, i);
    assert(rows.filter(pred).contains(f));
}

/// Coordinates lookup, authentication and rotation over the three ports it
/// owns: the refresh-token store, the access-token service, and the
/// directory of authentication adapters.
#[derive(Debug)]
pub struct RefreshTokenServiceImpl<R, P, S> where
    R: RefreshTokenRepository,
    S: AccessTokenService,
    P: ProviderTokenService,
 {
    refresh_token_repository: R,
    access_token_service: S,
    token_provider_manager: TokenProviderManager<P>,
}

impl<R, P, S> RefreshTokenServiceImpl<R, P, S> where
    R: RefreshTokenRepository,
    P: ProviderTokenService,
    S: AccessTokenService,
 {
    /// The stored refresh-token rows.
    pub closed spec fn refresh_rows(&self) -> Seq<RefreshTokenV> {
        self.refresh_token_repository.rows()
    }

    /// Identities the refresh-token store has ever handed out.
    pub closed spec fn refresh_issued_ids(&self) -> Set<int> {
        self.refresh_token_repository.issued_ids()
    }

    /// Mutating operations performed on the refresh-token store.
    pub closed spec fn refresh_write_ops(&self) -> nat {
        self.refresh_token_repository.write_ops()
    }

    /// The stored access-token rows.
    pub closed spec fn access_rows(&self) -> Seq<AccessTokenV> {
        self.access_token_service.rows()
    }

    /// Mutating operations performed on the access-token store.
    pub closed spec fn access_write_ops(&self) -> nat {
        self.access_token_service.write_ops()
    }

    /// The directory of authentication adapters.
    pub closed spec fn providers(&self) -> Map<ProviderType, P> {
        self.token_provider_manager@
    }

    pub fn new(
        refresh_token_repository: R,
        access_token_service: S,
        token_provider_manager: TokenProviderManager<P>,
    ) -> (r: Self)
        ensures
            r.refresh_rows() == refresh_token_repository.rows(),
            r.refresh_issued_ids() == refresh_token_repository.issued_ids(),
            r.refresh_write_ops() == refresh_token_repository.write_ops(),
            r.access_rows() == access_token_service.rows(),
            r.access_write_ops() == access_token_service.write_ops(),
            r.providers() == token_provider_manager@,
    {
        Self { refresh_token_repository, access_token_service, token_provider_manager }
    }

    /// Issues tokens for a device through a vendor account, as one
    /// conceptual transaction: resolve the provider, validate the serial
    /// number, authenticate, then rotate both persisted rows by
    /// delete-then-insert.
    ///
    /// An unregistered provider identity and an empty serial number are
    /// terminal and leave every store and adapter untouched. A rejected
    /// authentication is terminal and performs no storage write. After a
    /// successful authentication the old rows are retired best-effort and
    /// the new rows installed; only a failure of the refresh-token insert
    /// is reported, as the store's own error, with the rows left in the
    /// documented degraded state.
    pub fn create_refresh_token(
        &mut self,
        username: String,
        password: String,
        serial_number: &str,
        provider_type: ProviderType,
    ) -> (r: Result<RefreshToken, CreateRefreshTokenError>)
        ensures
            !old(self).providers().contains_key(provider_type) ==> (r matches Err(
                CreateRefreshTokenError::ProviderNotFound,
            )) && *final(self) == *old(self),
            old(self).providers().contains_key(provider_type) && trim_spec(serial_number@).len()
                == 0 ==> (r matches Err(CreateRefreshTokenError::InvalidSerialNumber))
                && *final(self) == *old(self),
            old(self).providers().contains_key(provider_type) && trim_spec(serial_number@).len()
                > 0 ==> {
                let prov_old = old(self).providers()[provider_type];
                let prov_new = final(self).providers()[provider_type];
                &&& final(self).providers() == old(self).providers().insert(
                    provider_type,
                    prov_new,
                )
                &&& prov_new.auth_attempts() == prov_old.auth_attempts().push(
                    (username@, password@),
                )
                &&& (match r {
                    Ok(t) => {
                        &&& prov_new.issued() == prov_old.issued().push(
                            prov_new.issued().last(),
                        )
                        &&& t@.token == prov_new.issued().last().1
                        &&& t@.serial_number == trim_spec(serial_number@)
                        &&& !old(self).refresh_issued_ids().contains(t@.id)
                        &&& final(self).refresh_issued_ids().contains(t@.id)
                        &&& refresh_rows_rotated(
                            old(self).refresh_rows(),
                            final(self).refresh_rows(),
                            trim_spec(serial_number@),
                            t@,
                        )
                        &&& access_rows_rotated(
                            old(self).access_rows(),
                            final(self).access_rows(),
                            trim_spec(serial_number@),
                            prov_new.issued().last().0,
                        )
                        &&& final(self).refresh_write_ops() == old(self).refresh_write_ops() + 2
                        &&& final(self).access_write_ops() == old(self).access_write_ops() + 2
                    },
                    Err(e) => {
                        &&& !(e is ProviderNotFound)
                        &&& !(e is InvalidSerialNumber)
                        &&& (e is AuthenticationFailed ==> {
                            &&& prov_new.issued() == prov_old.issued()
                            &&& final(self).refresh_rows() == old(self).refresh_rows()
                            &&& final(self).access_rows() == old(self).access_rows()
                            &&& final(self).refresh_write_ops() == old(self).refresh_write_ops()
                            &&& final(self).access_write_ops() == old(self).access_write_ops()
                        })
                        &&& (!(e is AuthenticationFailed) ==> {
                            &&& prov_new.issued() == prov_old.issued().push(
                                prov_new.issued().last(),
                            )
                            &&& refresh_rows_retired(
                                old(self).refresh_rows(),
                                final(self).refresh_rows(),
                                trim_spec(serial_number@),
                            )
                            &&& access_rows_rotated(
                                old(self).access_rows(),
                                final(self).access_rows(),
                                trim_spec(serial_number@),
                                prov_new.issued().last().0,
                            )
                            &&& final(self).refresh_write_ops() == old(self).refresh_write_ops()
                                + 2
                            &&& final(self).access_write_ops() == old(self).access_write_ops() + 2
                        })
                    },
                })
            },
            old(self).refresh_issued_ids().subset_of(final(self).refresh_issued_ids()),
    {
        // Step 1: resolve the provider identity; absence is terminal, with
        // no side effect anywhere.
        if self.token_provider_manager.get_provider(&provider_type).is_none() {
            return Err(CreateRefreshTokenError::ProviderNotFound);
        }
        // Step 2: validate the serial number before any round-trip.
        let serial = match SerialNumber::new(serial_number) {
            Ok(s) => s,
            Err(_) => {
                return Err(CreateRefreshTokenError::InvalidSerialNumber);
            },
        };
        // Step 3: the single external network round-trip of this flow.
        let tokens = match self.token_provider_manager.authenticate_with(
            &provider_type,
            username,
            password,
        ) {
            None => unreached(),
            Some(Err(_)) => {
                return Err(CreateRefreshTokenError::AuthenticationFailed);
            },
            Some(Ok(t)) => t,
        };
        // Step 4: retire the old rows, best-effort; a failed delete is not
        // terminal.
        let ghost refresh_rows0 = self.refresh_token_repository.rows();
        let ghost access_rows0 = self.access_token_service.rows();
        let _ = self.access_token_service.delete_by_serial_number(serial.as_str());
        let _ = self.refresh_token_repository.delete_by_serial_number(serial.as_str());
        proof {
            assert(refresh_rows_retired(
                refresh_rows0,
                self.refresh_token_repository.rows(),
                serial@,
            ));
            assert(access_rows_retired(access_rows0, self.access_token_service.rows(), serial@));
        }
        let ghost access_mid = self.access_token_service.rows();
        // Step 5: install the new rows; the access-token side is
        // best-effort, the refresh-token side decides the outcome.
        let _ = self.access_token_service.create_access_token(&tokens.access_token, &serial);
        proof {
            assert(access_rows_rotated(
                access_rows0,
                self.access_token_service.rows(),
                serial@,
                tokens.access_token@,
            ));
        }
        self.refresh_token_repository.create_refresh_token(&tokens.refresh_token, &serial)
    }

    /// Direct read of the refresh-token row stored under this serial
    /// number; `NotFound` exactly when no such row exists. No side effects.
    pub fn find_by_serial_number(&self, serial_number: &str) -> (r: Result<
        RefreshToken,
        FindRefreshTokenError,
    >)
        ensures
            (match r {
                Ok(t) => self.refresh_rows().contains(t@) && t@.serial_number == serial_number@,
                Err(_) => forall|i: int|
                    0 <= i < self.refresh_rows().len() ==> self.refresh_rows()[i].serial_number
                        != serial_number@,
            }),
    {
        self.refresh_token_repository.find_by_serial_number(serial_number)
    }
}

impl<R, P, S> RefreshTokenService for RefreshTokenServiceImpl<R, P, S> where
    R: RefreshTokenRepository,
    P: ProviderTokenService,
    S: AccessTokenService,
 {
    fn create_refresh_token(
        &mut self,
        username: String,
        password: String,
        serial_number: &str,
        provider_type: ProviderType,
    ) -> Result<RefreshToken, CreateRefreshTokenError> {
        RefreshTokenServiceImpl::create_refresh_token(
            self,
            username,
            password,
            serial_number,
            provider_type,
        )
    }

    fn find_by_serial_number(&self, serial_number: &str) -> Result<
        RefreshToken,
        FindRefreshTokenError,
    > {
        RefreshTokenServiceImpl::find_by_serial_number(self, serial_number)
    }
}

/// Application-facing access-token service: forwards to the repository it
/// owns, which carries the store's state.
#[derive(Debug)]
pub struct AccessTokenServiceImpl<R> where R: AccessTokenRepository {
    access_token_repository: R,
}

impl<R> AccessTokenServiceImpl<R> where R: AccessTokenRepository {
    pub fn new(access_token_repository: R) -> (r: Self)
        ensures
            r.rows() == access_token_repository.rows(),
            r.issued_ids() == access_token_repository.issued_ids(),
            r.write_ops() == access_token_repository.write_ops(),
    {
        Self { access_token_repository }
    }
}

impl<R> AccessTokenService for AccessTokenServiceImpl<R> where R: AccessTokenRepository {
    closed spec fn rows(&self) -> Seq<AccessTokenV> {
        self.access_token_repository.rows()
    }

    closed spec fn issued_ids(&self) -> Set<int> {
        self.access_token_repository.issued_ids()
    }

    closed spec fn write_ops(&self) -> nat {
        self.access_token_repository.write_ops()
    }

    fn create_access_token(&mut self, token: &Token, serial_number: &SerialNumber) -> (r: Result<
        AccessToken,
        AccessTokenError,
    >) {
        self.access_token_repository.create_access_token(token, serial_number)
    }

    fn delete_by_serial_number(&mut self, serial_number: &str) -> (r: Result<
        (),
        AccessTokenError,
    >) {
        self.access_token_repository.delete_by_serial_number(serial_number)
    }
}

} // verus!
