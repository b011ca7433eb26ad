//! In-memory implementations of the ports: token stores backed by plain
//! vectors and vendor adapters that answer from fixed data. They are
//! verified against the same contracts the production adapters are written
//! for, carry the specification state as real or ghost fields, and serve
//! wherever the lifecycle is exercised without a database or a vendor.

use vstd::prelude::*;
use vstd::string::StringExecFns;

use crate::access_token::AccessToken;
use crate::access_token::AccessTokenError;
use crate::access_token::AccessTokenV;
use crate::ams::AmsError;
use crate::ports::AccessTokenRepository;
use crate::ports::ProviderAmsService;
use crate::ports::ProviderTokenService;
use crate::ports::RefreshTokenRepository;
use crate::refresh_token::CreateRefreshTokenError;
use crate::refresh_token::FindRefreshTokenError;
use crate::refresh_token::RefreshToken;
use crate::refresh_token::RefreshTokenError;
use crate::refresh_token::RefreshTokenV;
use crate::tokens::CreateTokensError;
use crate::tokens::SerialNumber;
use crate::tokens::str_eq;
use crate::tokens::Token;
use crate::tokens::Tokens;

verus! {

/// Relies on time::OffsetDateTime::now_utc and unix_timestamp: the current
/// moment of the system clock as whole seconds since the Unix epoch.
/// Nothing is promised of the value: it depends on the clock alone.
#[verifier::external_body]
fn now_unix() -> i64 {
    time::OffsetDateTime::now_utc().unix_timestamp()
}

/// Refresh-token store backed by a vector. Row identities are drawn from a
/// counter, so an identity is never reused across deletes.
pub struct InMemoryRefreshTokenRepository {
    records: Vec<RefreshToken>,
    next_id: u128,
    ops: Ghost<nat>,
}

impl InMemoryRefreshTokenRepository {
    /// An empty store.
    pub fn new() -> (r: Self)
        ensures
            r.rows() == Seq::<RefreshTokenV>::empty(),
            r.write_ops() == 0nat,
    {
        let r = Self { records: Vec::new(), next_id: 0, ops: Ghost(0nat) };
        proof {
            assert(r.rows() =~= Seq::<RefreshTokenV>::empty());
        }
        r
    }
}

impl RefreshTokenRepository for InMemoryRefreshTokenRepository {
    closed spec fn rows(&self) -> Seq<RefreshTokenV> {
        self.records@.map_values(|t: RefreshToken| t@)
    }

    closed spec fn issued_ids(&self) -> Set<int> {
        Set::new(|i: int| 0 <= i < self.next_id as int)
    }

    closed spec fn write_ops(&self) -> nat {
        self.ops@
    }

    fn create_refresh_token(&mut self, token: &Token, serial_number: &SerialNumber) -> (r: Result<
        RefreshToken,
        CreateRefreshTokenError,
    >) {
        self.ops = Ghost(self.ops@ + 1);
        if self.next_id == u128::MAX {
            return Err(
                CreateRefreshTokenError::DatabaseError(
                    String::from_str("identifier space exhausted"),
                ),
            );
        }
        let id = self.next_id;
        self.next_id = self.next_id + 1;
        let now = now_unix();
        let record = RefreshToken::new(id, serial_number.clone(), token.clone(), now, now);
        let issued = record.clone();
        let ghost rows0 = self.rows();
        self.records.push(record);
        proof {
            assert(self.rows() =~= rows0.push(issued@));
            assert forall|x: int| old(self).issued_ids().contains(x) implies self.issued_ids()
                .contains(x) by {}
        }
        Ok(issued)
    }

    fn find_by_serial_number(&self, serial_number: &str) -> (r: Result<
        RefreshToken,
        FindRefreshTokenError,
    >) {
        let n = self.records.len();
        let mut i: usize = 0;
        while i < n
            invariant
                i <= n,
                n == self.records@.len(),
                forall|k: int|
                    0 <= k < i ==> self.records@[k]@.serial_number != serial_number@,
            decreases n - i,
        {
            if str_eq(self.records[i].serial_number.as_str(), serial_number) {
                let found = self.records[i].clone();
                proof {
                    assert(self.rows()[i as int] == found@);
                    assert(self.rows().contains(found@));
                }
                return Ok(found);
            }
            i += 1;
        }
        proof {
            assert forall|k: int| 0 <= k < self.rows().len() implies self.rows()[k].serial_number
                != serial_number@ by {
                assert(self.rows()[k] == self.records@[k]@);
            }
        }
        Err(FindRefreshTokenError::NotFound { serial_number: String::from_str(serial_number) })
    }

    fn delete_by_serial_number(&mut self, serial_number: &str) -> (r: Result<
        (),
        RefreshTokenError,
    >)
        ensures
            r is Ok,
    {
        self.ops = Ghost(self.ops@ + 1);
        let n = self.records.len();
        let mut kept: Vec<RefreshToken> = Vec::new();
        let ghost rows0 = self.rows();
        let mut i: usize = 0;
        proof {
            assert(rows0.take(0).filter(
                |row: RefreshTokenV| row.serial_number != serial_number@,
            ) =~= kept@.map_values(|t: RefreshToken| t@)) by {
                reveal(Seq::filter);
                assert(rows0.take(0) =~= Seq::<RefreshTokenV>::empty());
            }
        }
        while i < n
            invariant
                i <= n,
                n == self.records@.len(),
                rows0 == self.records@.map_values(|t: RefreshToken| t@),
                kept@.map_values(|t: RefreshToken| t@) == rows0.take(i as int).filter(
                    |row: RefreshTokenV| row.serial_number != serial_number@,
                ),
            decreases n - i,
        {
            let ghost kept0 = kept@.map_values(|t: RefreshToken| t@);
            if !str_eq(self.records[i].serial_number.as_str(), serial_number) {
                kept.push(self.records[i].clone());
                proof {
                    assert(kept@.map_values(|t: RefreshToken| t@) =~= kept0.push(
                        rows0[i as int],
                    ));
                }
            }
            proof {
                reveal(Seq::filter);
                assert(rows0.take(i + 1).drop_last() =~= rows0.take(i as int));
                assert(rows0.take(i + 1).last() == rows0[i as int]);
            }
            i += 1;
        }
        proof {
            assert(rows0.take(n as int) =~= rows0);
        }
        self.records = kept;
        Ok(())
    }
}

/// Access-token store backed by a vector. Row identities are drawn from a
/// counter, so an identity is never reused across deletes.
pub struct InMemoryAccessTokenRepository {
    records: Vec<AccessToken>,
    next_id: u128,
    ops: Ghost<nat>,
}

impl InMemoryAccessTokenRepository {
    /// An empty store.
    pub fn new() -> (r: Self)
        ensures
            r.rows() == Seq::<AccessTokenV>::empty(),
            r.write_ops() == 0nat,
    {
        let r = Self { records: Vec::new(), next_id: 0, ops: Ghost(0nat) };
        proof {
            assert(r.rows() =~= Seq::<AccessTokenV>::empty());
        }
        r
    }

    /// Direct read of the access-token row stored under this serial
    /// number, for callers that fetch the access token separately.
    pub fn find_by_serial_number(&self, serial_number: &str) -> (r: Result<
        AccessToken,
        AccessTokenError,
    >)
        ensures
            (match r {
                Ok(t) => self.rows().contains(t@) && t@.serial_number == serial_number@,
                Err(_) => forall|i: int|
                    0 <= i < self.rows().len() ==> self.rows()[i].serial_number != serial_number@,
            }),
    {
        let n = self.records.len();
        let mut i: usize = 0;
        while i < n
            invariant
                i <= n,
                n == self.records@.len(),
                forall|k: int|
                    0 <= k < i ==> self.records@[k]@.serial_number != serial_number@,
            decreases n - i,
        {
            if str_eq(self.records[i].serial_number.as_str(), serial_number) {
                let found = self.records[i].clone();
                proof {
                    assert(self.rows()[i as int] == found@);
                    assert(self.rows().contains(found@));
                }
                return Ok(found);
            }
            i += 1;
        }
        proof {
            assert forall|k: int| 0 <= k < self.rows().len() implies self.rows()[k].serial_number
                != serial_number@ by {
                assert(self.rows()[k] == self.records@[k]@);
            }
        }
        Err(AccessTokenError::NotFound { serial_number: String::from_str(serial_number) })
    }
}

impl AccessTokenRepository for InMemoryAccessTokenRepository {
    closed spec fn rows(&self) -> Seq<AccessTokenV> {
        self.records@.map_values(|t: AccessToken| t@)
    }

    closed spec fn issued_ids(&self) -> Set<int> {
        Set::new(|i: int| 0 <= i < self.next_id as int)
    }

    closed spec fn write_ops(&self) -> nat {
        self.ops@
    }

    fn create_access_token(&mut self, token: &Token, serial_number: &SerialNumber) -> (r: Result<
        AccessToken,
        AccessTokenError,
    >) {
        self.ops = Ghost(self.ops@ + 1);
        if self.next_id == u128::MAX {
            return Err(AccessTokenError::CreateError);
        }
        let id = self.next_id;
        self.next_id = self.next_id + 1;
        let now = now_unix();
        let record = AccessToken::new(id, serial_number.clone(), token.clone(), now, now);
        let issued = record.clone();
        let ghost rows0 = self.rows();
        self.records.push(record);
        proof {
            assert(self.rows() =~= rows0.push(issued@));
            assert forall|x: int| old(self).issued_ids().contains(x) implies self.issued_ids()
                .contains(x) by {}
        }
        Ok(issued)
    }

    fn delete_by_serial_number(&mut self, serial_number: &str) -> (r: Result<
        (),
        AccessTokenError,
    >)
        ensures
            r is Ok,
    {
        self.ops = Ghost(self.ops@ + 1);
        let n = self.records.len();
        let mut kept: Vec<AccessToken> = Vec::new();
        let ghost rows0 = self.rows();
        let mut i: usize = 0;
        proof {
            assert(rows0.take(0).filter(
                |row: AccessTokenV| row.serial_number != serial_number@,
            ) =~= kept@.map_values(|t: AccessToken| t@)) by {
                reveal(Seq::filter);
                assert(rows0.take(0) =~= Seq::<AccessTokenV>::empty());
            }
        }
        while i < n
            invariant
                i <= n,
                n == self.records@.len(),
                rows0 == self.records@.map_values(|t: AccessToken| t@),
                kept@.map_values(|t: AccessToken| t@) == rows0.take(i as int).filter(
                    |row: AccessTokenV| row.serial_number != serial_number@,
                ),
            decreases n - i,
        {
            let ghost kept0 = kept@.map_values(|t: AccessToken| t@);
            if !str_eq(self.records[i].serial_number.as_str(), serial_number) {
                kept.push(self.records[i].clone());
                proof {
                    assert(kept@.map_values(|t: AccessToken| t@) =~= kept0.push(
                        rows0[i as int],
                    ));
                }
            }
            proof {
                reveal(Seq::filter);
                assert(rows0.take(i + 1).drop_last() =~= rows0.take(i as int));
                assert(rows0.take(i + 1).last() == rows0[i as int]);
            }
            i += 1;
        }
        proof {
            assert(rows0.take(n as int) =~= rows0);
        }
        self.records = kept;
        Ok(())
    }
}

/// Authentication adapter that answers from fixed data: it issues one
/// configured credential pair to any credentials, or rejects every
/// attempt, and records what it was asked.
pub struct FixedTokenProvider {
    access_token: Token,
    refresh_token: Token,
    accept: bool,
    attempts: Vec<(String, String)>,
    issued_log: Ghost<Seq<(Seq<char>, Seq<char>)>>,
}

impl FixedTokenProvider {
    /// The credential pair this adapter issues.
    pub closed spec fn pair(&self) -> (Seq<char>, Seq<char>) {
        (self.access_token@, self.refresh_token@)
    }

    /// Whether this adapter accepts credentials at all.
    pub closed spec fn accepts(&self) -> bool {
        self.accept
    }

    /// An adapter that issues this pair when `accept` holds and rejects
    /// every attempt otherwise.
    pub fn new(access_token: Token, refresh_token: Token, accept: bool) -> (r: Self)
        ensures
            r.pair() == (access_token@, refresh_token@),
            r.accepts() == accept,
            r.auth_attempts() == Seq::<(Seq<char>, Seq<char>)>::empty(),
            r.issued() == Seq::<(Seq<char>, Seq<char>)>::empty(),
    {
        let r = Self {
            access_token,
            refresh_token,
            accept,
            attempts: Vec::new(),
            issued_log: Ghost(Seq::empty()),
        };
        proof {
            assert(r.auth_attempts() =~= Seq::<(Seq<char>, Seq<char>)>::empty());
        }
        r
    }

    /// How many authentication attempts reached this adapter.
    pub fn attempt_count(&self) -> (r: usize)
        ensures
            r == self.auth_attempts().len(),
    {
        self.attempts.len()
    }
}

impl ProviderTokenService for FixedTokenProvider {
    closed spec fn auth_attempts(&self) -> Seq<(Seq<char>, Seq<char>)> {
        self.attempts@.map_values(|p: (String, String)| (p.0@, p.1@))
    }

    closed spec fn issued(&self) -> Seq<(Seq<char>, Seq<char>)> {
        self.issued_log@
    }

    fn authenticate(&mut self, username: String, password: String) -> (r: Result<
        Tokens,
        CreateTokensError,
    >)
        ensures
            final(self).pair() == old(self).pair(),
            final(self).accepts() == old(self).accepts(),
            r is Ok <==> old(self).accepts(),
            (r matches Ok(t) ==> t.access_token@ == old(self).pair().0 && t.refresh_token@
                == old(self).pair().1),
    {
        let ghost attempts0 = self.auth_attempts();
        self.attempts.push((username, password));
        proof {
            assert(self.auth_attempts() =~= attempts0.push(
                (old(self).attempts@.push((username, password))[attempts0.len() as int].0@,
                old(self).attempts@.push((username, password))[attempts0.len() as int].1@),
            ));
        }
        if self.accept {
            let issued = Tokens {
                access_token: self.access_token.clone(),
                refresh_token: self.refresh_token.clone(),
            };
            self.issued_log = Ghost(
                self.issued_log@.push((issued.access_token@, issued.refresh_token@)),
            );
            Ok(issued)
        } else {
            Err(CreateTokensError::ProviderError)
        }
    }
}

/// Device-command adapter that delivers nowhere: it acknowledges or fails
/// every command as configured, and records what it was asked to send.
#[derive(Debug)]
pub struct FixedAmsProvider {
    succeed: bool,
    log: Vec<(String, String)>,
}

impl FixedAmsProvider {
    /// Whether this adapter acknowledges commands.
    pub closed spec fn succeeds(&self) -> bool {
        self.succeed
    }

    /// An adapter that acknowledges every command when `succeed` holds and
    /// fails every command otherwise.
    pub fn new(succeed: bool) -> (r: Self)
        ensures
            r.succeeds() == succeed,
            r.sent() == Seq::<(Seq<char>, Seq<char>)>::empty(),
    {
        let r = Self { succeed, log: Vec::new() };
        proof {
            assert(r.sent() =~= Seq::<(Seq<char>, Seq<char>)>::empty());
        }
        r
    }

    /// How many deliveries were attempted through this adapter.
    pub fn sent_count(&self) -> (r: usize)
        ensures
            r == self.sent().len(),
    {
        self.log.len()
    }

    /// The tray slot and device serial of one attempted delivery.
    pub fn sent_entry(&self, i: usize) -> (r: &(String, String))
        requires
            i < self.sent().len(),
        ensures
            (r.0@, r.1@) == self.sent()[i as int],
    {
        &self.log[i]
    }
}

impl ProviderAmsService for FixedAmsProvider {
    closed spec fn sent(&self) -> Seq<(Seq<char>, Seq<char>)> {
        self.log@.map_values(|p: (String, String)| (p.0@, p.1@))
    }

    fn refresh_rfid(
        &mut self,
        tray_id: String,
        device_id: String,
        username: String,
        password: String,
    ) -> (r: Result<(), AmsError>)
        ensures
            final(self).succeeds() == old(self).succeeds(),
            r is Ok <==> old(self).succeeds(),
    {
        let ghost sent0 = self.sent();
        self.log.push((tray_id, device_id));
        proof {
            assert(self.sent() =~= sent0.push(self.sent()[sent0.len() as int]));
        }
        if self.succeed {
            Ok(())
        } else {
            Err(AmsError::CommandFailed)
        }
    }
}

} // verus!
