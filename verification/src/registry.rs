//! Provider registries: read-mostly directories from a provider identity to
//! one capability implementation. Two independent directories exist, one
//! for authentication adapters and one for device-command adapters, so a
//! vendor may offer either capability without the other.
//!
//! A directory is a vector of (identity, adapter) entries; a later entry
//! shadows an earlier one with the same identity, so registration appends
//! and its view is plain map insertion. Because adapters are stateful, the
//! directories also offer dispatch methods that run one capability call on
//! the resolved entry in place.

use vstd::prelude::*;

use crate::ams::AmsError;
use crate::ports::ProviderAmsService;
use crate::ports::ProviderTokenService;
use crate::ports::ProviderType;
use crate::tokens::CreateTokensError;
use crate::tokens::Tokens;

verus! {

/// The directory a sequence of (identity, adapter) entries stands for;
/// a later entry overwrites an earlier one with the same identity.
pub open spec fn directory_of<P>(entries: Seq<(ProviderType, P)>) -> Map<ProviderType, P>
    decreases entries.len(),
{
    if entries.len() == 0 {
        Map::empty()
    } else {
        directory_of(entries.drop_last()).insert(entries.last().0, entries.last().1)
    }
}

proof fn lemma_directory_contains<P>(entries: Seq<(ProviderType, P)>, key: ProviderType)
    ensures
        directory_of(entries).contains_key(key) <==> (exists|i: int|
            0 <= i < entries.len() && entries[i].0 == key),
    decreases entries.len(),
{
    if entries.len() > 0 {
        let prefix = entries.drop_last();
        lemma_directory_contains(prefix, key);
        if entries.last().0 == key {
            assert(entries[entries.len() - 1].0 == key);
        } else {
            if directory_of(entries).contains_key(key) {
                let i = choose|i: int| 0 <= i < prefix.len() && prefix[i].0 == key;
                assert(entries[i].0 == key);
            }
            if exists|i: int| 0 <= i < entries.len() && entries[i].0 == key {
                let i = choose|i: int| 0 <= i < entries.len() && entries[i].0 == key;
                assert(i < entries.len() - 1);
                assert(prefix[i].0 == key);
            }
        }
    }
}

/// The entry at `i` decides the directory for its key when no later entry
/// carries the same key.
proof fn lemma_directory_last_match<P>(entries: Seq<(ProviderType, P)>, i: int)
    requires
        0 <= i < entries.len(),
        forall|j: int| i < j < entries.len() ==> entries[j].0 != entries[i].0,
    ensures
        directory_of(entries).contains_key(entries[i].0),
        directory_of(entries)[entries[i].0] == entries[i].1,
    decreases entries.len(),
{
    if i < entries.len() - 1 {
        let prefix = entries.drop_last();
        assert(prefix[i] == entries[i]);
        lemma_directory_last_match(prefix, i);
        assert(entries.last().0 != entries[i].0);
    }
}

/// Replacing the deciding entry for a key replaces the key's image in the
/// directory and nothing else.
proof fn lemma_directory_update<P>(entries: Seq<(ProviderType, P)>, i: int, value: P)
    requires
        0 <= i < entries.len(),
        forall|j: int| i < j < entries.len() ==> entries[j].0 != entries[i].0,
    ensures
        directory_of(entries.update(i, (entries[i].0, value))) == directory_of(entries).insert(
            entries[i].0,
            value,
        ),
    decreases entries.len(),
{
    let key = entries[i].0;
    let updated = entries.update(i, (key, value));
    let prefix = entries.drop_last();
    if i == entries.len() - 1 {
        assert(updated.drop_last() =~= prefix);
        assert(updated.last() == (key, value));
        assert(directory_of(prefix).insert(key, entries.last().1).insert(key, value)
            =~= directory_of(prefix).insert(key, value));
    } else {
        assert(prefix[i] == entries[i]);
        lemma_directory_update(prefix, i, value);
        assert(updated.drop_last() =~= prefix.update(i, (key, value)));
        assert(updated.last() == entries.last());
        let last_key = entries.last().0;
        let last_value = entries.last().1;
        assert(last_key != key);
        assert(directory_of(prefix).insert(key, value).insert(last_key, last_value)
            =~= directory_of(prefix).insert(last_key, last_value).insert(key, value));
    }
}

/// Directory of authentication adapters, keyed by provider identity.
#[derive(Debug)]
pub struct TokenProviderManager<P> {
    providers: Vec<(ProviderType, P)>,
}

impl<P> View for TokenProviderManager<P> {
    type V = Map<ProviderType, P>;

    closed spec fn view(&self) -> Map<ProviderType, P> {
        directory_of(self.providers@)
    }
}

impl<P> TokenProviderManager<P> where P: ProviderTokenService {
    /// An empty directory.
    pub fn new() -> (r: Self)
        ensures
            r@ == Map::<ProviderType, P>::empty(),
    {
        Self { providers: Vec::new() }
    }

    /// The index of the entry that decides `provider_type`: the latest one
    /// carrying it, if any entry does.
    fn index_of(&self, provider_type: &ProviderType) -> (r: Option<usize>)
        ensures
            (match r {
                Some(i) => {
                    &&& i < self.providers@.len()
                    &&& self.providers@[i as int].0 == *provider_type
                    &&& forall|j: int|
                        i < j < self.providers@.len() ==> self.providers@[j].0 != *provider_type
                },
                None => forall|k: int|
                    0 <= k < self.providers@.len() ==> self.providers@[k].0 != *provider_type,
            }),
    {
        let n = self.providers.len();
        let mut idx: usize = n;
        while idx > 0
            invariant
                idx <= n,
                n == self.providers@.len(),
                forall|k: int| idx <= k < n ==> self.providers@[k].0 != *provider_type,
            decreases idx,
        {
            idx = idx - 1;
            if self.providers[idx].0 == *provider_type {
                return Some(idx);
            }
        }
        None
    }

    /// Registers the adapter under the identity, overwriting any adapter
    /// registered there before. Meant for process bootstrap.
    pub fn register_provider(&mut self, provider_type: ProviderType, provider: P)
        ensures
            final(self)@ == old(self)@.insert(provider_type, provider),
    {
        self.providers.push((provider_type, provider));
    }

    /// Pure lookup: the adapter registered under the identity, or absence
    /// for an unknown identity. Never constructs a default.
    pub fn get_provider(&self, provider_type: &ProviderType) -> (r: Option<&P>)
        ensures
            (match r {
                Some(p) => self@.contains_key(*provider_type) && *p == self@[*provider_type],
                None => !self@.contains_key(*provider_type),
            }),
    {
        match self.index_of(provider_type) {
            Some(i) => {
                proof {
                    lemma_directory_last_match(self.providers@, i as int);
                }
                Some(&self.providers[i].1)
            },
            None => {
                proof {
                    lemma_directory_contains(self.providers@, *provider_type);
                }
                None
            },
        }
    }

    /// Resolves the identity and runs one authentication round-trip on the
    /// adapter in place; `None` when the identity is unregistered, in which
    /// case no adapter is called and nothing changes.
    pub fn authenticate_with(
        &mut self,
        provider_type: &ProviderType,
        username: String,
        password: String,
    ) -> (r: Option<Result<Tokens, CreateTokensError>>)
        ensures
            (match r {
                None => !old(self)@.contains_key(*provider_type) && final(self)@ == old(self)@,
                Some(res) => {
                    &&& old(self)@.contains_key(*provider_type)
                    &&& final(self)@ == old(self)@.insert(
                        *provider_type,
                        final(self)@[*provider_type],
                    )
                    &&& final(self)@[*provider_type].auth_attempts() == old(
                        self,
                    )@[*provider_type].auth_attempts().push((username@, password@))
                    &&& (match res {
                        Ok(t) => final(self)@[*provider_type].issued() == old(
                            self,
                        )@[*provider_type].issued().push((t.access_token@, t.refresh_token@)),
                        Err(_) => final(self)@[*provider_type].issued() == old(
                            self,
                        )@[*provider_type].issued(),
                    })
                },
            }),
    {
        match self.index_of(provider_type) {
            Some(i) => {
                proof {
                    lemma_directory_last_match(self.providers@, i as int);
                }
                let ghost entries0 = self.providers@;
                let slot = &mut self.providers[i];
                let res = slot.1.authenticate(username, password);
                proof {
                    assert(self.providers@ =~= entries0.update(
                        i as int,
                        (entries0[i as int].0, self.providers@[i as int].1),
                    ));
                    lemma_directory_update(entries0, i as int, self.providers@[i as int].1);
                    lemma_directory_last_match(self.providers@, i as int);
                }
                Some(res)
            },
            None => {
                proof {
                    lemma_directory_contains(self.providers@, *provider_type);
                }
                None
            },
        }
    }
}

impl<P> Default for TokenProviderManager<P> where P: ProviderTokenService {
    fn default() -> (r: Self)
        ensures
            r@ == Map::<ProviderType, P>::empty(),
    {
        Self::new()
    }
}

/// Directory of device-command adapters, keyed by provider identity.
#[derive(Debug)]
pub struct AmsProviderManager<P> {
    providers: Vec<(ProviderType, P)>,
}

impl<P> View for AmsProviderManager<P> {
    type V = Map<ProviderType, P>;

    closed spec fn view(&self) -> Map<ProviderType, P> {
        directory_of(self.providers@)
    }
}

impl<P> AmsProviderManager<P> where P: ProviderAmsService {
    /// An empty directory.
    pub fn new() -> (r: Self)
        ensures
            r@ == Map::<ProviderType, P>::empty(),
    {
        Self { providers: Vec::new() }
    }

    /// The index of the entry that decides `provider_type`: the latest one
    /// carrying it, if any entry does.
    fn index_of(&self, provider_type: &ProviderType) -> (r: Option<usize>)
        ensures
            (match r {
                Some(i) => {
                    &&& i < self.providers@.len()
                    &&& self.providers@[i as int].0 == *provider_type
                    &&& forall|j: int|
                        i < j < self.providers@.len() ==> self.providers@[j].0 != *provider_type
                },
                None => forall|k: int|
                    0 <= k < self.providers@.len() ==> self.providers@[k].0 != *provider_type,
            }),
    {
        let n = self.providers.len();
        let mut idx: usize = n;
        while idx > 0
            invariant
                idx <= n,
                n == self.providers@.len(),
                forall|k: int| idx <= k < n ==> self.providers@[k].0 != *provider_type,
            decreases idx,
        {
            idx = idx - 1;
            if self.providers[idx].0 == *provider_type {
                return Some(idx);
            }
        }
        None
    }

    /// Registers the adapter under the identity, overwriting any adapter
    /// registered there before. Meant for process bootstrap.
    pub fn register_provider(&mut self, provider_type: ProviderType, provider: P)
        ensures
            final(self)@ == old(self)@.insert(provider_type, provider),
    {
        self.providers.push((provider_type, provider));
    }

    /// Pure lookup: the adapter registered under the identity, or absence
    /// for an unknown identity. Never constructs a default.
    pub fn get_provider(&self, provider_type: &ProviderType) -> (r: Option<&P>)
        ensures
            (match r {
                Some(p) => self@.contains_key(*provider_type) && *p == self@[*provider_type],
                None => !self@.contains_key(*provider_type),
            }),
    {
        match self.index_of(provider_type) {
            Some(i) => {
                proof {
                    lemma_directory_last_match(self.providers@, i as int);
                }
                Some(&self.providers[i].1)
            },
            None => {
                proof {
                    lemma_directory_contains(self.providers@, *provider_type);
                }
                None
            },
        }
    }

    /// Resolves the identity and runs one command delivery on the adapter
    /// in place; `None` when the identity is unregistered, in which case no
    /// adapter is called and nothing changes.
    pub fn refresh_rfid_with(
        &mut self,
        provider_type: &ProviderType,
        tray_id: String,
        device_id: String,
        username: String,
        password: String,
    ) -> (r: Option<Result<(), AmsError>>)
        ensures
            (match r {
                None => !old(self)@.contains_key(*provider_type) && final(self)@ == old(self)@,
                Some(res) => {
                    &&& old(self)@.contains_key(*provider_type)
                    &&& final(self)@ == old(self)@.insert(
                        *provider_type,
                        final(self)@[*provider_type],
                    )
                    &&& final(self)@[*provider_type].sent() == old(
                        self,
                    )@[*provider_type].sent().push((tray_id@, device_id@))
                    &&& (res matches Err(e) ==> e is CommandFailed)
                },
            }),
    {
        match self.index_of(provider_type) {
            Some(i) => {
                proof {
                    lemma_directory_last_match(self.providers@, i as int);
                }
                let ghost entries0 = self.providers@;
                let slot = &mut self.providers[i];
                let res = slot.1.refresh_rfid(tray_id, device_id, username, password);
                proof {
                    assert(self.providers@ =~= entries0.update(
                        i as int,
                        (entries0[i as int].0, self.providers@[i as int].1),
                    ));
                    lemma_directory_update(entries0, i as int, self.providers@[i as int].1);
                    lemma_directory_last_match(self.providers@, i as int);
                }
                Some(res)
            },
            None => {
                proof {
                    lemma_directory_contains(self.providers@, *provider_type);
                }
                None
            },
        }
    }
}

impl<P> Default for AmsProviderManager<P> where P: ProviderAmsService {
    fn default() -> (r: Self)
        ensures
            r@ == Map::<ProviderType, P>::empty(),
    {
        Self::new()
    }
}

} // verus!
