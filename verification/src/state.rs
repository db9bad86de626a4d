//! The persistent store and the three fields the contract keeps in it.
//!
//! The store is the host's key-value storage, reached through
//! `cw_storage_plus::Item`. To the proofs it is a map from key bytes to value
//! bytes; what a value's bytes decode to is named, not computed. On top of
//! that stand the typed fields: the counter, the minimal donation, the owner.

use vstd::prelude::*;
use vstd::string::*;
use crate::error::ContractError;
use crate::msg::{Coin, CoinView};

verus! {

/// A handle on the host's storage for the length of one call.
///
/// Nothing of its inside is visible to the proofs: what it holds is
/// `contents`.
///
/// The storage behind it is taken to be a key-value map that keeps what is
/// set: `set` returns, and `get` then answers, under that key, the value
/// set last, and under every other key what it answered before. Everything
/// this module claims of a write rests on that. A storage lent only for
/// reading may refuse to write, as long as the handle on it is never used as
/// `&mut`.
#[verifier::external_body]
pub struct Store<'a> {
    inner: &'a mut dyn cosmwasm_std::Storage,
}

/// What the storage holds: for each key that is set, its value.
pub uninterp spec fn contents(store: Store) -> Map<Seq<u8>, Seq<u8>>;

/// What `cosmwasm_std::from_slice::<u64>` makes of `bytes`: the number, or
/// the error it reports.
pub uninterp spec fn decoded_u64(bytes: Seq<u8>) -> Result<u64, cosmwasm_std::StdError>;

/// What `cosmwasm_std::from_slice::<cosmwasm_std::Coin>` makes of `bytes`:
/// the coin's denomination and amount, or the error it reports.
pub uninterp spec fn decoded_coin(bytes: Seq<u8>) -> Result<CoinView, cosmwasm_std::StdError>;

/// What `cosmwasm_std::from_slice::<cosmwasm_std::Addr>` makes of `bytes`:
/// the address's text, or the error it reports.
pub uninterp spec fn decoded_addr(bytes: Seq<u8>) -> Result<Seq<char>, cosmwasm_std::StdError>;

impl<'a> Store<'a> {
    /// Wraps the storage that the host lends for a call. Nothing is claimed
    /// of what it holds.
    #[verifier::external_body]
    pub fn new<S: cosmwasm_std::Storage>(storage: &'a mut S) -> (store: Store<'a>) {
        Store { inner: storage }
    }
}

/// `cw_storage_plus::Item::<u64>::may_load`, of the item made with `key`.
///
/// Claims what its source shows: with nothing under the key's bytes it
/// answers `Ok(None)`; otherwise it hands the value's bytes to `from_slice`
/// and answers with the number, or with the error.
#[verifier::external_body]
fn item_may_load_u64(store: &Store, key: &str) -> (r: Result<Option<u64>, cosmwasm_std::StdError>)
    ensures
        match r {
            Ok(Some(v)) => contents(*store).contains_key(key.spec_bytes())
                && (decoded_u64(contents(*store)[key.spec_bytes()]) matches Ok(d) && d == v),
            Ok(None) => !contents(*store).contains_key(key.spec_bytes()),
            Err(e) => contents(*store).contains_key(key.spec_bytes())
                && (decoded_u64(contents(*store)[key.spec_bytes()]) matches Err(d) && d == e),
        },
{
    cw_storage_plus::Item::<u64>::new(key).may_load(store.inner)
}

/// `cw_storage_plus::Item::<u64>::save`, of the item made with `key`.
///
/// Claims what its source shows. It encodes the value, sets the bytes under
/// the key's bytes and answers `Ok`; the only step that can fail is the
/// encoding, and the encoder has no failing path for a number. The bytes
/// decode to `value`, and no other key has changed.
#[verifier::external_body]
fn item_save_u64(store: &mut Store, key: &str, value: u64) -> (r: Result<(), cosmwasm_std::StdError>)
    ensures
        r is Ok,
        r is Ok ==> {
            &&& contents(*final(store)) == contents(*old(store)).insert(
                key.spec_bytes(),
                contents(*final(store))[key.spec_bytes()],
            )
            &&& decoded_u64(contents(*final(store))[key.spec_bytes()]) matches Ok(d)
            &&& d == value
        },
{
    cw_storage_plus::Item::<u64>::new(key).save(store.inner, &value)
}

/// `cw_storage_plus::Item::<cosmwasm_std::Coin>::may_load`, of the item made
/// with `key`, the coin handed out as a `Coin` of this crate.
///
/// Claims what its source shows: with nothing under the key's bytes it
/// answers `Ok(None)`; otherwise it hands the value's bytes to `from_slice`
/// and answers with the coin, or with the error.
#[verifier::external_body]
fn item_may_load_coin(store: &Store, key: &str) -> (r: Result<
    Option<Coin>,
    cosmwasm_std::StdError,
>)
    ensures
        match r {
            Ok(Some(c)) => contents(*store).contains_key(key.spec_bytes())
                && (decoded_coin(contents(*store)[key.spec_bytes()]) matches Ok(d) && d == c@),
            Ok(None) => !contents(*store).contains_key(key.spec_bytes()),
            Err(e) => contents(*store).contains_key(key.spec_bytes())
                && (decoded_coin(contents(*store)[key.spec_bytes()]) matches Err(d) && d == e),
        },
{
    cw_storage_plus::Item::<cosmwasm_std::Coin>::new(key)
        .may_load(store.inner)
        .map(|loaded| loaded.map(|c| Coin { denom: c.denom, amount: c.amount.u128() }))
}

/// `cw_storage_plus::Item::<cosmwasm_std::Coin>::save`, of the item made
/// with `key`, of the coin with `coin`'s denomination and amount.
///
/// Claims what its source shows. It encodes the coin, sets the bytes under
/// the key's bytes and answers `Ok`; the only step that can fail is the
/// encoding, and the encoder has no failing path for a struct of a text and
/// an amount written as text. The bytes decode to that coin, and no other
/// key has changed.
#[verifier::external_body]
fn item_save_coin(store: &mut Store, key: &str, coin: &Coin) -> (r: Result<(), cosmwasm_std::StdError>)
    ensures
        r is Ok,
        r is Ok ==> {
            &&& contents(*final(store)) == contents(*old(store)).insert(
                key.spec_bytes(),
                contents(*final(store))[key.spec_bytes()],
            )
            &&& decoded_coin(contents(*final(store))[key.spec_bytes()]) matches Ok(d)
            &&& d == coin@
        },
{
    let coin = cosmwasm_std::Coin::new(coin.amount, coin.denom.clone());
    cw_storage_plus::Item::<cosmwasm_std::Coin>::new(key).save(store.inner, &coin)
}

/// `cw_storage_plus::Item::<cosmwasm_std::Addr>::may_load`, of the item made
/// with `key`, the address handed out as its text.
///
/// Claims what its source shows: with nothing under the key's bytes it
/// answers `Ok(None)`; otherwise it hands the value's bytes to `from_slice`
/// and answers with the address, or with the error.
#[verifier::external_body]
fn item_may_load_addr(store: &Store, key: &str) -> (r: Result<
    Option<String>,
    cosmwasm_std::StdError,
>)
    ensures
        match r {
            Ok(Some(a)) => contents(*store).contains_key(key.spec_bytes())
                && (decoded_addr(contents(*store)[key.spec_bytes()]) matches Ok(d) && d == a@),
            Ok(None) => !contents(*store).contains_key(key.spec_bytes()),
            Err(e) => contents(*store).contains_key(key.spec_bytes())
                && (decoded_addr(contents(*store)[key.spec_bytes()]) matches Err(d) && d == e),
        },
{
    cw_storage_plus::Item::<cosmwasm_std::Addr>::new(key)
        .may_load(store.inner)
        .map(|loaded| loaded.map(|a| a.into_string()))
}

/// `cw_storage_plus::Item::<cosmwasm_std::Addr>::save`, of the item made
/// with `key`, of the address whose text is `address`.
///
/// Claims what its source shows. It encodes the address, sets the bytes
/// under the key's bytes and answers `Ok`; the only step that can fail is
/// the encoding, and the encoder has no failing path for a text. The bytes
/// decode to that address, and no other key has changed.
#[verifier::external_body]
fn item_save_addr(store: &mut Store, key: &str, address: &str) -> (r: Result<(), cosmwasm_std::StdError>)
    ensures
        r is Ok,
        r is Ok ==> {
            &&& contents(*final(store)) == contents(*old(store)).insert(
                key.spec_bytes(),
                contents(*final(store))[key.spec_bytes()],
            )
            &&& decoded_addr(contents(*final(store))[key.spec_bytes()]) matches Ok(d)
            &&& d == address@
        },
{
    let address = cosmwasm_std::Addr::unchecked(address);
    cw_storage_plus::Item::<cosmwasm_std::Addr>::new(key).save(store.inner, &address)
}

/// The key under which the counter is kept.
pub open spec fn counter_key() -> Seq<u8> {
    "counter".spec_bytes()
}

/// The key under which the minimal donation is kept.
pub open spec fn minimal_donation_key() -> Seq<u8> {
    "minimal_donation".spec_bytes()
}

/// The key under which the owner is kept.
pub open spec fn owner_key() -> Seq<u8> {
    "owner".spec_bytes()
}

/// What the store has for one field.
pub enum Slot<T> {
    /// Nothing was ever saved under the field's key.
    Absent,
    /// Something is under the key that does not decode to the field's type;
    /// the decoder's error.
    Corrupt(cosmwasm_std::StdError),
    /// The field's value.
    Holds(T),
}

/// What reading a field returns: its value, `StorageUninitialized` where
/// nothing was saved, the decoder's error where the bytes do not decode.
pub open spec fn loaded<T>(slot: Slot<T>) -> Result<T, ContractError> {
    match slot {
        Slot::Holds(v) => Ok(v),
        Slot::Absent => Err(ContractError::StorageUninitialized),
        Slot::Corrupt(e) => Err(ContractError::Host(e)),
    }
}

/// The counter, as the store has it.
pub open spec fn counter(store: Store) -> Slot<u64> {
    if !contents(store).contains_key(counter_key()) {
        Slot::Absent
    } else {
        match decoded_u64(contents(store)[counter_key()]) {
            Ok(v) => Slot::Holds(v),
            Err(e) => Slot::Corrupt(e),
        }
    }
}

/// The minimal donation, as the store has it.
pub open spec fn minimal_donation(store: Store) -> Slot<CoinView> {
    if !contents(store).contains_key(minimal_donation_key()) {
        Slot::Absent
    } else {
        match decoded_coin(contents(store)[minimal_donation_key()]) {
            Ok(c) => Slot::Holds(c),
            Err(e) => Slot::Corrupt(e),
        }
    }
}

/// The owner, as the store has it.
pub open spec fn owner(store: Store) -> Slot<Seq<char>> {
    if !contents(store).contains_key(owner_key()) {
        Slot::Absent
    } else {
        match decoded_addr(contents(store)[owner_key()]) {
            Ok(a) => Slot::Holds(a),
            Err(e) => Slot::Corrupt(e),
        }
    }
}

/// `after` differs from `before` at most under `key`, which `after` has.
pub open spec fn wrote(before: Store, after: Store, key: Seq<u8>) -> bool {
    &&& contents(after).contains_key(key)
    &&& contents(after).remove(key) == contents(before).remove(key)
}

/// A write under one key leaves every other key as it was.
pub proof fn lemma_wrote_elsewhere(before: Store, after: Store, key: Seq<u8>)
    requires
        wrote(before, after, key),
    ensures
        forall|k: Seq<u8>|
            k != key ==> (#[trigger] contents(after).contains_key(k)) == contents(
                before,
            ).contains_key(k),
        forall|k: Seq<u8>|
            k != key && contents(before).contains_key(k) ==> (#[trigger] contents(after)[k])
                == contents(before)[k],
{
    let a = contents(after);
    let b = contents(before);
    assert forall|k: Seq<u8>| k != key implies (#[trigger] a.contains_key(k)) == b.contains_key(
        k,
    ) by {
        assert(a.remove(key).contains_key(k) == a.contains_key(k));
        assert(b.remove(key).contains_key(k) == b.contains_key(k));
    }
    assert forall|k: Seq<u8>| k != key && b.contains_key(k) implies (#[trigger] a[k]) == b[k] by {
        assert(a.remove(key).contains_key(k));
        assert(a.remove(key)[k] == a[k]);
        assert(b.remove(key)[k] == b[k]);
    }
}

/// The three keys are three different keys.
pub proof fn lemma_keys_distinct()
    ensures
        counter_key() != minimal_donation_key(),
        counter_key() != owner_key(),
        minimal_donation_key() != owner_key(),
{
    reveal_strlit("counter");
    reveal_strlit("minimal_donation");
    reveal_strlit("owner");
    is_ascii_spec_bytes("counter");
    is_ascii_spec_bytes("minimal_donation");
    is_ascii_spec_bytes("owner");
    assert(counter_key().len() == 7);
    assert(minimal_donation_key().len() == 16);
    assert(owner_key().len() == 5);
}

impl<'a> Store<'a> {
    /// Reads the counter.
    pub fn load_counter(&self) -> (r: Result<u64, ContractError>)
        ensures
            r == loaded(counter(*self)),
    {
        match item_may_load_u64(self, "counter") {
            Ok(Some(v)) => Ok(v),
            Ok(None) => Err(ContractError::StorageUninitialized),
            Err(e) => Err(ContractError::Host(e)),
        }
    }

    /// Writes the counter, over whatever was there. The write always
    /// succeeds.
    pub fn save_counter(&mut self, value: u64) -> (r: Result<(), ContractError>)
        ensures
            r is Ok,
            counter(*final(self)) == Slot::Holds(value),
            minimal_donation(*final(self)) == minimal_donation(*old(self)),
            owner(*final(self)) == owner(*old(self)),
            wrote(*old(self), *final(self), counter_key()),
    {
        proof {
            lemma_keys_distinct();
        }
        let saved = item_save_u64(self, "counter", value);
        assert(contents(*self).remove(counter_key()) =~= contents(*old(self)).remove(
            counter_key(),
        ));
        match saved {
            Ok(()) => Ok(()),
            Err(e) => Err(ContractError::Host(e)),
        }
    }

    /// Reads the minimal donation.
    pub fn load_minimal_donation(&self) -> (r: Result<Coin, ContractError>)
        ensures
            match (r, loaded(minimal_donation(*self))) {
                (Ok(coin), Ok(c)) => coin@ == c,
                (Err(e), Err(f)) => e == f,
                _ => false,
            },
    {
        match item_may_load_coin(self, "minimal_donation") {
            Ok(Some(c)) => Ok(c),
            Ok(None) => Err(ContractError::StorageUninitialized),
            Err(e) => Err(ContractError::Host(e)),
        }
    }

    /// Writes the minimal donation, over whatever was there. The write
    /// always succeeds.
    pub fn save_minimal_donation(&mut self, coin: &Coin) -> (r: Result<(), ContractError>)
        ensures
            r is Ok,
            minimal_donation(*final(self)) == Slot::Holds(coin@),
            counter(*final(self)) == counter(*old(self)),
            owner(*final(self)) == owner(*old(self)),
            wrote(*old(self), *final(self), minimal_donation_key()),
    {
        proof {
            lemma_keys_distinct();
        }
        let saved = item_save_coin(self, "minimal_donation", coin);
        assert(contents(*self).remove(minimal_donation_key()) =~= contents(*old(self)).remove(
            minimal_donation_key(),
        ));
        match saved {
            Ok(()) => Ok(()),
            Err(e) => Err(ContractError::Host(e)),
        }
    }

    /// Reads the owner.
    pub fn load_owner(&self) -> (r: Result<String, ContractError>)
        ensures
            match (r, loaded(owner(*self))) {
                (Ok(text), Ok(a)) => text@ == a,
                (Err(e), Err(f)) => e == f,
                _ => false,
            },
    {
        match item_may_load_addr(self, "owner") {
            Ok(Some(a)) => Ok(a),
            Ok(None) => Err(ContractError::StorageUninitialized),
            Err(e) => Err(ContractError::Host(e)),
        }
    }

    /// Writes the owner, over whatever was there. The write always
    /// succeeds.
    pub fn save_owner(&mut self, owner_text: &str) -> (r: Result<(), ContractError>)
        ensures
            r is Ok,
            owner(*final(self)) == Slot::Holds(owner_text@),
            counter(*final(self)) == counter(*old(self)),
            minimal_donation(*final(self)) == minimal_donation(*old(self)),
            wrote(*old(self), *final(self), owner_key()),
    {
        proof {
            lemma_keys_distinct();
        }
        let saved = item_save_addr(self, "owner", owner_text);
        assert(contents(*self).remove(owner_key()) =~= contents(*old(self)).remove(owner_key()));
        match saved {
            Ok(()) => Ok(()),
            Err(e) => Err(ContractError::Host(e)),
        }
    }
}

} // verus!
