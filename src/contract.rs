use vstd::prelude::*;

use crate::account::AccountId;
use crate::signature::{signature_valid, verify_signature};

verus! {

/// Why a registration was refused.
#[derive(Clone, Copy, Debug, PartialEq, Eq, Structural)]
pub enum Error {
    /// The account already holds a registration.
    AlreadyRegistered,
    /// The signature does not verify for the message and the account's key.
    InvalidSignature,
}

/// What a registration attempt by `caller` returns when the registered
/// accounts are `registered` and the signature check came out as
/// `signature_ok`. Registration is checked first.
pub open spec fn register_result(registered: Set<AccountId>, caller: AccountId, signature_ok: bool) -> Result<(), Error> {
    if registered.contains(caller) {
        Err(Error::AlreadyRegistered)
    } else if !signature_ok {
        Err(Error::InvalidSignature)
    } else {
        Ok(())
    }
}

/// The registered accounts after that attempt: the caller is added on
/// success, and nothing changes on failure.
pub open spec fn register_state(registered: Set<AccountId>, caller: AccountId, signature_ok: bool) -> Set<AccountId> {
    if register_result(registered, caller, signature_ok) is Ok {
        registered.insert(caller)
    } else {
        registered
    }
}

/// The registration service: the set of accounts that have registered.
pub struct MyContract {
    registrations: Vec<AccountId>,
}

impl View for MyContract {
    type V = Set<AccountId>;

    closed spec fn view(&self) -> Set<AccountId> {
        self.registrations@.to_set()
    }
}

impl MyContract {
    /// A service with no account registered.
    pub fn new() -> (r: MyContract)
        ensures
            r@ == Set::<AccountId>::empty(),
    {
        let r = MyContract { registrations: Vec::new() };
        assert(r@ =~= Set::<AccountId>::empty());
        r
    }

    /// The same as `new`.
    pub fn default() -> (r: MyContract)
        ensures
            r@ == Set::<AccountId>::empty(),
    {
        MyContract::new()
    }

    /// Whether `account` has registered.
    pub fn is_registered(&self, account: AccountId) -> (r: bool)
        ensures
            r == self@.contains(account),
    {
        let mut i: usize = 0;
        while i < self.registrations.len()
            invariant
                0 <= i <= self.registrations@.len(),
                forall|k: int| 0 <= k < i ==> self.registrations@[k] != account,
            decreases self.registrations@.len() - i,
        {
            if self.registrations[i].same_as(&account) {
                return true;
            }
            i = i + 1;
        }
        false
    }

    /// Registers `caller` given the outcome of its signature check: refused
    /// with `AlreadyRegistered` if it is registered, with `InvalidSignature`
    /// if the check failed, and recorded otherwise.
    pub fn register_if_valid(&mut self, caller: AccountId, signature_ok: bool) -> (r: Result<(), Error>)
        ensures
            r == register_result(old(self)@, caller, signature_ok),
            final(self)@ == register_state(old(self)@, caller, signature_ok),
            old(self)@.subset_of(final(self)@),
    {
        if self.is_registered(caller) {
            return Err(Error::AlreadyRegistered);
        }
        if !signature_ok {
            return Err(Error::InvalidSignature);
        }
        self.registrations.push(caller);
        proof {
            old(self).registrations@.lemma_push_to_set_commute(caller);
        }
        Ok(())
    }

    /// Registers `caller`, who presents `signature` as an sr25519 signature
    /// over `message` made with its own key. An account that is already
    /// registered is refused before any signature work.
    pub fn register_with_signature(&mut self, caller: AccountId, message: Vec<u8>, signature: Vec<u8>) -> (r: Result<(), Error>)
        ensures
            r == register_result(old(self)@, caller, signature_valid(caller, message@, signature@)),
            final(self)@ == register_state(old(self)@, caller, signature_valid(caller, message@, signature@)),
            old(self)@.subset_of(final(self)@),
    {
        if self.is_registered(caller) {
            return Err(Error::AlreadyRegistered);
        }
        let ok = verify_signature(&caller, message.as_slice(), signature.as_slice());
        self.register_if_valid(caller, ok)
    }
}

} // verus!
