use vstd::prelude::*;

use crate::account::{is_valid_account_id, valid_account_id};
use crate::error::SlotError;
use crate::ledger::{balance_in, Ledger};
use crate::payout::{resolve, resolve_play, wins, ONE_NEAR, PAYOUT_MULTIPLIER};

verus! {

/// The mapping after `a` deposits `amount` into `m`, or the error that stops it.
pub open spec fn deposited(m: Map<Seq<char>, u128>, a: Seq<char>, amount: u128) -> Result<
    Map<Seq<char>, u128>,
    SlotError,
> {
    if balance_in(m, a) + amount > u128::MAX {
        Err(SlotError::Overflow)
    } else {
        Ok(m.insert(a, (balance_in(m, a) + amount) as u128))
    }
}

/// The mapping after `a` plays once with the random byte `r`, or the error
/// that stops the play.
pub open spec fn played(m: Map<Seq<char>, u128>, a: Seq<char>, r: u8) -> Result<
    Map<Seq<char>, u128>,
    SlotError,
> {
    match resolve(balance_in(m, a), r) {
        Ok(b) => Ok(m.insert(a, b)),
        Err(e) => Err(e),
    }
}

/// The wagering ledger: its owner and the balance of every account.
pub struct SlotMachine {
    owner_id: String,
    credits: Ledger,
}

impl View for SlotMachine {
    type V = Map<Seq<char>, u128>;

    /// The balance of each account that has an entry.
    closed spec fn view(&self) -> Map<Seq<char>, u128> {
        self.credits@
    }
}

impl SlotMachine {
    pub closed spec fn wf(&self) -> bool {
        self.credits.wf()
    }

    /// The owner recorded when the ledger was set up.
    pub closed spec fn owner(&self) -> Seq<char> {
        self.owner_id@
    }

    /// The owner's account identifier.
    pub fn owner_id(&self) -> (r: &String)
        ensures
            r@ == self.owner(),
    {
        &self.owner_id
    }

    /// Sets up a ledger with no balances, owned by `owner_id`. It fails with
    /// `InvalidOwner` where `owner_id` is not a well-formed account identifier,
    /// and otherwise with `AlreadyInitialized` where the host already holds a
    /// ledger.
    pub fn new(owner_id: String, already_initialized: bool) -> (r: Result<SlotMachine, SlotError>)
        ensures
            !valid_account_id(owner_id@) ==> r == Err::<SlotMachine, SlotError>(
                SlotError::InvalidOwner,
            ),
            valid_account_id(owner_id@) && already_initialized ==> r == Err::<
                SlotMachine,
                SlotError,
            >(SlotError::AlreadyInitialized),
            valid_account_id(owner_id@) && !already_initialized ==> r is Ok,
            r matches Ok(m) ==> m.wf() && m.owner() == owner_id@ && m@ == Map::<
                Seq<char>,
                u128,
            >::empty(),
    {
        if !is_valid_account_id(&owner_id) {
            return Err(SlotError::InvalidOwner);
        }
        if already_initialized {
            return Err(SlotError::AlreadyInitialized);
        }
        Ok(SlotMachine { owner_id, credits: Ledger::new() })
    }

    /// Credits `amount` to `account_id`. Fails with `Overflow`, changing
    /// nothing, where the new balance would not fit in 128 bits.
    pub fn deposit(&mut self, account_id: String, amount: u128) -> (r: Result<(), SlotError>)
        requires
            old(self).wf(),
        ensures
            final(self).wf(),
            final(self).owner() == old(self).owner(),
            match deposited(old(self)@, account_id@, amount) {
                Ok(m) => r is Ok && final(self)@ == m,
                Err(e) => r == Err::<(), SlotError>(e) && final(self)@ == old(self)@,
            },
    {
        let prior: u128 = self.credits.get(&account_id);
        match prior.checked_add(amount) {
            Some(total) => {
                self.credits.set(account_id, total);
                Ok(())
            },
            None => Err(SlotError::Overflow),
        }
    }

    /// Plays once for `account_id` with the random byte `r` that the host drew
    /// for this call, and returns that byte. One stake unit is taken and a win
    /// adds the payout. Fails with `InsufficientCredits` where the balance is
    /// below one stake unit, and with `Overflow` where a win would not fit in
    /// 128 bits; a failed play changes nothing.
    pub fn play(&mut self, account_id: String, r: u8) -> (res: Result<u8, SlotError>)
        requires
            old(self).wf(),
        ensures
            final(self).wf(),
            final(self).owner() == old(self).owner(),
            match played(old(self)@, account_id@, r) {
                Ok(m) => res == Ok::<u8, SlotError>(r) && final(self)@ == m,
                Err(e) => res == Err::<u8, SlotError>(e) && final(self)@ == old(self)@,
            },
    {
        let prior: u128 = self.credits.get(&account_id);
        match resolve_play(prior, r) {
            Ok(balance) => {
                self.credits.set(account_id, balance);
                Ok(r)
            },
            Err(e) => Err(e),
        }
    }

    /// The balance of `account_id`; zero for an account that never deposited.
    pub fn get_credits(&self, account_id: String) -> (r: u128)
        requires
            self.wf(),
        ensures
            r == balance_in(self@, account_id@),
    {
        self.credits.get(&account_id)
    }

    /// Every account that has an entry with its balance, each once, in the
    /// order in which the accounts first appeared.
    pub fn entries(&self) -> (r: Vec<(String, u128)>)
        requires
            self.wf(),
        ensures
            forall|i: int, j: int|
                0 <= i < j < r@.len() ==> #[trigger] r@[i].0@ != #[trigger] r@[j].0@,
            forall|i: int|
                0 <= i < r@.len() ==> self@.contains_key(#[trigger] r@[i].0@) && self@[r@[i].0@]
                    == r@[i].1,
            forall|k: Seq<char>| #[trigger]
                self@.contains_key(k) ==> exists|i: int| 0 <= i < r@.len() && #[trigger] r@[i].0@ == k,
    {
        self.credits.entries()
    }
}

/// A deposit raises the depositor's balance by exactly the amount and leaves
/// every other balance as it was.
pub proof fn deposit_adds_amount(m: Map<Seq<char>, u128>, a: Seq<char>, amount: u128, b: Seq<char>)
    requires
        balance_in(m, a) + amount <= u128::MAX,
    ensures
        deposited(m, a, amount) is Ok,
        balance_in(deposited(m, a, amount)->Ok_0, a) == balance_in(m, a) + amount,
        b != a ==> balance_in(deposited(m, a, amount)->Ok_0, b) == balance_in(m, b),
{
}

/// Two deposits in a row leave the same balances as one deposit of their sum.
pub proof fn deposits_are_additive(m: Map<Seq<char>, u128>, a: Seq<char>, x: u128, y: u128)
    requires
        balance_in(m, a) + x + y <= u128::MAX,
    ensures
        deposited(m, a, x) is Ok,
        deposited(deposited(m, a, x)->Ok_0, a, y) == deposited(m, a, (x + y) as u128),
{
    let once = deposited(m, a, x)->Ok_0;
    assert(deposited(once, a, y)->Ok_0 =~= m.insert(a, (balance_in(m, a) + x + y) as u128));
}

/// An account with an empty balance cannot play.
pub proof fn empty_account_cannot_play(m: Map<Seq<char>, u128>, a: Seq<char>, r: u8)
    requires
        balance_in(m, a) == 0,
    ensures
        played(m, a, r) == Err::<Map<Seq<char>, u128>, SlotError>(SlotError::InsufficientCredits),
{
}

/// A play from a balance of at least one stake unit costs that unit, and a win
/// adds the payout on top, whenever the result fits; other balances stay.
pub proof fn play_settles_stake(m: Map<Seq<char>, u128>, a: Seq<char>, r: u8)
    requires
        balance_in(m, a) >= ONE_NEAR,
        wins(r) ==> balance_in(m, a) + (PAYOUT_MULTIPLIER - 1) * ONE_NEAR <= u128::MAX,
    ensures
        played(m, a, r) == Ok::<Map<Seq<char>, u128>, SlotError>(
            m.insert(
                a,
                if wins(r) {
                    (balance_in(m, a) - ONE_NEAR + PAYOUT_MULTIPLIER * ONE_NEAR) as u128
                } else {
                    (balance_in(m, a) - ONE_NEAR) as u128
                },
            ),
        ),
{
}

} // verus!
