use vstd::prelude::*;

verus! {

/// The balance of account `a` in the mapping `m`: an account with no entry
/// holds nothing.
pub open spec fn balance_in(m: Map<Seq<char>, u128>, a: Seq<char>) -> u128 {
    if m.contains_key(a) {
        m[a]
    } else {
        0
    }
}

/// The mapping from account identifier to balance. Each account has at most
/// one entry; an account without one has a balance of zero.
pub struct Ledger {
    entries: Vec<(String, u128)>,
    model: Ghost<Map<Seq<char>, u128>>,
}

impl View for Ledger {
    type V = Map<Seq<char>, u128>;

    closed spec fn view(&self) -> Map<Seq<char>, u128> {
        self.model@
    }
}

impl Ledger {
    /// The entries hold each account once, and hold exactly the mapping.
    pub closed spec fn wf(&self) -> bool {
        &&& forall|i: int, j: int|
            0 <= i < j < self.entries@.len() ==> #[trigger] self.entries@[i].0@
                != #[trigger] self.entries@[j].0@
        &&& forall|i: int|
            0 <= i < self.entries@.len() ==> self.model@.contains_key(#[trigger] self.entries@[i].0@)
                && self.model@[self.entries@[i].0@] == self.entries@[i].1
        &&& forall|k: Seq<char>| #[trigger]
            self.model@.contains_key(k) ==> exists|i: int|
                0 <= i < self.entries@.len() && #[trigger] self.entries@[i].0@ == k
    }

    /// An empty ledger.
    pub fn new() -> (r: Ledger)
        ensures
            r.wf(),
            r@ == Map::<Seq<char>, u128>::empty(),
    {
        Ledger { entries: Vec::new(), model: Ghost(Map::empty()) }
    }

    /// The position of the entry of `account_id`, if it has one.
    fn find(&self, account_id: &String) -> (r: Option<usize>)
        requires
            self.wf(),
        ensures
            match r {
                Some(i) => i < self.entries@.len() && self.entries@[i as int].0@ == account_id@,
                None => !self@.contains_key(account_id@),
            },
    {
        let mut i: usize = 0;
        while i < self.entries.len()
            invariant
                self.wf(),
                i <= self.entries@.len(),
                forall|j: int| 0 <= j < i ==> #[trigger] self.entries@[j].0@ != account_id@,
            decreases self.entries@.len() - i,
        {
            if self.entries[i].0 == *account_id {
                return Some(i);
            }
            i = i + 1;
        }
        None
    }

    /// The balance of `account_id`; zero where it has no entry.
    pub fn get(&self, account_id: &String) -> (r: u128)
        requires
            self.wf(),
        ensures
            r == balance_in(self@, account_id@),
    {
        match self.find(account_id) {
            Some(i) => self.entries[i].1,
            None => 0,
        }
    }

    /// Sets the balance of `account_id` to `amount`, leaving every other
    /// account as it was.
    pub fn set(&mut self, account_id: String, amount: u128)
        requires
            old(self).wf(),
        ensures
            final(self).wf(),
            final(self)@ == old(self)@.insert(account_id@, amount),
    {
        let ghost key = account_id@;
        let ghost pos: int;
        match self.find(&account_id) {
            Some(i) => {
                self.entries.set(i, (account_id, amount));
                proof {
                    pos = i as int;
                }
            },
            None => {
                self.entries.push((account_id, amount));
                proof {
                    pos = self.entries@.len() - 1;
                }
            },
        }
        self.model = Ghost(self.model@.insert(key, amount));
        assert(self.entries@[pos].0@ == key);
        assert forall|k: Seq<char>| #[trigger] self.model@.contains_key(k) implies exists|i: int|
            0 <= i < self.entries@.len() && #[trigger] self.entries@[i].0@ == k by {
            if k != key {
                let w = choose|i: int|
                    0 <= i < old(self).entries@.len() && old(self).entries@[i].0@ == k;
                assert(self.entries@[w].0@ == k);
            }
        }
    }

    /// The entries, each account once, in the order in which they were made.
    pub fn entries(&self) -> (r: Vec<(String, u128)>)
        requires
            self.wf(),
        ensures
            forall|i: int, j: int|
                0 <= i < j < r@.len() ==> #[trigger] r@[i].0@ != #[trigger] r@[j].0@,
            forall|i: int|
                0 <= i < r@.len() ==> self@.contains_key(#[trigger] r@[i].0@) && self@[r@[i].0@]
                    == r@[i].1,
            forall|k: Seq<char>| #[trigger]
                self@.contains_key(k) ==> exists|i: int| 0 <= i < r@.len() && #[trigger] r@[i].0@ == k,
    {
        let mut out: Vec<(String, u128)> = Vec::new();
        let mut i: usize = 0;
        while i < self.entries.len()
            invariant
                self.wf(),
                i <= self.entries@.len(),
                out@.len() == i,
                forall|j: int| 0 <= j < i ==> #[trigger] out@[j] == self.entries@[j],
            decreases self.entries@.len() - i,
        {
            let account: String = self.entries[i].0.clone();
            out.push((account, self.entries[i].1));
            i = i + 1;
        }
        assert(out@ =~= self.entries@);
        out
    }
}

} // verus!
