//! A currency ledger with free and reserved balances per account.
use std::collections::HashMap;
use vstd::prelude::*;

verus! {

broadcast use vstd::std_specs::hash::group_hash_axioms;

/// The largest balance an account can hold, free and reserved together.
pub const MAX_BALANCE: u64 = 0xffff_ffff_ffff_ffff;

/// What one account holds: spendable funds and escrowed funds.
#[derive(Clone, Copy, Debug, PartialEq, Eq, Structural)]
pub struct AccountBalance {
    pub free: u64,
    pub reserved: u64,
}

/// Spendable balance of `a`; an unknown account holds nothing.
pub open spec fn free_of(m: Map<u64, AccountBalance>, a: u64) -> nat {
    if m.contains_key(a) {
        m[a].free as nat
    } else {
        0
    }
}

/// Escrowed balance of `a`; an unknown account holds nothing.
pub open spec fn reserved_of(m: Map<u64, AccountBalance>, a: u64) -> nat {
    if m.contains_key(a) {
        m[a].reserved as nat
    } else {
        0
    }
}

pub open spec fn total_of(m: Map<u64, AccountBalance>, a: u64) -> nat {
    free_of(m, a) + reserved_of(m, a)
}

/// Every account's total fits in a balance.
pub open spec fn ledger_wf(m: Map<u64, AccountBalance>) -> bool {
    forall|a: u64| #[trigger] m.contains_key(a) ==> m[a].free + m[a].reserved <= MAX_BALANCE
}

pub proof fn lemma_total_fits(m: Map<u64, AccountBalance>, a: u64)
    requires
        ledger_wf(m),
    ensures
        total_of(m, a) <= MAX_BALANCE,
{
    if m.contains_key(a) {
        assert(m[a].free + m[a].reserved <= MAX_BALANCE);
    }
}

pub open spec fn with_balance(
    m: Map<u64, AccountBalance>,
    a: u64,
    free: nat,
    reserved: nat,
) -> Map<u64, AccountBalance> {
    m.insert(a, AccountBalance { free: free as u64, reserved: reserved as u64 })
}

pub open spec fn min_nat(x: nat, y: nat) -> nat {
    if x <= y {
        x
    } else {
        y
    }
}

/// Moves `amount` from free to reserved; the caller has checked the free balance.
pub open spec fn reserve_spec(m: Map<u64, AccountBalance>, a: u64, amount: nat) -> Map<
    u64,
    AccountBalance,
> {
    with_balance(m, a, (free_of(m, a) - amount) as nat, reserved_of(m, a) + amount)
}

/// Moves up to `amount` from reserved back to free.
pub open spec fn unreserve_spec(m: Map<u64, AccountBalance>, a: u64, amount: nat) -> Map<
    u64,
    AccountBalance,
> {
    let moved = min_nat(amount, reserved_of(m, a));
    with_balance(m, a, free_of(m, a) + moved, (reserved_of(m, a) - moved) as nat)
}

/// Removes up to `amount` from the free balance.
pub open spec fn slash_spec(m: Map<u64, AccountBalance>, a: u64, amount: nat) -> Map<
    u64,
    AccountBalance,
> {
    with_balance(m, a, (free_of(m, a) - min_nat(amount, free_of(m, a))) as nat, reserved_of(m, a))
}

/// Removes up to `amount` from the reserved balance.
pub open spec fn slash_reserved_spec(m: Map<u64, AccountBalance>, a: u64, amount: nat) -> Map<
    u64,
    AccountBalance,
> {
    with_balance(
        m,
        a,
        free_of(m, a),
        (reserved_of(m, a) - min_nat(amount, reserved_of(m, a))) as nat,
    )
}

/// What a deposit of `amount` into `a` actually adds: as much as the account can still hold.
pub open spec fn deposited(m: Map<u64, AccountBalance>, a: u64, amount: nat) -> nat {
    min_nat(amount, (MAX_BALANCE - total_of(m, a)) as nat)
}

/// Adds to the free balance, creating the account if needed.
pub open spec fn deposit_spec(m: Map<u64, AccountBalance>, a: u64, amount: nat) -> Map<
    u64,
    AccountBalance,
> {
    with_balance(m, a, free_of(m, a) + deposited(m, a, amount), reserved_of(m, a))
}

/// Balances of all accounts.
pub struct Ledger {
    accounts: HashMap<u64, AccountBalance>,
}

impl View for Ledger {
    type V = Map<u64, AccountBalance>;

    closed spec fn view(&self) -> Map<u64, AccountBalance> {
        self.accounts@
    }
}

impl Ledger {
    pub open spec fn wf(&self) -> bool {
        ledger_wf(self@)
    }

    /// A ledger in which no account holds anything.
    pub fn new() -> (r: Ledger)
        ensures
            r@ == Map::<u64, AccountBalance>::empty(),
            r.wf(),
    {
        Ledger { accounts: HashMap::new() }
    }

    fn balance(&self, a: u64) -> (r: AccountBalance)
        ensures
            r.free as nat == free_of(self@, a),
            r.reserved as nat == reserved_of(self@, a),
    {
        match self.accounts.get(&a) {
            Some(b) => *b,
            None => AccountBalance { free: 0, reserved: 0 },
        }
    }

    /// Spendable balance of `a`.
    pub fn free_balance(&self, a: u64) -> (r: u64)
        ensures
            r as nat == free_of(self@, a),
    {
        self.balance(a).free
    }

    /// Escrowed balance of `a`.
    pub fn reserved_balance(&self, a: u64) -> (r: u64)
        ensures
            r as nat == reserved_of(self@, a),
    {
        self.balance(a).reserved
    }

    /// Whether `amount` can be moved from the free balance of `a` into escrow.
    pub fn can_reserve(&self, a: u64, amount: u64) -> (r: bool)
        ensures
            r == (free_of(self@, a) >= amount),
    {
        self.balance(a).free >= amount
    }

    /// Whether `amount` can be taken from the free balance of `a`.
    pub fn can_slash(&self, a: u64, amount: u64) -> (r: bool)
        ensures
            r == (free_of(self@, a) >= amount),
    {
        self.balance(a).free >= amount
    }

    pub fn reserve(&mut self, a: u64, amount: u64)
        requires
            old(self).wf(),
            free_of(old(self)@, a) >= amount,
        ensures
            final(self)@ == reserve_spec(old(self)@, a, amount as nat),
            final(self).wf(),
    {
        let b = self.balance(a);
        self.accounts.insert(a, AccountBalance { free: b.free - amount, reserved: b.reserved + amount });
    }

    pub fn unreserve(&mut self, a: u64, amount: u64)
        requires
            old(self).wf(),
        ensures
            final(self)@ == unreserve_spec(old(self)@, a, amount as nat),
            final(self).wf(),
    {
        let b = self.balance(a);
        let moved = if amount <= b.reserved { amount } else { b.reserved };
        self.accounts.insert(a, AccountBalance { free: b.free + moved, reserved: b.reserved - moved });
    }

    pub fn slash(&mut self, a: u64, amount: u64)
        requires
            old(self).wf(),
        ensures
            final(self)@ == slash_spec(old(self)@, a, amount as nat),
            final(self).wf(),
    {
        let b = self.balance(a);
        let taken = if amount <= b.free { amount } else { b.free };
        self.accounts.insert(a, AccountBalance { free: b.free - taken, reserved: b.reserved });
    }

    pub fn slash_reserved(&mut self, a: u64, amount: u64)
        requires
            old(self).wf(),
        ensures
            final(self)@ == slash_reserved_spec(old(self)@, a, amount as nat),
            final(self).wf(),
    {
        let b = self.balance(a);
        let taken = if amount <= b.reserved { amount } else { b.reserved };
        self.accounts.insert(a, AccountBalance { free: b.free, reserved: b.reserved - taken });
    }

    /// Adds `amount` to the free balance of `a`, as far as the account can hold it,
    /// and returns what was added.
    pub fn deposit_creating(&mut self, a: u64, amount: u64) -> (r: u64)
        requires
            old(self).wf(),
        ensures
            final(self)@ == deposit_spec(old(self)@, a, amount as nat),
            r as nat == deposited(old(self)@, a, amount as nat),
            final(self).wf(),
    {
        let b = self.balance(a);
        let room = MAX_BALANCE - b.free - b.reserved;
        let added = if amount <= room { amount } else { room };
        self.accounts.insert(a, AccountBalance { free: b.free + added, reserved: b.reserved });
        added
    }
}

} // verus!
