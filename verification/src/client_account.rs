use vstd::prelude::*;

verus! {

/// One client's balances and lock flag.
///
/// Balances are whole numbers of the smallest unit the caller accounts in, so
/// every sum below is exact. A balance may be negative: a withdrawal or a
/// dispute is not refused for want of available funds.
///
/// `locked` records that a chargeback has happened. It is a flag for the
/// caller to act on: no operation here consults it, and a locked account
/// still accepts every transition.
#[derive(Clone, Copy, Debug, PartialEq, Eq)]
pub struct ClientAccount {
    pub client: u16,
    pub available: i64,
    pub held: i64,
    pub total: i64,
    pub locked: bool,
}

/// Whether `x` can be stored in a balance.
pub open spec fn fits(x: int) -> bool {
    i64::MIN <= x <= i64::MAX
}

/// `Some(x)` as a balance when `x` can be stored in one.
fn narrow(x: i128) -> (r: Option<i64>)
    ensures
        r == (if fits(x as int) {
            Some(x as i64)
        } else {
            None
        }),
{
    if -0x8000_0000_0000_0000i128 <= x && x <= 0x7fff_ffff_ffff_ffffi128 {
        Some(x as i64)
    } else {
        None
    }
}

impl ClientAccount {
    /// The account a client has before its first transaction.
    pub open spec fn fresh(client: u16) -> ClientAccount {
        ClientAccount { client, available: 0, held: 0, total: 0, locked: false }
    }

    /// Available and held funds add up to the total.
    pub open spec fn balanced(&self) -> bool {
        self.total == self.available + self.held
    }

    pub open spec fn can_deposit(&self, amount: u64) -> bool {
        fits(self.available + amount) && fits(self.total + amount)
    }

    pub open spec fn deposited(&self, amount: u64) -> ClientAccount {
        ClientAccount {
            client: self.client,
            available: (self.available + amount) as i64,
            held: self.held,
            total: (self.total + amount) as i64,
            locked: self.locked,
        }
    }

    pub open spec fn can_withdraw(&self, amount: u64) -> bool {
        fits(self.available - amount) && fits(self.total - amount)
    }

    pub open spec fn withdrawn(&self, amount: u64) -> ClientAccount {
        ClientAccount {
            client: self.client,
            available: (self.available - amount) as i64,
            held: self.held,
            total: (self.total - amount) as i64,
            locked: self.locked,
        }
    }

    pub open spec fn can_dispute(&self, amount: u64) -> bool {
        fits(self.available - amount) && fits(self.held + amount)
    }

    pub open spec fn disputed(&self, amount: u64) -> ClientAccount {
        ClientAccount {
            client: self.client,
            available: (self.available - amount) as i64,
            held: (self.held + amount) as i64,
            total: self.total,
            locked: self.locked,
        }
    }

    pub open spec fn can_resolve(&self, amount: u64) -> bool {
        fits(self.held - amount) && fits(self.available + amount)
    }

    pub open spec fn resolved(&self, amount: u64) -> ClientAccount {
        ClientAccount {
            client: self.client,
            available: (self.available + amount) as i64,
            held: (self.held - amount) as i64,
            total: self.total,
            locked: self.locked,
        }
    }

    pub open spec fn can_chargeback(&self, amount: u64) -> bool {
        fits(self.held - amount) && fits(self.total - amount)
    }

    pub open spec fn charged_back(&self, amount: u64) -> ClientAccount {
        ClientAccount {
            client: self.client,
            available: self.available,
            held: (self.held - amount) as i64,
            total: (self.total - amount) as i64,
            locked: true,
        }
    }

    /// A new, unlocked account with no funds.
    pub fn new(client: u16) -> (account: Self)
        ensures
            account == Self::fresh(client),
            account.balanced(),
    {
        ClientAccount { client, available: 0, held: 0, total: 0, locked: false }
    }

    /// Adds `amount` to the available funds and to the total.
    ///
    /// Returns whether the deposit was made. It is made unless a balance
    /// would leave the range of `i64`; then the account stays as it was.
    pub fn deposit(&mut self, amount: u64) -> (applied: bool)
        ensures
            applied == old(self).can_deposit(amount),
            *final(self) == (if applied {
                old(self).deposited(amount)
            } else {
                *old(self)
            }),
            old(self).balanced() ==> final(self).balanced(),
    {
        let available = narrow(self.available as i128 + amount as i128);
        let total = narrow(self.total as i128 + amount as i128);
        match (available, total) {
            (Some(available), Some(total)) => {
                self.available = available;
                self.total = total;
                true
            },
            _ => false,
        }
    }

    /// Takes `amount` from the available funds and from the total.
    ///
    /// The available funds are not compared with `amount`: a withdrawal
    /// larger than what is available leaves a negative balance. Returns
    /// whether the withdrawal was made. It is made unless a balance would
    /// leave the range of `i64`; then the account stays as it was.
    pub fn withdraw(&mut self, amount: u64) -> (applied: bool)
        ensures
            applied == old(self).can_withdraw(amount),
            *final(self) == (if applied {
                old(self).withdrawn(amount)
            } else {
                *old(self)
            }),
            old(self).balanced() ==> final(self).balanced(),
    {
        let available = narrow(self.available as i128 - amount as i128);
        let total = narrow(self.total as i128 - amount as i128);
        match (available, total) {
            (Some(available), Some(total)) => {
                self.available = available;
                self.total = total;
                true
            },
            _ => false,
        }
    }

    /// Moves `amount` from the available funds to the held funds; the total
    /// stays.
    ///
    /// Returns whether the move was made. It is made unless a balance would
    /// leave the range of `i64`; then the account stays as it was.
    pub fn dispute(&mut self, amount: u64) -> (applied: bool)
        ensures
            applied == old(self).can_dispute(amount),
            *final(self) == (if applied {
                old(self).disputed(amount)
            } else {
                *old(self)
            }),
            old(self).balanced() ==> final(self).balanced(),
    {
        let available = narrow(self.available as i128 - amount as i128);
        let held = narrow(self.held as i128 + amount as i128);
        match (available, held) {
            (Some(available), Some(held)) => {
                self.available = available;
                self.held = held;
                true
            },
            _ => false,
        }
    }

    /// Moves `amount` from the held funds back to the available funds; the
    /// total stays.
    ///
    /// Returns whether the move was made. It is made unless a balance would
    /// leave the range of `i64`; then the account stays as it was.
    pub fn resolve(&mut self, amount: u64) -> (applied: bool)
        ensures
            applied == old(self).can_resolve(amount),
            *final(self) == (if applied {
                old(self).resolved(amount)
            } else {
                *old(self)
            }),
            old(self).balanced() ==> final(self).balanced(),
    {
        let held = narrow(self.held as i128 - amount as i128);
        let available = narrow(self.available as i128 + amount as i128);
        match (held, available) {
            (Some(held), Some(available)) => {
                self.held = held;
                self.available = available;
                true
            },
            _ => false,
        }
    }

    /// Takes `amount` from the held funds and from the total, and locks the
    /// account.
    ///
    /// Returns whether the chargeback was made. It is made unless a balance
    /// would leave the range of `i64`; then the account stays as it was,
    /// its lock flag too.
    pub fn chargeback(&mut self, amount: u64) -> (applied: bool)
        ensures
            applied == old(self).can_chargeback(amount),
            *final(self) == (if applied {
                old(self).charged_back(amount)
            } else {
                *old(self)
            }),
            old(self).balanced() ==> final(self).balanced(),
    {
        let held = narrow(self.held as i128 - amount as i128);
        let total = narrow(self.total as i128 - amount as i128);
        match (held, total) {
            (Some(held), Some(total)) => {
                self.held = held;
                self.total = total;
                self.locked = true;
                true
            },
            _ => false,
        }
    }
}

} // verus!
