//! How the funds of a completed sale are split and moved.
use crate::config::Module;
use crate::ledger::{deposit_spec, slash_reserved_spec, AccountBalance, Ledger};
use crate::types::{portion, Perbill, BILLION};
use vstd::prelude::*;

verus! {

/// What a sale of `amount` pays out: to the payee, to the creator, and the platform fee.
/// The fee is taken first; the royalty is capped at what the fee leaves, so the three parts
/// never exceed the amount and the payee never gets less than nothing.
pub open spec fn settlement_split(royalty: Option<Perbill>, fee_rate: Perbill, amount: nat) -> (
    nat,
    nat,
    nat,
) {
    let fee = portion(fee_rate, amount);
    let rest = (amount - fee) as nat;
    let roy = match royalty {
        Some(r) => if portion(r, amount) <= rest {
            portion(r, amount)
        } else {
            rest
        },
        None => 0,
    };
    ((rest - roy) as nat, roy, fee)
}

/// The ledger after a sale of `amount` is settled: the amount leaves the payer's escrow, the
/// payee (if any) and the creator's reward account (if there is a royalty and an account) are
/// paid, and the fee goes to the treasury. A royalty with no reward account is burned.
pub open spec fn payment_spec(
    m: Map<u64, AccountBalance>,
    fee_rate: Perbill,
    treasury: u64,
    royalty: Option<Perbill>,
    amount: nat,
    payer: u64,
    payee: Option<u64>,
    creator: Option<u64>,
) -> Map<u64, AccountBalance> {
    let split = settlement_split(royalty, fee_rate, amount);
    let m1 = slash_reserved_spec(m, payer, amount);
    let m2 = match payee {
        Some(p) => deposit_spec(m1, p, split.0),
        None => m1,
    };
    let m3 = if royalty is Some && creator is Some {
        deposit_spec(m2, creator->0, split.1)
    } else {
        m2
    };
    deposit_spec(m3, treasury, split.2)
}

/// The payee's share, the creator's share and the fee add up to the amount settled; where
/// royalty and fee together stay within the amount, the payee gets exactly what they leave.
pub proof fn lemma_settlement_conserves(royalty: Option<Perbill>, fee_rate: Perbill, amount: nat)
    ensures
        ({
            let s = settlement_split(royalty, fee_rate, amount);
            &&& s.0 + s.1 + s.2 == amount
            &&& s.2 == portion(fee_rate, amount)
            &&& royalty is Some && portion(royalty->0, amount) + portion(fee_rate, amount)
                <= amount ==> s.1 == portion(royalty->0, amount) && s.0 == amount - portion(
                royalty->0,
                amount,
            ) - portion(fee_rate, amount)
        }),
{
    let f = fee_rate.effective();
    let b = BILLION as nat;
    assert((amount * f) / b <= amount) by (nonlinear_arith)
        requires f <= b, b > 0;
    assert(portion(fee_rate, amount) == (amount * f) / b);
}

impl Module {
    /// Settles a sale of `amount` paid from the escrow of `sender_account_id`.
    pub fn complete_payment(
        &self,
        ledger: &mut Ledger,
        creator_royalty: Option<Perbill>,
        amount: u64,
        sender_account_id: u64,
        receiver_account_id: Option<u64>,
        creator_reward_account_id: Option<u64>,
    )
        requires
            old(ledger).wf(),
        ensures
            final(ledger).wf(),
            final(ledger)@ == payment_spec(
                old(ledger)@,
                self.platform_fee_percentage,
                self.treasury_account_id,
                creator_royalty,
                amount as nat,
                sender_account_id,
                receiver_account_id,
                creator_reward_account_id,
            ),
    {
        let auction_fee = self.platform_fee_percentage.mul_floor(amount);
        ledger.slash_reserved(sender_account_id, amount);
        let rest = amount - auction_fee;
        let royalty = match creator_royalty {
            Some(rate) => {
                let due = rate.mul_floor(amount);
                if due <= rest {
                    due
                } else {
                    rest
                }
            },
            None => 0,
        };
        if let Some(receiver) = receiver_account_id {
            ledger.deposit_creating(receiver, rest - royalty);
        }
        if creator_royalty.is_some() {
            if let Some(creator) = creator_reward_account_id {
                ledger.deposit_creating(creator, royalty);
            }
        }
        ledger.deposit_creating(self.treasury_account_id, auction_fee);
    }
}

} // verus!
