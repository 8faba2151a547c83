//! Histories of a vault: the deposits and withdrawals that went through on it,
//! one after the other.

use vstd::prelude::*;
use crate::account::AccountInfo;
use crate::address::Address;
use crate::instructions::deposit::Deposit;
use crate::instructions::withdraw::Withdraw;
use crate::pda::found_view;

verus! {

/// One call of a deposit or a withdrawal: the accounts it was made on, the
/// amount, and the addresses derived for the vault's two accounts.
pub enum Movement {
    Deposit {
        deposit: Deposit,
        amount: u64,
        vault_found: Option<(Address, u8)>,
        holding_found: Option<(Address, u8)>,
    },
    Withdraw {
        withdraw: Withdraw,
        amount: u64,
        vault_found: Option<(Address, u8)>,
        holding_found: Option<(Address, u8)>,
    },
}

impl Movement {
    /// Whether the call is made on accounts of one ledger and goes through.
    pub open spec fn goes_through(self) -> bool {
        match self {
            Movement::Deposit { deposit, amount, vault_found, holding_found } => deposit.wf()
                && deposit.refusal(amount, found_view(vault_found), found_view(holding_found))
                is None,
            Movement::Withdraw { withdraw, amount, vault_found, holding_found } => withdraw.wf()
                && withdraw.refusal(amount, found_view(vault_found), found_view(holding_found))
                is None,
        }
    }

    /// The holding account as the call finds it.
    pub open spec fn holding_before(self) -> AccountInfo {
        match self {
            Movement::Deposit { deposit, .. } => deposit.vault_account,
            Movement::Withdraw { withdraw, .. } => withdraw.vault_account,
        }
    }

    /// The holding account as the call leaves it, where it goes through.
    pub open spec fn holding_after(self) -> AccountInfo {
        match self {
            Movement::Deposit { deposit, amount, .. } => deposit.settled(amount).vault_account,
            Movement::Withdraw { withdraw, amount, .. } => withdraw.settled(amount).vault_account,
        }
    }

    /// The lamports that the call deposits: none, for a withdrawal.
    pub open spec fn deposited(self) -> nat {
        match self {
            Movement::Deposit { amount, .. } => amount as nat,
            Movement::Withdraw { .. } => 0,
        }
    }

    /// The lamports that the call withdraws: none, for a deposit.
    pub open spec fn withdrawn(self) -> nat {
        match self {
            Movement::Deposit { .. } => 0,
            Movement::Withdraw { amount, .. } => amount as nat,
        }
    }
}

/// Whether `moves` is a history of one vault: every call goes through, and
/// each finds the holding account as the call before it left it.
pub open spec fn is_history(moves: Seq<Movement>) -> bool {
    &&& forall|i: int| 0 <= i < moves.len() ==> (#[trigger] moves[i]).goes_through()
    &&& forall|i: int|
        0 <= i < moves.len() - 1 ==> (#[trigger] moves[i + 1]).holding_before()
            == moves[i].holding_after()
}

/// The sum of all amounts deposited in `moves`.
pub open spec fn total_deposited(moves: Seq<Movement>) -> nat
    decreases moves.len(),
{
    if moves.len() == 0 {
        0
    } else {
        total_deposited(moves.drop_last()) + moves.last().deposited()
    }
}

/// The sum of all amounts withdrawn in `moves`.
pub open spec fn total_withdrawn(moves: Seq<Movement>) -> nat
    decreases moves.len(),
{
    if moves.len() == 0 {
        0
    } else {
        total_withdrawn(moves.drop_last()) + moves.last().withdrawn()
    }
}

/// Conservation: after any history, the holding account is the account the
/// history started on, and its balance is the balance it started with, plus
/// all that was deposited, minus all that was withdrawn.
pub proof fn conservation(moves: Seq<Movement>)
    requires
        is_history(moves),
        moves.len() > 0,
    ensures
        moves.last().holding_after().key == moves[0].holding_before().key,
        moves.last().holding_after().lamports == moves[0].holding_before().lamports
            + total_deposited(moves) - total_withdrawn(moves),
    decreases moves.len(),
{
    let last = moves.last();
    let earlier = moves.drop_last();
    assert(last.goes_through());
    assert(last.holding_after().key == last.holding_before().key);
    assert(last.holding_after().lamports == last.holding_before().lamports + last.deposited()
        - last.withdrawn());
    if moves.len() == 1 {
        assert(total_deposited(earlier) == 0);
        assert(total_withdrawn(earlier) == 0);
    } else {
        assert forall|i: int| 0 <= i < earlier.len() implies (#[trigger] earlier[i]).goes_through()
        by {
            assert(earlier[i] == moves[i]);
        }
        assert forall|i: int| 0 <= i < earlier.len() - 1 implies (#[trigger] earlier[i
            + 1]).holding_before() == earlier[i].holding_after() by {
            assert(earlier[i + 1] == moves[i + 1]);
            assert(earlier[i] == moves[i]);
        }
        conservation(earlier);
        let k = moves.len() - 2;
        assert(earlier.last() == moves[k]);
        assert(moves[k + 1].holding_before() == moves[k].holding_after());
        assert(earlier[0] == moves[0]);
    }
}

} // verus!
