use vstd::prelude::*;
use crate::model::{
    BetError, BetStatus, BetView, EventStatus, EventView, InstructionType, InstructionView,
    EVENT_ID_LEN,
};

verus! {

/// An event identifier is well formed when it has exactly 32 bytes.
pub open spec fn valid_event_id(id: Seq<u8>) -> bool {
    id.len() == EVENT_ID_LEN
}

/// A bet that has left the `Open` stage names its event by a well-formed
/// identifier. An open record is a blank slot and may hold anything.
pub open spec fn well_formed(bet: BetView) -> bool {
    bet.status != BetStatus::Open ==> valid_event_id(bet.event_id)
}

/// When a bet may be placed: the identifier is well formed, the event was
/// read and is active, the balance covers the stake, and the account holds
/// a record that is still open.
pub open spec fn may_place(
    ins: InstructionView,
    event: Option<EventView>,
    bet: Option<BetView>,
    balance: nat,
) -> bool {
    &&& valid_event_id(ins.event_id)
    &&& event matches Some(e)
    &&& bet matches Some(b)
    &&& e.status == EventStatus::Active
    &&& balance >= ins.bet_amount
    &&& b.status == BetStatus::Open
}

/// The one case in which a placement fails for want of funds: everything
/// that is validated before the balance holds, and the balance is short.
pub open spec fn funds_short(ins: InstructionView, event: Option<EventView>, balance: nat) -> bool {
    &&& valid_event_id(ins.event_id)
    &&& event matches Some(e)
    &&& e.status == EventStatus::Active
    &&& balance < ins.bet_amount
}

/// What an attempt to place a bet answers.
pub open spec fn place_decision(
    ins: InstructionView,
    event: Option<EventView>,
    bet: Option<BetView>,
    balance: nat,
) -> Result<(), BetError> {
    if may_place(ins, event, bet, balance) {
        Ok(())
    } else if funds_short(ins, event, balance) {
        Err(BetError::InsufficientFunds)
    } else {
        Err(BetError::InvalidInstruction)
    }
}

/// The record that a successful placement writes.
pub open spec fn placed(ins: InstructionView) -> BetView {
    BetView {
        event_id: ins.event_id,
        bet_amount: ins.bet_amount,
        bet_option: ins.bet_option,
        status: BetStatus::Placed,
    }
}

/// When winnings may be collected: the identifier is well formed, the event
/// was read and is complete, the account holds a placed bet on that very
/// event, and the bet picked the winning option.
pub open spec fn may_collect(
    ins: InstructionView,
    event: Option<EventView>,
    bet: Option<BetView>,
) -> bool {
    &&& valid_event_id(ins.event_id)
    &&& event matches Some(e)
    &&& bet matches Some(b)
    &&& e.status == EventStatus::Complete
    &&& b.status == BetStatus::Placed
    &&& b.event_id == ins.event_id
    &&& b.bet_option == e.winning_option
}

/// What an attempt to collect answers. Every failure is `InvalidInstruction`.
pub open spec fn collect_decision(
    ins: InstructionView,
    event: Option<EventView>,
    bet: Option<BetView>,
) -> Result<(), BetError> {
    if may_collect(ins, event, bet) {
        Ok(())
    } else {
        Err(BetError::InvalidInstruction)
    }
}

/// The record that a successful collection writes: the bet as it was, with
/// only its status changed.
pub open spec fn collected(bet: BetView) -> BetView {
    BetView { status: BetStatus::Collected, ..bet }
}

/// What the handler answers to an instruction, given what was read.
pub open spec fn decision(
    ins: InstructionView,
    event: Option<EventView>,
    bet: Option<BetView>,
    balance: nat,
) -> Result<(), BetError> {
    match ins.instruction_type {
        InstructionType::PlaceBet => place_decision(ins, event, bet, balance),
        InstructionType::CollectWinnings => collect_decision(ins, event, bet),
    }
}

/// What the checks that follow the read of the event answer, before the
/// account's record is read: `Ok` where the record has to be read next.
pub open spec fn event_decision(
    ins: InstructionView,
    event: Option<EventView>,
    balance: nat,
) -> Result<(), BetError> {
    if !valid_event_id(ins.event_id) || event is None {
        Err(BetError::InvalidInstruction)
    } else {
        match ins.instruction_type {
            InstructionType::PlaceBet => if event.unwrap().status != EventStatus::Active {
                Err(BetError::InvalidInstruction)
            } else if balance < ins.bet_amount {
                Err(BetError::InsufficientFunds)
            } else {
                Ok(())
            },
            InstructionType::CollectWinnings => if event.unwrap().status
                != EventStatus::Complete {
                Err(BetError::InvalidInstruction)
            } else {
                Ok(())
            },
        }
    }
}

/// What an account holds of interest to the handler: its wager record, if
/// it has one, and its balance.
pub struct Holdings {
    pub record: Option<BetView>,
    pub balance: nat,
}

/// The holdings after an instruction was handled. An accepted placement
/// writes the wager and debits the stake; an accepted collection marks the
/// bet collected and credits its stake; a rejected instruction changes
/// nothing.
pub open spec fn settle(ins: InstructionView, event: Option<EventView>, held: Holdings) -> Holdings {
    if decision(ins, event, held.record, held.balance) is Err {
        held
    } else {
        match ins.instruction_type {
            InstructionType::PlaceBet => Holdings {
                record: Some(placed(ins)),
                balance: (held.balance - ins.bet_amount) as nat,
            },
            InstructionType::CollectWinnings => Holdings {
                record: Some(collected(held.record.unwrap())),
                balance: held.balance + held.record.unwrap().bet_amount,
            },
        }
    }
}

/// Whether the balance that a collection would commit fits the ledger's
/// 64-bit balance.
pub open spec fn credit_fits(
    ins: InstructionView,
    event: Option<EventView>,
    bet: Option<BetView>,
    balance: nat,
) -> bool {
    may_collect(ins, event, bet) ==> balance + bet.unwrap().bet_amount <= u64::MAX
}

} // verus!
