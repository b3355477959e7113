use vstd::prelude::*;
use crate::model::{
    event_read, record_held, Bet, BetError, BetStatus, Event, EventStatus, Instruction,
    InstructionType, EVENT_ID_LEN,
};
use crate::rules::{
    collect_decision, collected, credit_fits, decision, event_decision, may_collect, may_place,
    place_decision, placed, settle, valid_event_id, Holdings,
};

verus! {

/// Whether two byte strings are equal, byte for byte.
pub fn same_bytes(a: &Vec<u8>, b: &Vec<u8>) -> (r: bool)
    ensures
        r == (a@ == b@),
{
    if a.len() != b.len() {
        return false;
    }
    let mut i: usize = 0;
    while i < a.len()
        invariant
            a@.len() == b@.len(),
            i <= a@.len(),
            forall|k: int| 0 <= k < i ==> a@[k] == b@[k],
        decreases a@.len() - i,
    {
        if a[i] != b[i] {
            return false;
        }
        i += 1;
    }
    assert(a@ =~= b@);
    true
}

/// Entry validation, which depends on the instruction alone: a caller runs
/// it before reading any account, and reads nothing when it fails.
pub fn validate_instruction(instruction_data: &Instruction) -> (r: Result<(), BetError>)
    ensures
        r is Ok <==> valid_event_id(instruction_data@.event_id),
        r is Err ==> r == Err::<(), BetError>(BetError::InvalidInstruction),
{
    if instruction_data.event_id.len() != EVENT_ID_LEN {
        return Err(BetError::InvalidInstruction);
    }
    Ok(())
}

/// The checks that follow the read of the event and need nothing else:
/// the event's status and, for a placement, the balance. A caller that gets
/// an error here need not read the account's record: [`bet_on_event`]
/// answers the same error whatever that record is.
pub fn check_event(instruction_data: &Instruction, event: Option<&Event>, lamports: u64) -> (r:
    Result<(), BetError>)
    ensures
        r == event_decision(instruction_data@, event_read(event), lamports as nat),
{
    if instruction_data.event_id.len() != EVENT_ID_LEN {
        return Err(BetError::InvalidInstruction);
    }
    let event = match event {
        Some(e) => e,
        None => {
            return Err(BetError::InvalidInstruction);
        },
    };
    match instruction_data.instruction_type {
        InstructionType::PlaceBet => {
            if event.status != EventStatus::Active {
                return Err(BetError::InvalidInstruction);
            }
            if lamports < instruction_data.bet_amount {
                return Err(BetError::InsufficientFunds);
            }
        },
        InstructionType::CollectWinnings => {
            if event.status != EventStatus::Complete {
                return Err(BetError::InvalidInstruction);
            }
        },
    }
    Ok(())
}

/// Validates a placement without changing anything. `event` is the event
/// that the instruction's identifier refers to and `bet` the record of the
/// calling account, each `None` where it is absent or could not be decoded;
/// `lamports` is the caller's balance.
pub fn check_place_bet(
    instruction_data: &Instruction,
    event: Option<&Event>,
    bet: &Option<Bet>,
    lamports: u64,
) -> (r: Result<(), BetError>)
    ensures
        r == place_decision(instruction_data@, event_read(event), record_held(*bet), lamports as nat),
{
    if instruction_data.event_id.len() != EVENT_ID_LEN {
        return Err(BetError::InvalidInstruction);
    }
    let event = match event {
        Some(e) => e,
        None => {
            return Err(BetError::InvalidInstruction);
        },
    };
    if event.status != EventStatus::Active {
        return Err(BetError::InvalidInstruction);
    }
    if lamports < instruction_data.bet_amount {
        return Err(BetError::InsufficientFunds);
    }
    let current = match bet {
        Some(b) => b,
        None => {
            return Err(BetError::InvalidInstruction);
        },
    };
    if current.status != BetStatus::Open {
        return Err(BetError::InvalidInstruction);
    }
    Ok(())
}

/// Validates a collection without changing anything. The arguments are
/// those of [`check_place_bet`]; the balance plays no part.
pub fn check_collect_winnings(
    instruction_data: &Instruction,
    event: Option<&Event>,
    bet: &Option<Bet>,
) -> (r: Result<(), BetError>)
    ensures
        r == collect_decision(instruction_data@, event_read(event), record_held(*bet)),
{
    if instruction_data.event_id.len() != EVENT_ID_LEN {
        return Err(BetError::InvalidInstruction);
    }
    let event = match event {
        Some(e) => e,
        None => {
            return Err(BetError::InvalidInstruction);
        },
    };
    if event.status != EventStatus::Complete {
        return Err(BetError::InvalidInstruction);
    }
    let current = match bet {
        Some(b) => b,
        None => {
            return Err(BetError::InvalidInstruction);
        },
    };
    if current.status != BetStatus::Placed {
        return Err(BetError::InvalidInstruction);
    }
    if !same_bytes(&current.event_id, &instruction_data.event_id) {
        return Err(BetError::InvalidInstruction);
    }
    if current.bet_option != event.winning_option {
        return Err(BetError::InvalidInstruction);
    }
    Ok(())
}

/// Places a bet: where every check passes, the record becomes the
/// instruction's wager with status `Placed` and the stake leaves the
/// balance; otherwise record and balance stay as they were. The
/// instruction's tag is not read: choosing the operation is the caller's.
pub fn place_bet(
    instruction_data: &Instruction,
    event: Option<&Event>,
    bet: &mut Option<Bet>,
    lamports: &mut u64,
) -> (r: Result<(), BetError>)
    ensures
        r == place_decision(
            instruction_data@,
            event_read(event),
            record_held(*old(bet)),
            *old(lamports) as nat,
        ),
        r is Ok <==> may_place(
            instruction_data@,
            event_read(event),
            record_held(*old(bet)),
            *old(lamports) as nat,
        ),
        r is Ok ==> record_held(*final(bet)) == Some(placed(instruction_data@)),
        r is Ok ==> *final(lamports) == *old(lamports) - instruction_data.bet_amount,
        r is Err ==> *final(bet) == *old(bet) && *final(lamports) == *old(lamports),
{
    match check_place_bet(instruction_data, event, bet, *lamports) {
        Ok(()) => {},
        Err(e) => {
            return Err(e);
        },
    }
    let staged = Bet {
        event_id: instruction_data.event_id.clone(),
        bet_amount: instruction_data.bet_amount,
        bet_option: instruction_data.bet_option,
        status: BetStatus::Placed,
    };
    let balance: u64 = *lamports - instruction_data.bet_amount;
    *bet = Some(staged);
    *lamports = balance;
    Ok(())
}

/// Collects the winnings of a placed bet: where every check passes, the
/// stake is credited to the balance and the record's status becomes
/// `Collected`, its other fields kept; otherwise record and balance stay as
/// they were. The credited balance must fit in 64 bits.
pub fn collect_winnings(
    instruction_data: &Instruction,
    event: Option<&Event>,
    bet: &mut Option<Bet>,
    lamports: &mut u64,
) -> (r: Result<(), BetError>)
    requires
        credit_fits(
            instruction_data@,
            event_read(event),
            record_held(*old(bet)),
            *old(lamports) as nat,
        ),
    ensures
        r == collect_decision(instruction_data@, event_read(event), record_held(*old(bet))),
        r is Ok <==> may_collect(instruction_data@, event_read(event), record_held(*old(bet))),
        r is Ok ==> record_held(*final(bet)) == Some(collected(record_held(*old(bet)).unwrap())),
        r is Ok ==> *final(lamports) == *old(lamports) + old(bet).unwrap().bet_amount,
        r is Err ==> *final(bet) == *old(bet) && *final(lamports) == *old(lamports),
{
    match check_collect_winnings(instruction_data, event, bet) {
        Ok(()) => {},
        Err(e) => {
            return Err(e);
        },
    }
    match bet {
        Some(current) => {
            let balance: u64 = *lamports + current.bet_amount;
            current.status = BetStatus::Collected;
            *lamports = balance;
        },
        None => {},
    }
    Ok(())
}

/// Handles one instruction against what was read for it: the event that the
/// instruction names, the record of the calling account, and the caller's
/// balance. Either the instruction is accepted, and record and balance take
/// their committed values together, or it is rejected and neither changes.
pub fn bet_on_event(
    instruction_data: &Instruction,
    event: Option<&Event>,
    bet: &mut Option<Bet>,
    lamports: &mut u64,
) -> (r: Result<(), BetError>)
    requires
        instruction_data.instruction_type == InstructionType::CollectWinnings ==> credit_fits(
            instruction_data@,
            event_read(event),
            record_held(*old(bet)),
            *old(lamports) as nat,
        ),
    ensures
        r == decision(
            instruction_data@,
            event_read(event),
            record_held(*old(bet)),
            *old(lamports) as nat,
        ),
        !valid_event_id(instruction_data@.event_id) ==> r == Err::<(), BetError>(
            BetError::InvalidInstruction,
        ),
        (Holdings { record: record_held(*final(bet)), balance: *final(lamports) as nat }) == settle(
            instruction_data@,
            event_read(event),
            (Holdings { record: record_held(*old(bet)), balance: *old(lamports) as nat }),
        ),
        r is Err ==> *final(bet) == *old(bet) && *final(lamports) == *old(lamports),
{
    match instruction_data.instruction_type {
        InstructionType::PlaceBet => place_bet(instruction_data, event, bet, lamports),
        InstructionType::CollectWinnings => collect_winnings(instruction_data, event, bet, lamports),
    }
}

} // verus!
