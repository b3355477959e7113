use vstd::prelude::*;
use crate::model::{
    BetError, BetStatus, BetView, EventStatus, EventView, InstructionType, InstructionView,
};
use crate::rules::{decision, event_decision, settle, valid_event_id, well_formed, Holdings};

verus! {

/// An instruction whose event identifier has not exactly 32 bytes is
/// rejected as invalid and changes nothing, whatever the event, the record
/// and the balance are: nothing need be read to answer it.
pub proof fn lemma_malformed_event_id_rejected(
    ins: InstructionView,
    event: Option<EventView>,
    held: Holdings,
)
    requires
        !valid_event_id(ins.event_id),
    ensures
        decision(ins, event, held.record, held.balance) == Err::<(), BetError>(
            BetError::InvalidInstruction,
        ),
        settle(ins, event, held) == held,
{
}

/// A rejection by the checks that follow the event's read is final: the
/// handler answers that same error for every record the account may hold.
/// Where those checks pass, the record alone decides.
pub proof fn lemma_event_rejection_is_final(
    ins: InstructionView,
    event: Option<EventView>,
    held: Holdings,
)
    ensures
        event_decision(ins, event, held.balance) is Err ==> decision(
            ins,
            event,
            held.record,
            held.balance,
        ) == event_decision(ins, event, held.balance),
        decision(ins, event, held.record, held.balance) is Ok ==> event_decision(
            ins,
            event,
            held.balance,
        ) is Ok,
{
}

/// A placement is accepted exactly when the event is active, the balance
/// covers the stake and the record is open (the identifier being well
/// formed, and event and record present). It then writes the instruction's
/// wager as placed and takes exactly the stake from the balance.
pub proof fn lemma_place_bet_accepted_iff(
    ins: InstructionView,
    event: Option<EventView>,
    held: Holdings,
)
    requires
        ins.instruction_type == InstructionType::PlaceBet,
    ensures
        decision(ins, event, held.record, held.balance) is Ok <==> {
            &&& ins.event_id.len() == 32
            &&& event is Some
            &&& event.unwrap().status == EventStatus::Active
            &&& held.balance >= ins.bet_amount
            &&& held.record is Some
            &&& held.record.unwrap().status == BetStatus::Open
        },
        decision(ins, event, held.record, held.balance) is Ok ==> {
            let after = settle(ins, event, held);
            &&& after.balance == held.balance - ins.bet_amount
            &&& after.record is Some
            &&& after.record.unwrap().status == BetStatus::Placed
            &&& after.record.unwrap().event_id == ins.event_id
            &&& after.record.unwrap().bet_amount == ins.bet_amount
            &&& after.record.unwrap().bet_option == ins.bet_option
        },
{
}

/// A placement cannot be repeated: once it was accepted, the same
/// instruction is rejected on the holdings it left, whatever the event has
/// become, and changes nothing more.
pub proof fn lemma_place_bet_not_repeatable(
    ins: InstructionView,
    event: Option<EventView>,
    held: Holdings,
    later_event: Option<EventView>,
)
    requires
        ins.instruction_type == InstructionType::PlaceBet,
        decision(ins, event, held.record, held.balance) is Ok,
    ensures
        ({
            let after = settle(ins, event, held);
            &&& after.record.unwrap().status != BetStatus::Open
            &&& decision(ins, later_event, after.record, after.balance) is Err
            &&& settle(ins, later_event, after) == after
        }),
{
}

/// A collection is accepted exactly when the event is complete, the record
/// is a placed bet on the instruction's event, and the bet's option is the
/// winning one (the identifier being well formed, and event and record
/// present). It then adds exactly the bet's stake to the balance and marks
/// the bet collected, its other fields unchanged.
pub proof fn lemma_collect_accepted_iff(
    ins: InstructionView,
    event: Option<EventView>,
    held: Holdings,
)
    requires
        ins.instruction_type == InstructionType::CollectWinnings,
    ensures
        decision(ins, event, held.record, held.balance) is Ok <==> {
            &&& ins.event_id.len() == 32
            &&& event is Some
            &&& event.unwrap().status == EventStatus::Complete
            &&& held.record is Some
            &&& held.record.unwrap().status == BetStatus::Placed
            &&& held.record.unwrap().event_id == ins.event_id
            &&& held.record.unwrap().bet_option == event.unwrap().winning_option
        },
        decision(ins, event, held.record, held.balance) is Err ==> decision(
            ins,
            event,
            held.record,
            held.balance,
        ) == Err::<(), BetError>(BetError::InvalidInstruction),
        decision(ins, event, held.record, held.balance) is Ok ==> {
            let before = held.record.unwrap();
            let after = settle(ins, event, held);
            &&& after.balance == held.balance + before.bet_amount
            &&& after.record == Some(BetView { status: BetStatus::Collected, ..before })
        },
{
}

/// A collection cannot be repeated: once one was accepted, every further
/// collection on the holdings it left is rejected as invalid, whatever its
/// instruction and event, and the balance stays as it is.
pub proof fn lemma_collect_not_repeatable(
    ins: InstructionView,
    event: Option<EventView>,
    held: Holdings,
    later_ins: InstructionView,
    later_event: Option<EventView>,
)
    requires
        ins.instruction_type == InstructionType::CollectWinnings,
        later_ins.instruction_type == InstructionType::CollectWinnings,
        decision(ins, event, held.record, held.balance) is Ok,
    ensures
        ({
            let after = settle(ins, event, held);
            &&& after.record.unwrap().status != BetStatus::Placed
            &&& decision(later_ins, later_event, after.record, after.balance) == Err::<(), BetError>(
                BetError::InvalidInstruction,
            )
            &&& settle(later_ins, later_event, after) == after
        }),
{
}

/// The only moves of a bet's status are `Open` to `Placed`, by a placement
/// on an active event, and `Placed` to `Collected`, by a collection on a
/// complete event. Whatever the instruction, a record is never created or
/// removed, and a record that is not rewritten is left exactly as it was.
pub proof fn lemma_lifecycle_is_one_way(
    ins: InstructionView,
    event: Option<EventView>,
    held: Holdings,
)
    ensures
        ({
            let after = settle(ins, event, held);
            &&& after.record is Some <==> held.record is Some
            &&& after != held ==> {
                &&& decision(ins, event, held.record, held.balance) is Ok
                &&& event is Some
                &&& held.record is Some
                &&& {
                    ||| {
                        &&& ins.instruction_type == InstructionType::PlaceBet
                        &&& event.unwrap().status == EventStatus::Active
                        &&& held.record.unwrap().status == BetStatus::Open
                        &&& after.record.unwrap().status == BetStatus::Placed
                    }
                    ||| {
                        &&& ins.instruction_type == InstructionType::CollectWinnings
                        &&& event.unwrap().status == EventStatus::Complete
                        &&& held.record.unwrap().status == BetStatus::Placed
                        &&& after.record.unwrap().status == BetStatus::Collected
                        &&& after.record.unwrap().bet_amount == held.record.unwrap().bet_amount
                    }
                }
            }
        }),
{
}

/// Handling an instruction keeps the record well formed: a bet that leaves
/// the `Open` stage carries the 32-byte identifier that was validated.
pub proof fn lemma_settle_keeps_well_formed(
    ins: InstructionView,
    event: Option<EventView>,
    held: Holdings,
)
    requires
        held.record matches Some(b) ==> well_formed(b),
    ensures
        settle(ins, event, held).record matches Some(b) ==> well_formed(b),
{
}

/// A collection pays back what the placement took: after a placement and a
/// collection of that bet, both accepted, the balance is what it was
/// before the placement.
pub proof fn lemma_collect_restores_stake(
    place: InstructionView,
    collect: InstructionView,
    active: Option<EventView>,
    complete: Option<EventView>,
    held: Holdings,
)
    requires
        place.instruction_type == InstructionType::PlaceBet,
        collect.instruction_type == InstructionType::CollectWinnings,
        decision(place, active, held.record, held.balance) is Ok,
        decision(
            collect,
            complete,
            settle(place, active, held).record,
            settle(place, active, held).balance,
        ) is Ok,
    ensures
        settle(collect, complete, settle(place, active, held)).balance == held.balance,
{
}

} // verus!
