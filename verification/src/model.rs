use vstd::prelude::*;

verus! {

/// Byte length of an event identifier.
pub const EVENT_ID_LEN: usize = 32;

/// Lifecycle stage of an event. Only an outside authority moves an event
/// from one stage to the next; this library reads the stage and never sets it.
#[derive(Clone, Copy, Debug, PartialEq, Eq, Structural)]
pub enum EventStatus {
    Pending,
    Active,
    Complete,
}

/// Lifecycle stage of a bet: `Open` until placed, `Placed` until collected.
#[derive(Clone, Copy, Debug, PartialEq, Eq, Structural)]
pub enum BetStatus {
    Open,
    Placed,
    Collected,
}

/// The operation that an instruction asks for.
#[derive(Clone, Copy, Debug, PartialEq, Eq, Structural)]
pub enum InstructionType {
    PlaceBet,
    CollectWinnings,
}

/// Why an instruction was turned down. A wrong guess at collection time is
/// reported as `InvalidInstruction`, like any other failed validation.
#[derive(Clone, Copy, Debug, PartialEq, Eq, Structural)]
pub enum BetError {
    InvalidInstruction,
    InsufficientFunds,
}

/// An event as its authority committed it.
#[derive(Debug, PartialEq, Eq)]
pub struct Event {
    pub event_id: Vec<u8>,
    pub status: EventStatus,
    /// The outcome; it carries meaning only once `status` is `Complete`.
    pub winning_option: u32,
}

/// The wager record of one account.
#[derive(Debug, PartialEq, Eq)]
pub struct Bet {
    pub event_id: Vec<u8>,
    pub bet_amount: u64,
    pub bet_option: u32,
    pub status: BetStatus,
}

/// One request. `bet_amount` and `bet_option` are read for `PlaceBet` only.
#[derive(Debug, PartialEq, Eq)]
pub struct Instruction {
    pub instruction_type: InstructionType,
    pub event_id: Vec<u8>,
    pub bet_amount: u64,
    pub bet_option: u32,
}

/// Mathematical value of an [`Event`].
pub struct EventView {
    pub event_id: Seq<u8>,
    pub status: EventStatus,
    pub winning_option: u32,
}

/// Mathematical value of a [`Bet`].
pub struct BetView {
    pub event_id: Seq<u8>,
    pub bet_amount: nat,
    pub bet_option: u32,
    pub status: BetStatus,
}

/// Mathematical value of an [`Instruction`].
pub struct InstructionView {
    pub instruction_type: InstructionType,
    pub event_id: Seq<u8>,
    pub bet_amount: nat,
    pub bet_option: u32,
}

impl View for Event {
    type V = EventView;

    open spec fn view(&self) -> EventView {
        EventView {
            event_id: self.event_id@,
            status: self.status,
            winning_option: self.winning_option,
        }
    }
}

impl View for Bet {
    type V = BetView;

    open spec fn view(&self) -> BetView {
        BetView {
            event_id: self.event_id@,
            bet_amount: self.bet_amount as nat,
            bet_option: self.bet_option,
            status: self.status,
        }
    }
}

impl View for Instruction {
    type V = InstructionView;

    open spec fn view(&self) -> InstructionView {
        InstructionView {
            instruction_type: self.instruction_type,
            event_id: self.event_id@,
            bet_amount: self.bet_amount as nat,
            bet_option: self.bet_option,
        }
    }
}

impl Clone for Event {
    fn clone(&self) -> (r: Self)
        ensures
            r@ == self@,
    {
        Event {
            event_id: self.event_id.clone(),
            status: self.status,
            winning_option: self.winning_option,
        }
    }
}

impl Clone for Bet {
    fn clone(&self) -> (r: Self)
        ensures
            r@ == self@,
    {
        Bet {
            event_id: self.event_id.clone(),
            bet_amount: self.bet_amount,
            bet_option: self.bet_option,
            status: self.status,
        }
    }
}

impl Clone for Instruction {
    fn clone(&self) -> (r: Self)
        ensures
            r@ == self@,
    {
        Instruction {
            instruction_type: self.instruction_type,
            event_id: self.event_id.clone(),
            bet_amount: self.bet_amount,
            bet_option: self.bet_option,
        }
    }
}

/// The value of the event that was read, `None` where there was none.
pub open spec fn event_read(event: Option<&Event>) -> Option<EventView> {
    match event {
        Some(e) => Some(e@),
        None => None,
    }
}

/// The value of the record that an account holds, `None` where it holds none.
pub open spec fn record_held(bet: Option<Bet>) -> Option<BetView> {
    match bet {
        Some(b) => Some(b@),
        None => None,
    }
}

} // verus!
