//! The TCP-to-wireless bridge: per-connection framing state machine,
//! forwarding decisions, and the baud-rate side channel.
//!
//! The bridge re-frames a client's length-prefixed byte stream into
//! telegrams, round-trips each through one exchange, and answers with the
//! raw bytes of the decoded reply. A telegram that requests a baud-rate
//! change additionally owes a control-command exchange on the secondary
//! channel. All I/O stays with the caller; the functions here decide.

use vstd::prelude::*;

use crate::bytes::{spec_u16_from_be, spec_u32_from_le, u16_from_be, u32_from_le};
use crate::protocol::{
    spec_control_encode, CommandType, ControlCommand, ControlCommandView,
};
use crate::sequence::{ExchangeOutcome, ExchangeOutcomeView};
use crate::telegram::{spec_decode, Command, Telegram, TelegramError, TelegramView};

verus! {

/// Whether an inbound telegram requests a link-speed change: a Write with
/// subcommand 210.
pub open spec fn spec_is_baudrate_change(t: TelegramView) -> bool {
    t.command == Command::Write && t.subcommand == 210
}

pub fn telegram_is_baudrate_change(t: &Telegram) -> (r: bool)
    ensures
        r == spec_is_baudrate_change(t@),
{
    t.command == Command::Write && t.subcommand == 210
}

/// The control follow-up owed after forwarding a baud-rate change: the
/// requested rate (the telegram's 4 data bytes, byte-order flipped, read
/// little-endian) and the encoded Baudrate control command carrying the
/// flipped bytes.
pub open spec fn spec_control_follow_up(t: TelegramView) -> Option<(u32, Seq<u8>)> {
    if spec_is_baudrate_change(t) && t.data.len() == 4 {
        let flipped = seq![t.data[3], t.data[2], t.data[1], t.data[0]];
        Some(
            (
                spec_u32_from_le(t.data[3], t.data[2], t.data[1], t.data[0]),
                spec_control_encode(
                    ControlCommandView { command_type: CommandType::BAUDRATE, data: flipped },
                ),
            ),
        )
    } else {
        None
    }
}

/// A control exchange the bridge owes on the secondary channel.
pub struct ControlFollowUp {
    /// The baud rate the client asked for.
    pub rate: u32,
    /// The encoded control command to write.
    pub frame: Vec<u8>,
}

/// The control follow-up for a forwarded telegram: `Some` exactly for a
/// baud-rate change carrying four data bytes.
pub fn control_follow_up(t: &Telegram) -> (r: Option<ControlFollowUp>)
    ensures
        match r {
            Some(f) => spec_control_follow_up(t@) == Some((f.rate, f.frame@)),
            None => spec_control_follow_up(t@) is None,
        },
{
    if !telegram_is_baudrate_change(t) || t.data.len() != 4 {
        return None;
    }
    let flipped: [u8; 4] = [t.data[3], t.data[2], t.data[1], t.data[0]];
    let rate = u32_from_le(flipped[0], flipped[1], flipped[2], flipped[3]);
    let cmd = ControlCommand::new(CommandType::BAUDRATE, flipped);
    let frame = cmd.serialize();
    proof {
        assert(flipped@ =~= seq![t@.data[3], t@.data[2], t@.data[1], t@.data[0]]);
    }
    Some(ControlFollowUp { rate, frame })
}

/// The bytes written back to the client for one exchange outcome: the raw
/// response exactly when a notification arrived in time and decodes as a
/// telegram; nothing on a decode failure, a closed stream or a timeout.
pub fn bridge_reply(outcome: ExchangeOutcome) -> (r: Option<Vec<u8>>)
    ensures
        match r {
            Some(v) => outcome@ == ExchangeOutcomeView::Received(v@) && spec_decode(v@) is Ok,
            None => match outcome@ {
                ExchangeOutcomeView::Received(b) => spec_decode(b) is Err,
                _ => true,
            },
        },
{
    match outcome {
        ExchangeOutcome::Received(v) => match Telegram::from_bytes(v.as_slice()) {
            Ok(_) => Some(v),
            Err(_) => None,
        },
        ExchangeOutcome::StreamEnded => None,
        ExchangeOutcome::TimedOut => None,
    }
}

/// Per-connection framing state: what the bridge waits for next.
#[derive(Clone, Copy, Debug, PartialEq, Eq, Structural)]
pub enum BridgeState {
    /// Waiting for the 2-byte big-endian body length.
    AwaitingLength,
    /// Waiting for exactly this many body bytes.
    AwaitingBody(u16),
    /// The connection is finished; the accept loop may serve the next client.
    Closed,
}

/// What the bridge does with one complete client message.
pub enum ForwardDecision {
    /// The body decoded: run one exchange with the body bytes unchanged; a
    /// baud-rate change owes the attached control follow-up afterwards.
    Forward(Option<ControlFollowUp>),
    /// The body did not decode: report the error, skip the message, keep the
    /// connection.
    Skip(TelegramError),
}

/// One client connection of the bridge. Each accepted connection starts a
/// fresh machine in `AwaitingLength`; nothing is shared between connections.
pub struct BridgeConn {
    state: BridgeState,
}

impl BridgeConn {
    /// What the connection waits for next.
    pub closed spec fn spec_state(self) -> BridgeState {
        self.state
    }

    pub fn new() -> (r: Self)
        ensures
            r.spec_state() == BridgeState::AwaitingLength,
    {
        BridgeConn { state: BridgeState::AwaitingLength }
    }

    /// What the connection waits for next.
    pub fn state(&self) -> (r: BridgeState)
        ensures
            r == self.spec_state(),
    {
        self.state
    }

    /// Consumes the 2-byte big-endian length prefix; the connection then
    /// waits for a body of exactly the returned length.
    pub fn on_length_read(&mut self, b0: u8, b1: u8) -> (len: u16)
        requires
            old(self).spec_state() == BridgeState::AwaitingLength,
        ensures
            len == spec_u16_from_be(b0, b1),
            final(self).spec_state() == BridgeState::AwaitingBody(len),
    {
        let len = u16_from_be(b0, b1);
        self.state = BridgeState::AwaitingBody(len);
        len
    }

    /// A client read failed (short read or disconnect): the connection is
    /// closed; the accept loop goes on to the next client.
    pub fn on_read_failure(&mut self)
        requires
            old(self).spec_state() != BridgeState::Closed,
        ensures
            final(self).spec_state() == BridgeState::Closed,
    {
        self.state = BridgeState::Closed;
    }

    /// Consumes a complete body and decides what to do with it; the
    /// connection returns to `AwaitingLength` whatever the decision.
    pub fn on_body_read(&mut self, body: &[u8]) -> (r: ForwardDecision)
        requires
            old(self).spec_state() matches BridgeState::AwaitingBody(len) && body@.len() == len,
        ensures
            final(self).spec_state() == BridgeState::AwaitingLength,
            match spec_decode(body@) {
                Ok(t) => r matches ForwardDecision::Forward(follow) && (match follow {
                    Some(f) => spec_control_follow_up(t) == Some((f.rate, f.frame@)),
                    None => spec_control_follow_up(t) is None,
                }),
                Err(e) => r matches ForwardDecision::Skip(err) && err == e,
            },
    {
        self.state = BridgeState::AwaitingLength;
        match Telegram::from_bytes(body) {
            Ok(t) => ForwardDecision::Forward(control_follow_up(&t)),
            Err(e) => ForwardDecision::Skip(e),
        }
    }
}

} // verus!
