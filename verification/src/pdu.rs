//! Message PDU builder: a message-type tag plus accumulated options, handed
//! to the engine's transmit call once.
use vstd::prelude::*;

verus! {

/// Message type of the PDU.
///
/// Has the following types:
///     * `CON`: confirmable message (requires ACK/RST)
///     * `NON`: non-confirmable message (one-shot message)
///     * `ACK`: used to acknowledge confirmable messages
///     * `RST`: indicates error in received messages
#[derive(Clone, Copy, Debug, PartialEq, Eq)]
pub enum MessageType {
    CON,
    NON,
    ACK,
    RST,
}

impl MessageType {
    /// The engine's numeric tag for this message type.
    pub open spec fn tag_spec(self) -> u8 {
        match self {
            MessageType::CON => 0,
            MessageType::NON => 1,
            MessageType::ACK => 2,
            MessageType::RST => 3,
        }
    }

    /// Numeric message-type tag handed to the engine's PDU constructor.
    pub fn tag(&self) -> (r: u8)
        ensures
            r == self.tag_spec(),
    {
        match self {
            MessageType::CON => 0,
            MessageType::NON => 1,
            MessageType::ACK => 2,
            MessageType::RST => 3,
        }
    }
}

/// One accumulated option: a numeric code and its byte payload. The payload
/// length travels with the payload itself.
#[derive(Clone, Debug, PartialEq, Eq)]
pub struct CoapOption {
    pub code: u16,
    pub value: Vec<u8>,
}

/// Where a PDU stands in its single-use life: still accumulating options, or
/// already handed to the transmit call.
#[derive(Clone, Copy, Debug, PartialEq, Eq)]
pub enum PduState {
    Building,
    Ready,
}

/// A message being built: a message-type tag and the options accumulated so
/// far, in call order. A PDU is consumed by transmission exactly once;
/// `mark_sent` records the handoff and rejects a second use.
pub struct PDU {
    message_type: MessageType,
    options: Vec<CoapOption>,
    state: PduState,
}

impl PDU {
    /// The message type the PDU was created with.
    pub closed spec fn spec_message_type(&self) -> MessageType {
        self.message_type
    }

    /// The accumulated options, in the order the calls were made.
    pub closed spec fn spec_options(&self) -> Seq<CoapOption> {
        self.options@
    }

    /// Whether the PDU still accumulates options or was already sent.
    pub closed spec fn spec_state(&self) -> PduState {
        self.state
    }

    /// Completes a PDU-allocation call from the engine's reply: a handle
    /// makes a fresh builder with the given message type and no options; no
    /// handle (for one, a session without a configured maximum PDU size) is
    /// a terminal failure.
    pub fn new(message_type: MessageType, engine_returned_handle: bool) -> (r: Option<PDU>)
        ensures
            match r {
                Some(p) => engine_returned_handle && p.spec_message_type() == message_type
                    && p.spec_options() == Seq::<CoapOption>::empty() && p.spec_state()
                    == PduState::Building,
                None => !engine_returned_handle,
            },
    {
        if engine_returned_handle {
            Some(PDU { message_type, options: Vec::new(), state: PduState::Building })
        } else {
            None
        }
    }

    /// The message type the PDU reports about itself.
    pub fn message_type(&self) -> (r: MessageType)
        ensures
            r == self.spec_message_type(),
    {
        self.message_type
    }

    /// Appends one option while the PDU is still building: after N accepted
    /// calls the PDU holds N options in call order. A PDU already handed to
    /// the transmit call is left unchanged and the option is rejected.
    pub fn add_option(&mut self, code: u16, value: Vec<u8>) -> (accepted: bool)
        ensures
            accepted == (old(self).spec_state() == PduState::Building),
            accepted ==> final(self).spec_options() == old(self).spec_options().push(
                CoapOption { code, value },
            ),
            !accepted ==> final(self).spec_options() == old(self).spec_options(),
            final(self).spec_message_type() == old(self).spec_message_type(),
            final(self).spec_state() == old(self).spec_state(),
    {
        match self.state {
            PduState::Building => {
                self.options.push(CoapOption { code, value });
                true
            },
            PduState::Ready => false,
        }
    }

    /// The accumulated options, in call order, for replay into the engine at
    /// transmit time.
    pub fn options(&self) -> (r: &Vec<CoapOption>)
        ensures
            r@ == self.spec_options(),
    {
        &self.options
    }

    /// Records the handoff to the transmit call and says whether this PDU
    /// may actually be transmitted: only the first time. A second handoff is
    /// rejected — a PDU is single-use.
    pub fn mark_sent(&mut self) -> (first_use: bool)
        ensures
            final(self).spec_state() == PduState::Ready,
            first_use == (old(self).spec_state() == PduState::Building),
            final(self).spec_options() == old(self).spec_options(),
            final(self).spec_message_type() == old(self).spec_message_type(),
    {
        let first = match self.state {
            PduState::Building => true,
            PduState::Ready => false,
        };
        self.state = PduState::Ready;
        first
    }
}

} // verus!
