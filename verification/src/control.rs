//! The inbound control rule: which messages retarget the source tag.
//!
//! Text arrives as JSON of the shape
//! `{"type": "VOICE_CONTEXT", "data": {"source": <0..=255>}}`. The caller
//! turns text into a [`ControlEnvelope`], or into `None` where the text does
//! not parse as one; this module decides what the message does.

use vstd::prelude::*;

verus! {

/// The payload of a control envelope.
#[derive(Clone, Copy, Debug, PartialEq, Eq, Structural)]
pub struct ControlData {
    /// The source tag to switch to, if the message carries one.
    pub source: Option<u8>,
}

/// A parsed control message.
#[derive(Clone, Debug)]
pub struct ControlEnvelope {
    /// The message type.
    pub msg_type: String,
    /// The payload, if the message has one.
    pub data: Option<ControlData>,
}

/// What a message does.
#[derive(Clone, Copy, Debug, PartialEq, Eq, Structural)]
pub enum ControlAction {
    /// Outgoing frames carry this source tag from now on.
    SetSource(u8),
    /// The message changes nothing; its text is shown to the operator as it
    /// came.
    PassThrough,
}

/// The message type that retargets the source tag.
pub open spec fn context_type() -> Seq<char> {
    "VOICE_CONTEXT"@
}

/// The source tag that a message sets, if it sets one: the message parsed,
/// its type is the context type, and its payload carries a source.
pub open spec fn requested_source(parsed: Option<&ControlEnvelope>) -> Option<u8> {
    match parsed {
        Some(envelope) => if envelope.msg_type@ == context_type() {
            match envelope.data {
                Some(data) => data.source,
                None => None,
            }
        } else {
            None
        },
        None => None,
    }
}

/// What a message does.
pub open spec fn control_outcome(parsed: Option<&ControlEnvelope>) -> ControlAction {
    match requested_source(parsed) {
        Some(source) => ControlAction::SetSource(source),
        None => ControlAction::PassThrough,
    }
}

/// The source tag after a message, given the tag before it.
pub open spec fn source_after(current: u8, parsed: Option<&ControlEnvelope>) -> u8 {
    match requested_source(parsed) {
        Some(source) => source,
        None => current,
    }
}

/// Decides what an inbound message does. `parsed` is `None` for text that is
/// not a control envelope; such text never fails, it passes through.
pub fn interpret_control(parsed: Option<&ControlEnvelope>) -> (r: ControlAction)
    ensures
        r == control_outcome(parsed),
{
    match parsed {
        Some(envelope) => {
            let wanted: String = "VOICE_CONTEXT".to_owned();
            if envelope.msg_type == wanted {
                match envelope.data {
                    Some(data) => match data.source {
                        Some(source) => ControlAction::SetSource(source),
                        None => ControlAction::PassThrough,
                    },
                    None => ControlAction::PassThrough,
                }
            } else {
                ControlAction::PassThrough
            }
        },
        None => ControlAction::PassThrough,
    }
}

/// The source tag that outgoing frames carry after an inbound message.
pub fn apply_control(current: u8, parsed: Option<&ControlEnvelope>) -> (r: u8)
    ensures
        r == source_after(current, parsed),
{
    match interpret_control(parsed) {
        ControlAction::SetSource(source) => source,
        ControlAction::PassThrough => current,
    }
}

/// Text that is not a control envelope leaves the source tag as it was.
pub proof fn lemma_unparsed_text_changes_nothing(current: u8)
    ensures
        source_after(current, None) == current,
        control_outcome(None) == ControlAction::PassThrough,
{
}

} // verus!
