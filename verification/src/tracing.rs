//! Trace ids on messages: a message that is sent can carry the ids of the span and of
//! the trace under which it was sent, so that the receiver can go on in the same trace.

use opentelemetry::sdk::trace::IdGenerator;
use opentelemetry::sdk::trace::RandomIdGenerator;
use vstd::prelude::*;
use crate::message::Message;
use crate::message::MessageView;
use crate::message::traced_header;

verus! {

/// A new span id, as a text. The id comes from `RandomIdGenerator::new_span_id` of
/// opentelemetry's sdk, which draws it at random, and is formatted as the id displays
/// itself. The contract says nothing of the text.
#[verifier::external_body]
fn fresh_span_id() -> (r: String) {
    RandomIdGenerator::default().new_span_id().to_string()
}

/// A new trace id, as a text. The id comes from `RandomIdGenerator::new_trace_id` of
/// opentelemetry's sdk, which draws it at random, and is formatted as the id displays
/// itself. The contract says nothing of the text.
#[verifier::external_body]
fn fresh_trace_id() -> (r: String) {
    RandomIdGenerator::default().new_trace_id().to_string()
}

/// Whether `after` is `before` with the two ids on its header.
pub open spec fn stamped(
    before: MessageView,
    after: MessageView,
    span_id: Seq<char>,
    trace_id: Seq<char>,
) -> bool {
    after == (MessageView { header: traced_header(before.header, span_id, trace_id), ..before })
}

/// Puts the ids of the current span and of its trace on the header of a message that
/// is about to be sent. Where the caller knows of no current span or trace, a new id
/// is drawn in its place. A message without a header is left as it is.
pub fn add_trace_to_message(
    message: &mut Message,
    span_id: Option<String>,
    trace_id: Option<String>,
)
    ensures
        exists|s: Seq<char>, t: Seq<char>|
            {
                &&& #[trigger] stamped(old(message)@, final(message)@, s, t)
                &&& span_id matches Some(id) ==> s == id@
                &&& trace_id matches Some(id) ==> t == id@
            },
{
    let span_id = match span_id {
        Some(id) => id,
        None => fresh_span_id(),
    };
    let trace_id = match trace_id {
        Some(id) => id,
        None => fresh_trace_id(),
    };
    let ghost s = span_id@;
    let ghost t = trace_id@;
    message.add_trace(span_id, trace_id);
    assert(stamped(old(message)@, message@, s, t));
}

} // verus!
