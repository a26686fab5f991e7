//! The fallback policy: when the orchestrator reports a detection on a route
//! that defines a fallback message, the model's answer is replaced by that
//! message, in a complete reply and in a streamed chunk alike.

use crate::api::{
    detections_fired, has_detections, opt_view, ChoiceView, ChunkView, DeltaView, Detections,
    GenerationChoice, GenerationMessage, MessageView, OrchestratorResponse, ReplyView,
    StreamChoiceView, StreamingDelta, StreamingResponse,
};
use vstd::prelude::*;
use vstd::string::*;

verus! {

/// The choice that replaces a reply's choices: an assistant message holding
/// the fallback text, finished with "stop", at index 0.
pub open spec fn fallback_choice_view(message: Seq<char>) -> ChoiceView {
    ChoiceView {
        finish_reason: "stop"@,
        index: 0,
        message: MessageView {
            content: message,
            refusal: None,
            role: "assistant"@,
            tool_calls: None,
            audio: None,
        },
        logprobs: None,
    }
}

/// A complete reply after the policy: when a detection fired and a fallback
/// message is set, its choices are the single fallback choice; otherwise it is
/// unchanged.
pub open spec fn fallback_reply(r: ReplyView, fallback: Option<Seq<char>>) -> ReplyView {
    match fallback {
        Some(m) => if detections_fired(r.detections) {
            ReplyView { choices: seq![fallback_choice_view(m)], ..r }
        } else {
            r
        },
        None => r,
    }
}

/// The delta written into the first choice of a chunk that carries a
/// detection.
pub open spec fn fallback_delta(message: Seq<char>) -> DeltaView {
    DeltaView { content: Some(message), role: Some("assistant"@), tool_calls: None }
}

/// A streamed chunk after the policy: when a detection fired, a fallback
/// message is set and the chunk has a choice, its first choice gets the
/// fallback delta and finish reason "stop"; everything else is unchanged.
pub open spec fn fallback_chunk(c: ChunkView, fallback: Option<Seq<char>>) -> ChunkView {
    match fallback {
        Some(m) => if detections_fired(c.detections) && c.choices.len() > 0 {
            ChunkView {
                choices: c.choices.update(
                    0,
                    StreamChoiceView {
                        delta: fallback_delta(m),
                        finish_reason: Some("stop"@),
                        ..c.choices[0]
                    },
                ),
                ..c
            }
        } else {
            c
        },
        None => c,
    }
}

/// The fallback choice owed for a reply with these detections on a route with
/// this fallback message, if any.
pub fn check_payload_detections(detections: &Option<Detections>, route_fallback_message: Option<String>) -> (r:
    Option<GenerationChoice>)
    ensures
        r is Some <==> (route_fallback_message is Some && detections_fired(*detections)),
        r matches Some(c) ==> c@ == fallback_choice_view(route_fallback_message->0@),
{
    match route_fallback_message {
        Some(fallback_message) => {
            if has_detections(detections) {
                Some(
                    GenerationChoice {
                        message: GenerationMessage::new(fallback_message),
                        finish_reason: String::from_str("stop"),
                        index: 0,
                        logprobs: None,
                    },
                )
            } else {
                None
            }
        },
        None => None,
    }
}

/// Applies the policy to a complete reply.
pub fn apply_fallback(reply: &mut OrchestratorResponse, route_fallback_message: &Option<String>)
    ensures
        final(reply)@ == fallback_reply(old(reply)@, opt_view(*route_fallback_message)),
{
    let fallback = route_fallback_message.clone();
    if let Some(choice) = check_payload_detections(&reply.detections, fallback) {
        let ghost c = choice@;
        reply.choices = vec![choice];
        assert(reply@.choices =~= seq![c]);
    }
}

/// Applies the policy to a streamed chunk.
pub fn apply_stream_fallback(chunk: &mut StreamingResponse, route_fallback_message: &Option<String>)
    ensures
        final(chunk)@ == fallback_chunk(old(chunk)@, opt_view(*route_fallback_message)),
{
    if let Some(fallback_message) = route_fallback_message {
        if has_detections(&chunk.detections) && chunk.choices.len() > 0 {
            let ghost before = chunk@;
            let mut first = chunk.choices.remove(0);
            first.delta = StreamingDelta {
                content: Some(fallback_message.clone()),
                role: Some(String::from_str("assistant")),
                tool_calls: None,
            };
            first.finish_reason = Some(String::from_str("stop"));
            chunk.choices.insert(0, first);
            assert(chunk@.choices =~= before.choices.update(
                0,
                StreamChoiceView {
                    delta: fallback_delta(fallback_message@),
                    finish_reason: Some("stop"@),
                    ..before.choices[0]
                },
            ));
        }
    }
}

/// Applying the policy to a reply it already rewrote changes nothing more.
pub proof fn lemma_fallback_reply_idempotent(r: ReplyView, fallback: Option<Seq<char>>)
    ensures
        fallback_reply(fallback_reply(r, fallback), fallback) == fallback_reply(r, fallback),
{
}

/// Applying the policy to a chunk it already rewrote changes nothing more.
pub proof fn lemma_fallback_chunk_idempotent(c: ChunkView, fallback: Option<Seq<char>>)
    ensures
        fallback_chunk(fallback_chunk(c, fallback), fallback) == fallback_chunk(c, fallback),
{
    if let Some(m) = fallback {
        if detections_fired(c.detections) && c.choices.len() > 0 {
            let once = fallback_chunk(c, fallback);
            assert(once.choices.update(
                0,
                StreamChoiceView {
                    delta: fallback_delta(m),
                    finish_reason: Some("stop"@),
                    ..once.choices[0]
                },
            ) =~= once.choices);
        }
    }
}

/// A reply without detections passes through the policy unchanged, choices
/// included, even on a route with a fallback message.
pub proof fn lemma_reply_without_detections_unchanged(r: ReplyView, fallback: Option<Seq<char>>)
    requires
        r.detections is None,
    ensures
        fallback_reply(r, fallback) == r,
        fallback_reply(r, fallback).choices == r.choices,
{
}

} // verus!
