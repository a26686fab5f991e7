//! The shapes exchanged with the orchestrator: the detector selection sent
//! with each request, and the replies that come back, whole or in chunks.
//!
//! Each reply type has a view in which its strings are character sequences;
//! the contracts of the fallback policy are stated over those views.

use vstd::prelude::*;
use vstd::string::*;

verus! {

/// A map from server key to detector parameters, kept as a list of entries
/// whose keys are distinct.
#[derive(Clone, Debug)]
pub struct ParamMap {
    pub entries: Vec<(String, serde_json::Value)>,
}

impl ParamMap {
    /// No two entries share a key.
    pub open spec fn wf(&self) -> bool {
        forall|i: int, j: int|
            0 <= i < j < self.entries@.len() ==> (#[trigger] self.entries@[i]).0@
                != (#[trigger] self.entries@[j]).0@
    }

    /// Whether some entry has key `k`.
    pub open spec fn has_key(&self, k: Seq<char>) -> bool {
        exists|i: int| 0 <= i < self.entries@.len() && (#[trigger] self.entries@[i]).0@ == k
    }

    /// The position of the entry with key `k`.
    pub open spec fn index_of(&self, k: Seq<char>) -> int {
        choose|i: int| 0 <= i < self.entries@.len() && (#[trigger] self.entries@[i]).0@ == k
    }

    /// The map that the entries stand for.
    pub open spec fn view(&self) -> Map<Seq<char>, serde_json::Value> {
        Map::new(|k: Seq<char>| self.has_key(k), |k: Seq<char>| self.entries@[self.index_of(k)].1)
    }

    /// The empty map.
    pub fn new() -> (r: Self)
        ensures
            r.wf(),
            r.view() == Map::<Seq<char>, serde_json::Value>::empty(),
    {
        let r = ParamMap { entries: Vec::new() };
        assert(r.view() =~= Map::<Seq<char>, serde_json::Value>::empty());
        r
    }

    /// Sets the parameters of `key`, replacing those it had.
    pub fn insert(&mut self, key: String, value: serde_json::Value)
        requires
            old(self).wf(),
        ensures
            final(self).wf(),
            final(self).view() == old(self).view().insert(key@, value),
    {
        let ghost k = key@;
        let n = self.entries.len();
        let mut i: usize = 0;
        while i < n
            invariant
                0 <= i <= n,
                n == self.entries@.len(),
                *self == *old(self),
                self.wf(),
                k == key@,
                forall|m: int| 0 <= m < i ==> (#[trigger] self.entries@[m]).0@ != k,
            decreases n - i,
        {
            let entry = &self.entries[i];
            let same = entry.0.eq(&key);
            if same {
                let ghost before = *self;
                assert(before.entries@[i as int].0@ == k);
                self.entries.set(i, (key, value));
                proof {
                    assert forall|a: int, b: int|
                        0 <= a < b < self.entries@.len() implies (#[trigger] self.entries@[a]).0@
                        != (#[trigger] self.entries@[b]).0@ by {
                        assert(before.entries@[a].0@ != before.entries@[b].0@);
                    }
                    assert forall|q: Seq<char>| #[trigger] self.has_key(q) == before.has_key(q) by {
                        if before.has_key(q) {
                            let m = choose|m: int|
                                0 <= m < before.entries@.len() && (#[trigger] before.entries@[m]).0@ == q;
                            assert(self.entries@[m].0@ == q);
                        }
                        if self.has_key(q) {
                            let m = choose|m: int|
                                0 <= m < self.entries@.len() && (#[trigger] self.entries@[m]).0@ == q;
                            assert(before.entries@[m].0@ == q);
                        }
                    }
                    assert forall|q: Seq<char>| #[trigger] self.has_key(q) implies self.index_of(q) == if q
                        == k {
                        i as int
                    } else {
                        before.index_of(q)
                    } by {
                        let m = self.index_of(q);
                        if q != k {
                            let p = before.index_of(q);
                            assert(before.entries@[p].0@ == q);
                            assert(self.entries@[p].0@ == q);
                        }
                    }
                    assert(self.view() =~= before.view().insert(k, value));
                }
                return;
            }
            i += 1;
        }
        let ghost before = *self;
        self.entries.push((key, value));
        proof {
            assert forall|a: int, b: int|
                0 <= a < b < self.entries@.len() implies (#[trigger] self.entries@[a]).0@
                != (#[trigger] self.entries@[b]).0@ by {
                if b < n {
                    assert(before.entries@[a].0@ != before.entries@[b].0@);
                }
            }
            assert forall|q: Seq<char>| #[trigger] self.has_key(q) == (before.has_key(q) || q == k) by {
                if before.has_key(q) {
                    let m = choose|m: int|
                        0 <= m < before.entries@.len() && (#[trigger] before.entries@[m]).0@ == q;
                    assert(self.entries@[m].0@ == q);
                }
                if q == k {
                    assert(self.entries@[n as int].0@ == q);
                }
                if self.has_key(q) && q != k {
                    let m = choose|m: int|
                        0 <= m < self.entries@.len() && (#[trigger] self.entries@[m]).0@ == q;
                    assert(before.entries@[m].0@ == q);
                }
            }
            assert forall|q: Seq<char>| #[trigger] self.has_key(q) implies self.index_of(q) == if q == k {
                n as int
            } else {
                before.index_of(q)
            } by {
                let m = self.index_of(q);
                if q != k {
                    let p = before.index_of(q);
                    assert(before.entries@[p].0@ == q);
                    assert(self.entries@[p].0@ == q);
                }
            }
            assert(self.view() =~= before.view().insert(k, value));
        }
    }
}

/// The detectors sent to the orchestrator with a request, by role.
#[derive(Clone, Debug)]
pub struct OrchestratorDetector {
    pub input: ParamMap,
    pub output: ParamMap,
}

/// A message of a completed choice.
#[derive(Clone, Debug)]
pub struct GenerationMessage {
    pub content: String,
    pub refusal: Option<String>,
    pub role: String,
    pub tool_calls: Option<serde_json::Value>,
    pub audio: Option<serde_json::Value>,
}

/// A message as the contracts see it.
pub struct MessageView {
    pub content: Seq<char>,
    pub refusal: Option<Seq<char>>,
    pub role: Seq<char>,
    pub tool_calls: Option<serde_json::Value>,
    pub audio: Option<serde_json::Value>,
}

/// The view of an optional string.
pub open spec fn opt_view(s: Option<String>) -> Option<Seq<char>> {
    match s {
        Some(t) => Some(t@),
        None => None,
    }
}

impl View for GenerationMessage {
    type V = MessageView;

    open spec fn view(&self) -> MessageView {
        MessageView {
            content: self.content@,
            refusal: opt_view(self.refusal),
            role: self.role@,
            tool_calls: self.tool_calls,
            audio: self.audio,
        }
    }
}

impl GenerationMessage {
    /// An assistant message with the given content and nothing else.
    pub fn new(message: String) -> (r: Self)
        ensures
            r@ == (MessageView {
                content: message@,
                refusal: None,
                role: "assistant"@,
                tool_calls: None,
                audio: None,
            }),
    {
        GenerationMessage {
            content: message,
            refusal: None,
            role: String::from_str("assistant"),
            tool_calls: None,
            audio: None,
        }
    }
}

/// One choice of a complete reply.
#[derive(Clone, Debug)]
pub struct GenerationChoice {
    pub finish_reason: String,
    pub index: u32,
    pub message: GenerationMessage,
    pub logprobs: Option<serde_json::Value>,
}

/// A choice of a complete reply as the contracts see it.
pub struct ChoiceView {
    pub finish_reason: Seq<char>,
    pub index: u32,
    pub message: MessageView,
    pub logprobs: Option<serde_json::Value>,
}

impl View for GenerationChoice {
    type V = ChoiceView;

    open spec fn view(&self) -> ChoiceView {
        ChoiceView {
            finish_reason: self.finish_reason@,
            index: self.index,
            message: self.message@,
            logprobs: self.logprobs,
        }
    }
}

/// One finding of a detector.
#[derive(Debug)]
pub struct DetectionResult {
    pub start: serde_json::Value,
    pub end: u32,
    pub text: String,
    pub detection_type: String,
    pub detection: String,
    pub detector_id: String,
    pub score: serde_json::Number,
}

/// The findings on one input message.
#[derive(Debug)]
pub struct InputDetection {
    pub message_index: u16,
    pub results: Option<Vec<DetectionResult>>,
}

/// The findings on one output choice.
#[derive(Debug)]
pub struct OutputDetection {
    pub choice_index: u32,
    pub results: Option<Vec<DetectionResult>>,
}

/// What the detectors found, on the input and on the output.
#[derive(Debug)]
pub struct Detections {
    pub input: Option<Vec<InputDetection>>,
    pub output: Option<Vec<OutputDetection>>,
}

/// Whether a reply's `detections` reports anything: it is present and lists
/// at least one input or output finding.
pub open spec fn detections_fired(d: Option<Detections>) -> bool {
    match d {
        Some(x) => (match x.input {
            Some(v) => v@.len() > 0,
            None => false,
        }) || (match x.output {
            Some(v) => v@.len() > 0,
            None => false,
        }),
        None => false,
    }
}

/// Whether `detections` reports anything.
pub fn has_detections(detections: &Option<Detections>) -> (r: bool)
    ensures
        r == detections_fired(*detections),
{
    match detections {
        Some(x) => {
            let on_input = match &x.input {
                Some(v) => v.len() > 0,
                None => false,
            };
            let on_output = match &x.output {
                Some(v) => v.len() > 0,
                None => false,
            };
            on_input || on_output
        },
        None => false,
    }
}

/// A complete reply of the orchestrator.
#[derive(Debug)]
pub struct OrchestratorResponse {
    pub id: String,
    pub choices: Vec<GenerationChoice>,
    pub created: u64,
    pub model: String,
    pub service_tier: Option<String>,
    pub system_fingerprint: Option<String>,
    pub object: Option<String>,
    pub usage: serde_json::Value,
    pub detections: Option<Detections>,
    pub warnings: Option<Vec<std::collections::HashMap<String, String>>>,
}

/// A complete reply as the contracts see it.
pub struct ReplyView {
    pub id: Seq<char>,
    pub choices: Seq<ChoiceView>,
    pub created: u64,
    pub model: Seq<char>,
    pub service_tier: Option<Seq<char>>,
    pub system_fingerprint: Option<Seq<char>>,
    pub object: Option<Seq<char>>,
    pub usage: serde_json::Value,
    pub detections: Option<Detections>,
    pub warnings: Option<Vec<std::collections::HashMap<String, String>>>,
}

impl View for OrchestratorResponse {
    type V = ReplyView;

    open spec fn view(&self) -> ReplyView {
        ReplyView {
            id: self.id@,
            choices: self.choices@.map_values(|c: GenerationChoice| c@),
            created: self.created,
            model: self.model@,
            service_tier: opt_view(self.service_tier),
            system_fingerprint: opt_view(self.system_fingerprint),
            object: opt_view(self.object),
            usage: self.usage,
            detections: self.detections,
            warnings: self.warnings,
        }
    }
}

/// The increment of one choice in a streamed chunk.
#[derive(Clone, Debug)]
pub struct StreamingDelta {
    pub content: Option<String>,
    pub role: Option<String>,
    pub tool_calls: Option<serde_json::Value>,
}

/// A streamed delta as the contracts see it.
pub struct DeltaView {
    pub content: Option<Seq<char>>,
    pub role: Option<Seq<char>>,
    pub tool_calls: Option<serde_json::Value>,
}

impl View for StreamingDelta {
    type V = DeltaView;

    open spec fn view(&self) -> DeltaView {
        DeltaView {
            content: opt_view(self.content),
            role: opt_view(self.role),
            tool_calls: self.tool_calls,
        }
    }
}

/// One choice of a streamed chunk.
#[derive(Clone, Debug)]
pub struct StreamingChoice {
    pub index: u32,
    pub delta: StreamingDelta,
    pub logprobs: Option<serde_json::Value>,
    pub finish_reason: Option<String>,
    pub stop_reason: Option<String>,
}

/// A choice of a streamed chunk as the contracts see it.
pub struct StreamChoiceView {
    pub index: u32,
    pub delta: DeltaView,
    pub logprobs: Option<serde_json::Value>,
    pub finish_reason: Option<Seq<char>>,
    pub stop_reason: Option<Seq<char>>,
}

impl View for StreamingChoice {
    type V = StreamChoiceView;

    open spec fn view(&self) -> StreamChoiceView {
        StreamChoiceView {
            index: self.index,
            delta: self.delta@,
            logprobs: self.logprobs,
            finish_reason: opt_view(self.finish_reason),
            stop_reason: opt_view(self.stop_reason),
        }
    }
}

/// One chunk of a streamed reply.
#[derive(Debug)]
pub struct StreamingResponse {
    pub id: String,
    pub object: String,
    pub created: u64,
    pub model: String,
    pub choices: Vec<StreamingChoice>,
    pub usage: Option<serde_json::Value>,
    pub detections: Option<Detections>,
    pub warnings: Option<Vec<std::collections::HashMap<String, String>>>,
}

/// A streamed chunk as the contracts see it.
pub struct ChunkView {
    pub id: Seq<char>,
    pub object: Seq<char>,
    pub created: u64,
    pub model: Seq<char>,
    pub choices: Seq<StreamChoiceView>,
    pub usage: Option<serde_json::Value>,
    pub detections: Option<Detections>,
    pub warnings: Option<Vec<std::collections::HashMap<String, String>>>,
}

impl View for StreamingResponse {
    type V = ChunkView;

    open spec fn view(&self) -> ChunkView {
        ChunkView {
            id: self.id@,
            object: self.object@,
            created: self.created,
            model: self.model@,
            choices: self.choices@.map_values(|c: StreamingChoice| c@),
            usage: self.usage,
            detections: self.detections,
            warnings: self.warnings,
        }
    }
}

} // verus!
