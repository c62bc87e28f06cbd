//! The producer side of one model query: turns what the model collaborator
//! yields into the ordered `StartAnswer`, `Answer`..., `EndAnswer` events,
//! observing the cancellation flag before each chunk.
use crate::event::ModelAnswer;
use vstd::prelude::*;

verus! {

/// The lifecycle of one streamed answer.
#[derive(Debug, Clone, Copy, PartialEq, Eq, Structural)]
pub enum StreamState {
    /// Nothing was published yet.
    Idle,
    /// The query was submitted and `StartAnswer` published.
    Requested,
    /// At least one chunk was published.
    Streaming,
    /// The cancellation flag was observed; no further chunk is published.
    Cancelled,
    /// `EndAnswer` was published; nothing more ever is.
    Completed,
}

/// One thing that happens to the producer.
pub enum StreamInput {
    /// The query is submitted.
    Start,
    /// The collaborator yielded a chunk; `cancelled` is the flag as observed.
    Chunk(String, bool),
    /// The collaborator ended the stream, or failed.
    Finish,
}

/// The state after one input, and the event it publishes.
pub open spec fn stream_step(s: StreamState, i: StreamInput) -> (StreamState, Option<ModelAnswer>) {
    match i {
        StreamInput::Start => if s == StreamState::Idle {
            (StreamState::Requested, Some(ModelAnswer::StartAnswer))
        } else {
            (s, None)
        },
        StreamInput::Chunk(c, cancelled) => if s == StreamState::Requested || s == StreamState::Streaming {
            if cancelled {
                (StreamState::Cancelled, None)
            } else {
                (StreamState::Streaming, Some(ModelAnswer::Answer(c)))
            }
        } else {
            (s, None)
        },
        StreamInput::Finish => if s == StreamState::Idle || s == StreamState::Completed {
            (s, None)
        } else {
            (StreamState::Completed, Some(ModelAnswer::EndAnswer))
        },
    }
}

/// The state after a run of inputs from `Idle`, and every event published.
pub open spec fn stream_run(inputs: Seq<StreamInput>) -> (StreamState, Seq<ModelAnswer>)
    decreases inputs.len(),
{
    if inputs.len() == 0 {
        (StreamState::Idle, Seq::empty())
    } else {
        let (s, out) = stream_run(inputs.drop_last());
        let (t, e) = stream_step(s, inputs.last());
        match e {
            Some(a) => (t, out.push(a)),
            None => (t, out),
        }
    }
}

/// `out` is one `StartAnswer`, then chunks only.
pub open spec fn is_open_answer(out: Seq<ModelAnswer>) -> bool {
    &&& out.len() >= 1
    &&& out[0] == ModelAnswer::StartAnswer
    &&& forall|k: int| 1 <= k < out.len() ==> out[k] is Answer
}

/// `out` is one `StartAnswer`, zero or more chunks, and one `EndAnswer`.
pub open spec fn is_complete_answer(out: Seq<ModelAnswer>) -> bool {
    &&& out.len() >= 2
    &&& is_open_answer(out.drop_last())
    &&& out.last() == ModelAnswer::EndAnswer
}

/// What has been published so far, given the state reached.
pub open spec fn published_so_far(s: StreamState, out: Seq<ModelAnswer>) -> bool {
    match s {
        StreamState::Idle => out.len() == 0,
        StreamState::Completed => is_complete_answer(out),
        _ => is_open_answer(out),
    }
}

/// Whatever the collaborator yields and whenever the flag is set, a producer
/// that reaches `Completed` has published exactly one `StartAnswer`, then only
/// chunks, then exactly one `EndAnswer`; before that it has published a prefix
/// of such a sequence.
pub proof fn lemma_stream_well_formed(inputs: Seq<StreamInput>)
    ensures
        published_so_far(stream_run(inputs).0, stream_run(inputs).1),
        stream_run(inputs).0 == StreamState::Completed ==> is_complete_answer(stream_run(inputs).1),
    decreases inputs.len(),
{
    if inputs.len() > 0 {
        lemma_stream_well_formed(inputs.drop_last());
        let (s, out) = stream_run(inputs.drop_last());
        let (t, e) = stream_step(s, inputs.last());
        if let Some(a) = e {
            assert(out.push(a).drop_last() =~= out);
            if t != StreamState::Completed && s != StreamState::Idle {
                assert forall|k: int| 1 <= k < out.push(a).len() implies out.push(a)[k] is Answer by {
                    if k < out.len() {
                        assert(out.push(a)[k] == out[k]);
                    }
                }
            }
        }
    }
}

/// The producer of one streamed answer.
pub struct ResponseStream {
    state: StreamState,
}

impl ResponseStream {
    pub closed spec fn spec_state(&self) -> StreamState {
        self.state
    }

    pub fn new() -> (r: ResponseStream)
        ensures
            r.spec_state() == StreamState::Idle,
    {
        ResponseStream { state: StreamState::Idle }
    }

    /// The current state.
    pub fn state(&self) -> (r: StreamState)
        ensures
            r == self.spec_state(),
    {
        self.state
    }

    /// Takes one input and returns the event to publish, if any.
    pub fn step(&mut self, i: StreamInput) -> (r: Option<ModelAnswer>)
        ensures
            (final(self).spec_state(), r) == stream_step(old(self).spec_state(), i),
    {
        let s = self.state;
        match i {
            StreamInput::Start => {
                if s == StreamState::Idle {
                    self.state = StreamState::Requested;
                    Some(ModelAnswer::StartAnswer)
                } else {
                    None
                }
            },
            StreamInput::Chunk(c, cancelled) => {
                if s == StreamState::Requested || s == StreamState::Streaming {
                    if cancelled {
                        self.state = StreamState::Cancelled;
                        None
                    } else {
                        self.state = StreamState::Streaming;
                        Some(ModelAnswer::Answer(c))
                    }
                } else {
                    None
                }
            },
            StreamInput::Finish => {
                if s == StreamState::Idle || s == StreamState::Completed {
                    None
                } else {
                    self.state = StreamState::Completed;
                    Some(ModelAnswer::EndAnswer)
                }
            },
        }
    }
}

} // verus!
