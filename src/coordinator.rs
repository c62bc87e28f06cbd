//! The decisions of the coordination loop: the sole consumer of the event
//! channel, which owns the conversation state and turns each event into a new
//! state, an effect for the surrounding runtime to perform, and at most one
//! follow-up event to publish.
use crate::event::{Event, ModelAnswer, VoiceEvent, VoiceRequest};
use vstd::prelude::*;

verus! {

/// Intermediate chunks longer than this many characters may be spoken.
pub const VOICE_CHUNK_MIN_CHARS: usize = 80;

/// The author of a message in the conversation history.
#[derive(Debug, Clone, Copy, PartialEq, Eq, Structural)]
pub enum Role {
    User,
    Assistant,
}

/// Where the coordinator stands in the current query.
#[derive(Debug, Clone, Copy, PartialEq, Eq, Structural)]
pub enum Phase {
    /// No query is in flight.
    Idle,
    /// A query was submitted and no answer has started yet.
    Waiting,
    /// An answer is streaming in.
    Streaming,
}

/// One entry of the conversation history.
#[derive(Debug, Clone, PartialEq, Eq)]
pub struct Message {
    pub role: Role,
    pub text: String,
}

/// What the runtime around the coordinator must do after an event.
#[derive(Debug, Clone, PartialEq, Eq)]
pub enum Effect<K, M> {
    Nothing,
    /// Advance time-based interface state (spinners, animations).
    AdvanceTick,
    /// Hand the key to the input-handling collaborator.
    HandleKey(K),
    /// Hand the mouse input to the input-handling collaborator.
    HandleMouse(M),
    /// Hand the new terminal size to the input-handling collaborator.
    HandleResize(u16, u16),
    /// Start playback of the request in the background, without waiting for it.
    Play(VoiceRequest),
    /// Record a playback failure for display.
    ReportVoiceError(String),
}

/// The coordinator's answer to one event.
pub struct Reaction<K, M> {
    pub effect: Effect<K, M>,
    /// An event to publish into the channel before the next one is drained.
    pub follow_up: Option<Event<K, M>>,
}

/// The conversation state owned by the coordination loop.
pub struct Coordinator {
    spinner_active: bool,
    phase: Phase,
    cancelled: bool,
    answer: String,
    history: Vec<Message>,
    notifications: Vec<String>,
    default_voice: Option<String>,
}

/// The abstract state of a [`Coordinator`].
pub struct CoordinatorView {
    pub spinner_active: bool,
    pub phase: Phase,
    /// The cancellation flag of the query in flight.
    pub cancelled: bool,
    /// The plain text of the answer streaming in.
    pub answer: Seq<char>,
    pub history: Seq<(Role, Seq<char>)>,
    pub notifications: Seq<Seq<char>>,
    pub default_voice: Option<Seq<char>>,
}

/// The abstract value of a voice request: its text and its voice.
pub type VoiceRequestView = (Seq<char>, Option<Seq<char>>);

pub open spec fn opt_string_view(o: Option<String>) -> Option<Seq<char>> {
    match o {
        Some(s) => Some(s@),
        None => None,
    }
}

pub open spec fn request_view(q: VoiceRequest) -> VoiceRequestView {
    (q.text@, opt_string_view(q.voice))
}

pub open spec fn message_view(m: Message) -> (Role, Seq<char>) {
    (m.role, m.text@)
}

pub open spec fn string_view(s: String) -> Seq<char> {
    s@
}

impl View for Coordinator {
    type V = CoordinatorView;

    closed spec fn view(&self) -> CoordinatorView {
        CoordinatorView {
            spinner_active: self.spinner_active,
            phase: self.phase,
            cancelled: self.cancelled,
            answer: self.answer@,
            history: self.history@.map_values(|m: Message| message_view(m)),
            notifications: self.notifications@.map_values(|n: String| string_view(n)),
            default_voice: opt_string_view(self.default_voice),
        }
    }
}

/// A chunk is substantial enough to be spoken on its own when it is longer
/// than the threshold and holds sentence-ending punctuation.
pub open spec fn is_substantial(s: Seq<char>) -> bool {
    s.len() > VOICE_CHUNK_MIN_CHARS && s.contains('.')
}

/// Chunks are taken while an answer streams and its query was not cancelled;
/// any other chunk is a stray and is discarded.
pub open spec fn accepts_chunk(v: CoordinatorView) -> bool {
    v.phase == Phase::Streaming && !v.cancelled
}

/// The state after the end of an answer: the streamed text becomes one
/// assistant message, once, and the query is over.
pub open spec fn finalize(v: CoordinatorView) -> CoordinatorView {
    CoordinatorView {
        spinner_active: false,
        phase: Phase::Idle,
        cancelled: false,
        answer: Seq::empty(),
        history: if v.phase == Phase::Streaming {
            v.history.push((Role::Assistant, v.answer))
        } else {
            v.history
        },
        ..v
    }
}

/// The state after one piece of a model answer.
pub open spec fn after_model(v: CoordinatorView, a: ModelAnswer) -> CoordinatorView {
    match a {
        ModelAnswer::StartAnswer => CoordinatorView {
            spinner_active: false,
            phase: Phase::Streaming,
            answer: Seq::empty(),
            ..v
        },
        ModelAnswer::Answer(c) => if accepts_chunk(v) {
            CoordinatorView { answer: v.answer + c@, ..v }
        } else {
            v
        },
        ModelAnswer::EndAnswer => finalize(v),
    }
}

/// The voice request that one piece of a model answer gives rise to.
pub open spec fn voice_for_answer(v: CoordinatorView, a: ModelAnswer) -> Option<VoiceRequestView> {
    match a {
        ModelAnswer::Answer(c) => if accepts_chunk(v) && is_substantial(c@) {
            Some((c@, None))
        } else {
            None
        },
        ModelAnswer::EndAnswer => if v.phase == Phase::Streaming && v.answer.len() > 0 {
            Some((v.answer, v.default_voice))
        } else {
            None
        },
        ModelAnswer::StartAnswer => None,
    }
}

/// The state after one event.
pub open spec fn after_event<K, M>(v: CoordinatorView, e: Event<K, M>) -> CoordinatorView {
    match e {
        Event::ModelEvent(a) => after_model(v, a),
        Event::Notification(n) => CoordinatorView { notifications: v.notifications.push(n@), ..v },
        _ => v,
    }
}

/// The voice request that one event gives rise to.
pub open spec fn voice_for_event<K, M>(v: CoordinatorView, e: Event<K, M>) -> Option<VoiceRequestView> {
    match e {
        Event::ModelEvent(a) => voice_for_answer(v, a),
        _ => None,
    }
}

/// The effect that one event asks of the runtime.
pub open spec fn effect_of<K, M>(e: Event<K, M>) -> Effect<K, M> {
    match e {
        Event::Tick => Effect::AdvanceTick,
        Event::Key(k) => Effect::HandleKey(k),
        Event::Mouse(m) => Effect::HandleMouse(m),
        Event::Resize(w, h) => Effect::HandleResize(w, h),
        Event::VoiceEvent(VoiceEvent::PlayText(q)) => Effect::Play(q),
        Event::VoiceEvent(VoiceEvent::Error(reason)) => Effect::ReportVoiceError(reason),
        _ => Effect::Nothing,
    }
}

/// `o` is the follow-up event that publishes the voice request `want`, if any.
pub open spec fn publishes<K, M>(o: Option<Event<K, M>>, want: Option<VoiceRequestView>) -> bool {
    match o {
        None => want is None,
        Some(Event::VoiceEvent(VoiceEvent::PlayText(q))) => want == Some(request_view(q)),
        Some(_) => false,
    }
}

/// The state after the user submits a query.
pub open spec fn after_submit(v: CoordinatorView, query: Seq<char>) -> CoordinatorView {
    CoordinatorView {
        spinner_active: true,
        phase: Phase::Waiting,
        cancelled: false,
        answer: Seq::empty(),
        history: v.history.push((Role::User, query)),
        ..v
    }
}

/// The state after the user asks to stop the query in flight.
pub open spec fn after_cancel(v: CoordinatorView) -> CoordinatorView {
    if v.phase == Phase::Idle {
        v
    } else {
        CoordinatorView { cancelled: true, ..v }
    }
}

/// The state after a run of answer chunks, taken in order.
pub open spec fn after_chunks(v: CoordinatorView, chunks: Seq<String>) -> CoordinatorView
    decreases chunks.len(),
{
    if chunks.len() == 0 {
        v
    } else {
        after_model(after_chunks(v, chunks.drop_last()), ModelAnswer::Answer(chunks.last()))
    }
}

/// The text of a run of chunks, joined in order.
pub open spec fn concat_chunks(chunks: Seq<String>) -> Seq<char>
    decreases chunks.len(),
{
    if chunks.len() == 0 {
        Seq::empty()
    } else {
        concat_chunks(chunks.drop_last()) + chunks.last()@
    }
}

/// Finalizing an answer twice adds no second history entry and speaks nothing
/// the second time.
pub proof fn lemma_finalize_once(v: CoordinatorView)
    ensures
        after_model(after_model(v, ModelAnswer::EndAnswer), ModelAnswer::EndAnswer).history
            == after_model(v, ModelAnswer::EndAnswer).history,
        voice_for_answer(after_model(v, ModelAnswer::EndAnswer), ModelAnswer::EndAnswer) is None,
{
}

/// Once the cancellation flag is set, chunks change nothing: the state,
/// and so the history written at the end of the answer, stays as it was.
pub proof fn lemma_cancelled_chunks_discarded(v: CoordinatorView, chunks: Seq<String>)
    requires
        v.cancelled,
    ensures
        after_chunks(v, chunks) == v,
        after_model(after_chunks(v, chunks), ModelAnswer::EndAnswer).history
            == after_model(v, ModelAnswer::EndAnswer).history,
    decreases chunks.len(),
{
    if chunks.len() > 0 {
        lemma_cancelled_chunks_discarded(v, chunks.drop_last());
    }
}

/// While an answer streams and is not cancelled, chunks append their text to
/// the answer and change nothing else.
pub proof fn lemma_streaming_chunks(v: CoordinatorView, chunks: Seq<String>)
    requires
        accepts_chunk(v),
    ensures
        after_chunks(v, chunks) == (CoordinatorView { answer: v.answer + concat_chunks(chunks), ..v }),
    decreases chunks.len(),
{
    if chunks.len() == 0 {
        assert(v.answer + concat_chunks(chunks) =~= v.answer);
    } else {
        lemma_streaming_chunks(v, chunks.drop_last());
        assert(v.answer + concat_chunks(chunks.drop_last()) + chunks.last()@
            =~= v.answer + concat_chunks(chunks));
    }
}

/// A query answered by a start, a run of chunks and an end adds exactly one
/// assistant message, the chunks joined in order, and speaks that text in full
/// with the default voice when it is not empty.
pub proof fn lemma_completed_answer(v: CoordinatorView, chunks: Seq<String>)
    requires
        !v.cancelled,
    ensures
        ({
            let streamed = after_chunks(after_model(v, ModelAnswer::StartAnswer), chunks);
            &&& after_model(streamed, ModelAnswer::EndAnswer).history
                == v.history.push((Role::Assistant, concat_chunks(chunks)))
            &&& voice_for_answer(streamed, ModelAnswer::EndAnswer) == if concat_chunks(chunks).len() > 0 {
                Some((concat_chunks(chunks), v.default_voice))
            } else {
                None::<VoiceRequestView>
            }
        }),
{
    let started = after_model(v, ModelAnswer::StartAnswer);
    lemma_streaming_chunks(started, chunks);
    assert(Seq::<char>::empty() + concat_chunks(chunks) =~= concat_chunks(chunks));
}

/// Cancelling mid-answer keeps the text streamed before the flag was set and
/// nothing after it: the history gains one assistant message made of the
/// chunks taken before the cancellation.
pub proof fn lemma_cancel_mid_answer(v: CoordinatorView, before: Seq<String>, after: Seq<String>)
    requires
        !v.cancelled,
    ensures
        ({
            let started = after_model(v, ModelAnswer::StartAnswer);
            let stopped = after_cancel(after_chunks(started, before));
            after_model(after_chunks(stopped, after), ModelAnswer::EndAnswer).history
                == v.history.push((Role::Assistant, concat_chunks(before)))
        }),
{
    let started = after_model(v, ModelAnswer::StartAnswer);
    lemma_streaming_chunks(started, before);
    assert(Seq::<char>::empty() + concat_chunks(before) =~= concat_chunks(before));
    let stopped = after_cancel(after_chunks(started, before));
    lemma_cancelled_chunks_discarded(stopped, after);
}

/// An intermediate chunk is spoken exactly when it is substantial; the end of
/// a streamed answer is spoken exactly when its text is not empty, whatever
/// its length.
pub proof fn lemma_voice_dispatch_policy(v: CoordinatorView, chunk: String)
    ensures
        accepts_chunk(v) ==> (voice_for_answer(v, ModelAnswer::Answer(chunk)) is Some
            <==> is_substantial(chunk@)),
        v.phase == Phase::Streaming ==> (voice_for_answer(v, ModelAnswer::EndAnswer) is Some
            <==> v.answer.len() > 0),
        v.phase == Phase::Streaming ==> (voice_for_answer(v, ModelAnswer::EndAnswer) is Some
            ==> voice_for_answer(v, ModelAnswer::EndAnswer)->Some_0.0 == v.answer),
{
}

/// Whether an intermediate chunk is worth speaking on its own.
pub fn is_substantial_chunk(chunk: &str) -> (r: bool)
    ensures
        r == is_substantial(chunk@),
{
    let n = chunk.unicode_len();
    if n <= VOICE_CHUNK_MIN_CHARS {
        return false;
    }
    let mut i: usize = 0;
    while i < n
        invariant
            n == chunk@.len(),
            n > VOICE_CHUNK_MIN_CHARS,
            i <= n,
            forall|j: int| 0 <= j < i ==> chunk@[j] != '.',
        decreases n - i,
    {
        if chunk.get_char(i) == '.' {
            assert(chunk@[i as int] == '.');
            assert(chunk@.contains('.'));
            return true;
        }
        i = i + 1;
    }
    false
}

fn clone_voice(o: &Option<String>) -> (r: Option<String>)
    ensures
        opt_string_view(r) == opt_string_view(*o),
{
    match o {
        Some(s) => Some(s.clone()),
        None => None,
    }
}

impl Coordinator {
    /// A coordinator with an empty conversation; `default_voice` is used to
    /// speak completed answers.
    pub fn new(default_voice: Option<String>) -> (r: Coordinator)
        ensures
            r@.spinner_active == false,
            r@.phase == Phase::Idle,
            r@.cancelled == false,
            r@.answer == Seq::<char>::empty(),
            r@.history == Seq::<(Role, Seq<char>)>::empty(),
            r@.notifications == Seq::<Seq<char>>::empty(),
            r@.default_voice == opt_string_view(default_voice),
    {
        let r = Coordinator {
            spinner_active: false,
            phase: Phase::Idle,
            cancelled: false,
            answer: String::new(),
            history: Vec::new(),
            notifications: Vec::new(),
            default_voice,
        };
        assert(r@.history =~= Seq::<(Role, Seq<char>)>::empty());
        assert(r@.notifications =~= Seq::<Seq<char>>::empty());
        r
    }

    /// Whether the "waiting for an answer" indicator is shown.
    pub fn spinner_active(&self) -> (r: bool)
        ensures
            r == self@.spinner_active,
    {
        self.spinner_active
    }

    /// Where the current query stands.
    pub fn phase(&self) -> (r: Phase)
        ensures
            r == self@.phase,
    {
        self.phase
    }

    /// The cancellation flag, for the producer of the answer to observe.
    pub fn is_cancelled(&self) -> (r: bool)
        ensures
            r == self@.cancelled,
    {
        self.cancelled
    }

    /// The plain text of the answer streaming in.
    pub fn answer(&self) -> (r: &str)
        ensures
            r@ == self@.answer,
    {
        self.answer.as_str()
    }

    /// The conversation history, oldest first.
    pub fn history(&self) -> (r: &Vec<Message>)
        ensures
            r@.map_values(|m: Message| message_view(m)) == self@.history,
    {
        &self.history
    }

    /// The notifications received, oldest first.
    pub fn notifications(&self) -> (r: &Vec<String>)
        ensures
            r@.map_values(|n: String| string_view(n)) == self@.notifications,
    {
        &self.notifications
    }

    /// Records the user's query and waits for its answer to start. A new query
    /// clears the cancellation flag.
    pub fn submit_query(&mut self, query: String)
        ensures
            final(self)@ == after_submit(old(self)@, query@),
    {
        let ghost before = self@;
        self.history.push(Message { role: Role::User, text: query });
        self.spinner_active = true;
        self.phase = Phase::Waiting;
        self.cancelled = false;
        self.answer = String::new();
        assert(self@.history =~= before.history.push((Role::User, query@)));
        assert(self@ == after_submit(before, query@));
    }

    /// Sets the cancellation flag of the query in flight, if there is one.
    pub fn request_cancel(&mut self)
        ensures
            final(self)@ == after_cancel(old(self)@),
    {
        if self.phase != Phase::Idle {
            self.cancelled = true;
        }
    }

    /// Applies one piece of a model answer and returns the voice request it
    /// gives rise to.
    pub fn handle_answer(&mut self, a: ModelAnswer) -> (r: Option<VoiceRequest>)
        ensures
            final(self)@ == after_model(old(self)@, a),
            match r {
                Some(q) => voice_for_answer(old(self)@, a) == Some(request_view(q)),
                None => voice_for_answer(old(self)@, a) is None,
            },
    {
        let ghost before = self@;
        match a {
            ModelAnswer::StartAnswer => {
                self.spinner_active = false;
                self.phase = Phase::Streaming;
                self.answer = String::new();
                assert(self@ == after_model(before, a));
                None
            },
            ModelAnswer::Answer(chunk) => {
                if self.phase == Phase::Streaming && !self.cancelled {
                    self.answer.append(chunk.as_str());
                    assert(self@ == after_model(before, a));
                    if is_substantial_chunk(chunk.as_str()) {
                        Some(VoiceRequest { text: chunk, voice: None })
                    } else {
                        None
                    }
                } else {
                    None
                }
            },
            ModelAnswer::EndAnswer => {
                let streamed = self.phase == Phase::Streaming;
                let text = self.answer.clone();
                let request = if streamed && text.unicode_len() > 0 {
                    Some(VoiceRequest { text: text.clone(), voice: clone_voice(&self.default_voice) })
                } else {
                    None
                };
                if streamed {
                    self.history.push(Message { role: Role::Assistant, text });
                    assert(self@.history =~= before.history.push((Role::Assistant, before.answer)));
                }
                self.spinner_active = false;
                self.phase = Phase::Idle;
                self.cancelled = false;
                self.answer = String::new();
                assert(self@ == after_model(before, a));
                request
            },
        }
    }

    /// Dispatches one event drained from the channel.
    pub fn handle_event<K, M>(&mut self, e: Event<K, M>) -> (r: Reaction<K, M>)
        ensures
            final(self)@ == after_event(old(self)@, e),
            r.effect == effect_of(e),
            publishes(r.follow_up, voice_for_event(old(self)@, e)),
    {
        match e {
            Event::Tick => Reaction { effect: Effect::AdvanceTick, follow_up: None },
            Event::Key(k) => Reaction { effect: Effect::HandleKey(k), follow_up: None },
            Event::Mouse(m) => Reaction { effect: Effect::HandleMouse(m), follow_up: None },
            Event::Resize(w, h) => Reaction { effect: Effect::HandleResize(w, h), follow_up: None },
            Event::ModelEvent(a) => {
                let follow_up = match self.handle_answer(a) {
                    Some(q) => Some(Event::VoiceEvent(VoiceEvent::PlayText(q))),
                    None => None,
                };
                Reaction { effect: Effect::Nothing, follow_up }
            },
            Event::Notification(n) => {
                let ghost before = self@;
                self.notifications.push(n);
                assert(self@.notifications =~= before.notifications.push(n@));
                assert(self@ == after_event(before, e));
                Reaction { effect: Effect::Nothing, follow_up: None }
            },
            Event::VoiceEvent(VoiceEvent::PlayText(q)) => Reaction {
                effect: Effect::Play(q),
                follow_up: None,
            },
            Event::VoiceEvent(VoiceEvent::Complete) => Reaction {
                effect: Effect::Nothing,
                follow_up: None,
            },
            Event::VoiceEvent(VoiceEvent::Error(reason)) => Reaction {
                effect: Effect::ReportVoiceError(reason),
                follow_up: None,
            },
        }
    }
}

} // verus!
