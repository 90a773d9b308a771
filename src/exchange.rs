//! One request/response exchange as a state machine: the caller performs the
//! actions (reading the body, running recognition, writing) and reports back
//! with events, and the exchange decides what is sent, exactly once.
use vstd::prelude::*;
use crate::error::OcrError;
use crate::pipeline::{assembled, kept_lines, line_is_blank};
use crate::reply::{content_type_of, outcome_reply, outcome_text, Reply, HTML_PAGE, PLAIN_TEXT};
use crate::route::{recognize_path, route, route_of, HttpMethod, Route};

verus! {

/// Where an exchange stands.
#[derive(Clone, Copy, Debug, PartialEq, Eq, Structural)]
pub enum Phase {
    /// The request has arrived and is not yet classified.
    Received,
    /// The body is being decoded and recognized.
    Recognizing,
    /// The one response has been handed out.
    Responded,
    /// Writing the response failed; the connection is given up.
    Dropped,
}

/// What the caller reports to an exchange.
pub enum Event {
    /// The request was classified.
    Routed(Route),
    /// Recognition of the body finished with this outcome.
    Finished(Result<String, OcrError>),
    /// Writing the response failed.
    WriteFailed,
}

/// What the caller is to do next.
pub enum Action {
    /// Write this reply; no other reply follows for this request.
    Send(Reply),
    /// Read the body and recognize the text in it, then report `Finished`.
    Recognize,
    /// Nothing: the event does not apply in this phase.
    Idle,
}

/// Whether the exchange has handed out its response.
pub open spec fn answered(phase: Phase) -> bool {
    phase == Phase::Responded || phase == Phase::Dropped
}

/// The phase an event leads to; events that do not apply change nothing.
pub open spec fn next_phase(phase: Phase, event: Event) -> Phase {
    match (phase, event) {
        (Phase::Received, Event::Routed(Route::UploadPage)) => Phase::Responded,
        (Phase::Received, Event::Routed(Route::Recognize)) => Phase::Recognizing,
        (Phase::Recognizing, Event::Finished(_)) => Phase::Responded,
        (Phase::Responded, Event::WriteFailed) => Phase::Dropped,
        _ => phase,
    }
}

/// Whether an event, in a phase, makes the exchange send its response.
pub open spec fn sends(phase: Phase, event: Event) -> bool {
    match (phase, event) {
        (Phase::Received, Event::Routed(Route::UploadPage)) => true,
        (Phase::Recognizing, Event::Finished(_)) => true,
        _ => false,
    }
}

/// The phase after a sequence of events.
pub open spec fn run(phase: Phase, events: Seq<Event>) -> Phase
    decreases events.len(),
{
    if events.len() == 0 {
        phase
    } else {
        run(next_phase(phase, events[0]), events.drop_first())
    }
}

/// How many responses a sequence of events makes the exchange send.
pub open spec fn responses(phase: Phase, events: Seq<Event>) -> nat
    decreases events.len(),
{
    if events.len() == 0 {
        0
    } else {
        (if sends(phase, events[0]) { 1nat } else { 0nat }) + responses(next_phase(phase, events[0]), events.drop_first())
    }
}

/// The state of one exchange.
pub struct Exchange {
    pub phase: Phase,
}

impl Exchange {
    /// A request that has just arrived.
    pub fn new() -> (r: Exchange)
        ensures
            r.phase == Phase::Received,
    {
        Exchange { phase: Phase::Received }
    }

    /// Advances the exchange by one event and says what to do.
    pub fn step(&mut self, event: Event) -> (a: Action)
        ensures
            final(self).phase == next_phase(old(self).phase, event),
            sends(old(self).phase, event) <==> a is Send,
            a is Recognize <==> (old(self).phase == Phase::Received && event == Event::Routed(Route::Recognize)),
            a matches Action::Send(rep) ==> match event {
                Event::Finished(outcome) => rep matches Reply::Text(t) && t@ == outcome_text(outcome),
                _ => rep is UploadPage,
            },
    {
        match (self.phase, event) {
            (Phase::Received, Event::Routed(Route::UploadPage)) => {
                self.phase = Phase::Responded;
                Action::Send(Reply::UploadPage)
            },
            (Phase::Received, Event::Routed(Route::Recognize)) => {
                self.phase = Phase::Recognizing;
                Action::Recognize
            },
            (Phase::Recognizing, Event::Finished(outcome)) => {
                self.phase = Phase::Responded;
                Action::Send(outcome_reply(outcome))
            },
            (Phase::Responded, Event::WriteFailed) => {
                self.phase = Phase::Dropped;
                Action::Idle
            },
            _ => Action::Idle,
        }
    }

    /// Classifies the request and steps the exchange with the result.
    pub fn arrive(&mut self, method: HttpMethod, path: &str) -> (a: Action)
        ensures
            final(self).phase == next_phase(old(self).phase, Event::Routed(route_of(method, path@))),
            sends(old(self).phase, Event::Routed(route_of(method, path@))) <==> a is Send,
            a is Recognize <==> (old(self).phase == Phase::Received && route_of(method, path@) == Route::Recognize),
            a matches Action::Send(rep) ==> rep is UploadPage,
    {
        let r = route(method, path);
        self.step(Event::Routed(r))
    }
}

/// Each exchange sends at most one response, whatever events arrive in
/// whatever order, and it has sent exactly one once it is answered.
pub proof fn lemma_single_response(events: Seq<Event>)
    ensures
        responses(Phase::Received, events) <= 1,
        responses(Phase::Received, events) == 1 <==> answered(run(Phase::Received, events)),
{
    lemma_responses_count(Phase::Received, events);
}

/// Responses sent plus whether the start was answered equals whether the end
/// is answered.
proof fn lemma_responses_count(phase: Phase, events: Seq<Event>)
    ensures
        responses(phase, events) + (if answered(phase) { 1nat } else { 0nat })
            == (if answered(run(phase, events)) { 1nat } else { 0nat }),
    decreases events.len(),
{
    if events.len() > 0 {
        lemma_responses_count(next_phase(phase, events[0]), events.drop_first());
    }
}

/// Every request is answered: the upload page at once, a recognition request
/// as soon as its outcome is reported, with one response either way.
pub proof fn lemma_every_request_answered(route: Route, outcome: Result<String, OcrError>)
    ensures
        ({
            let events = if route == Route::UploadPage {
                seq![Event::Routed(route)]
            } else {
                seq![Event::Routed(route), Event::Finished(outcome)]
            };
            run(Phase::Received, events) == Phase::Responded && responses(Phase::Received, events) == 1
        }),
{
    let e1 = seq![Event::Routed(route)];
    let e2 = seq![Event::Routed(route), Event::Finished(outcome)];
    assert(e1.drop_first() =~= Seq::<Event>::empty());
    assert(e2.drop_first() =~= seq![Event::Finished(outcome)]);
    assert(e2.drop_first().drop_first() =~= Seq::<Event>::empty());
    reveal_with_fuel(run, 3);
    reveal_with_fuel(responses, 3);
    if route == Route::UploadPage {
        assert(run(Phase::Received, e1) == Phase::Responded);
        assert(responses(Phase::Received, e1) == 1);
    } else {
        assert(next_phase(Phase::Received, e2[0]) == Phase::Recognizing);
        assert(run(Phase::Received, e2) == Phase::Responded);
        assert(responses(Phase::Received, e2) == 1);
    }
}

/// Any method and path other than a `POST` to the recognition path is
/// answered at once with the upload page, as HTML.
pub proof fn lemma_routing(method: HttpMethod, path: Seq<char>)
    requires
        !(method == HttpMethod::Post && path == recognize_path()),
    ensures
        route_of(method, path) == Route::UploadPage,
        sends(Phase::Received, Event::Routed(route_of(method, path))),
        next_phase(Phase::Received, Event::Routed(route_of(method, path))) == Phase::Responded,
        content_type_of(&Reply::UploadPage) == HTML_PAGE@,
{
}

/// Every failure, of whatever kind, is answered alike: plain text with an
/// empty body, and the exchange is then answered.
pub proof fn lemma_failure_uniform(e: OcrError, body: String)
    requires
        body@ == outcome_text(Err(e)),
    ensures
        body@.len() == 0,
        content_type_of(&Reply::Text(body)) == PLAIN_TEXT@,
        next_phase(Phase::Recognizing, Event::Finished(Err(e))) == Phase::Responded,
{
}

/// A page in which no line carries text gives an empty text, answered as
/// plain text with an empty body.
pub proof fn lemma_no_text_empty_reply(lines: Seq<Option<String>>, text: String)
    requires
        forall|i: int| 0 <= i < lines.len() ==> line_is_blank(#[trigger] lines[i]),
        text@ == assembled(lines),
    ensures
        outcome_text(Ok(text)).len() == 0,
        content_type_of(&Reply::Text(text)) == PLAIN_TEXT@,
{
    lemma_nothing_kept(lines);
}

/// Lines that are all absent or empty keep nothing.
proof fn lemma_nothing_kept(lines: Seq<Option<String>>)
    requires
        forall|i: int| 0 <= i < lines.len() ==> line_is_blank(#[trigger] lines[i]),
    ensures
        kept_lines(lines).len() == 0,
    decreases lines.len(),
{
    if lines.len() > 0 {
        let rest = lines.drop_last();
        assert forall|i: int| 0 <= i < rest.len() implies line_is_blank(#[trigger] rest[i]) by {
            assert(rest[i] == lines[i]);
        }
        lemma_nothing_kept(rest);
        assert(lines.last() == lines[lines.len() - 1]);
    }
}

} // verus!
