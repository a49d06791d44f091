//! Finding the default devices on the sound server.
//!
//! The query runs in three rounds on the server's event loop: wait until the
//! connection is ready, ask for the default source and sink, ask for the monitor of
//! that sink. [`Discovery`] decides after each turn of the loop what is next.

use vstd::prelude::*;

use crate::listener::error::ListenerError;

verus! {

/// The two capture devices.
#[derive(Debug, Clone)]
pub struct Devices {
    /// Default source: the microphone.
    pub mic_source: String,
    /// Monitor of the default sink: what the system plays.
    pub system_monitor: String,
}

/// How one turn of the event loop ended.
#[derive(Debug, Clone, Copy)]
pub enum Iterate {
    Success,
    Quit,
    Failed,
}

/// State of the connection to the server.
#[derive(Debug, Clone, Copy)]
pub enum ContextState {
    Ready,
    Failed,
    Terminated,
    /// Still connecting.
    Pending,
}

/// The round that the query is in.
#[derive(Debug, Clone, Copy)]
pub enum Query {
    Ready,
    Server,
    Monitor,
}

/// What to do after a turn of the event loop.
#[derive(Debug)]
pub enum Step {
    /// Run another turn.
    Iterate,
    /// Ask for the server's defaults, then run another turn.
    AskServer,
    /// Ask for the named sink, then run another turn.
    AskSink(String),
    /// All is known.
    Found(Devices),
}

/// A device query under way.
#[derive(Debug)]
pub struct Discovery {
    pub query: Query,
    /// Default source and sink, once the server has answered.
    pub names: Option<(String, String)>,
    /// Monitor of the sink, if one was listed.
    pub monitor: Option<String>,
    /// Whether the listing of the sink has ended.
    pub done: bool,
}

// ── Model ─────────────────────────────────────────────────────────────────────

/// What a query holds.
#[verifier::ext_equal]
pub struct Asking {
    pub query: Query,
    /// Default source and sink.
    pub names: Option<(Seq<char>, Seq<char>)>,
    pub monitor: Option<Seq<char>>,
    pub done: bool,
}

/// What happens to a query.
pub enum Event {
    /// The server has named its defaults.
    Server { source: Option<Seq<char>>, sink: Option<Seq<char>> },
    /// The server has listed a sink.
    Sink { monitor: Option<Seq<char>> },
    /// The listing of the sink has ended, or failed.
    SinkEnd,
    /// A turn of the event loop has ended.
    Turn { outcome: Iterate, state: ContextState },
}

/// What a query comes to.
pub enum Verdict {
    /// It goes on.
    Nothing,
    AskServer,
    AskSink(Seq<char>),
    Found { mic: Seq<char>, monitor: Seq<char> },
    Failed(Seq<char>),
}

/// What is said where the sink has no monitor.
pub const NO_MONITOR: &'static str =
    "default sink has no monitor source — is pipewire-pulse or PulseAudio exposing one?";

/// The text of an optional string.
pub open spec fn text_of(name: Option<String>) -> Option<Seq<char>> {
    match name {
        Some(n) => Some(n@),
        None => None,
    }
}

/// The name that is used where the server gives none.
pub open spec fn named_or_unknown(name: Option<Seq<char>>) -> Seq<char> {
    match name {
        Some(n) => n,
        None => "unknown"@,
    }
}

impl View for Discovery {
    type V = Asking;

    open spec fn view(&self) -> Asking {
        Asking {
            query: self.query,
            names: match self.names {
                Some((source, sink)) => Some((source@, sink@)),
                None => None,
            },
            monitor: text_of(self.monitor),
            done: self.done,
        }
    }
}

impl Asking {
    /// A query that has not begun.
    pub open spec fn start() -> Asking {
        Asking { query: Query::Ready, names: None, monitor: None, done: false }
    }

    /// The last round is reached only with the names in hand.
    pub open spec fn wf(self) -> bool {
        self.query is Monitor ==> self.names is Some
    }

    /// Why the query ends in failure after a turn, if it does.
    pub open spec fn failure(self, outcome: Iterate, state: ContextState) -> Option<Seq<char>> {
        match self.query {
            Query::Ready => match outcome {
                Iterate::Failed => Some("mainloop iterate error while waiting for context ready"@),
                Iterate::Quit => Some("mainloop quit unexpectedly before context was ready"@),
                Iterate::Success => match state {
                    ContextState::Failed => Some(
                        "PulseAudio context failed — is pipewire-pulse or PulseAudio running?"@,
                    ),
                    ContextState::Terminated => Some("PulseAudio context terminated unexpectedly"@),
                    _ => None,
                },
            },
            Query::Server => match outcome {
                Iterate::Success => None,
                _ => Some("mainloop error while querying server info"@),
            },
            Query::Monitor => match outcome {
                Iterate::Success => if self.done && self.monitor is None {
                    Some(NO_MONITOR@)
                } else {
                    None
                },
                _ => Some("mainloop error while querying sink monitor source"@),
            },
        }
    }

    /// What an event brings the query to.
    pub open spec fn says(self, event: Event) -> Verdict {
        match event {
            Event::Turn { outcome, state } => match self.failure(outcome, state) {
                Some(message) => Verdict::Failed(message),
                None => match self.query {
                    Query::Ready => if state is Ready {
                        Verdict::AskServer
                    } else {
                        Verdict::Nothing
                    },
                    Query::Server => match self.names {
                        Some((_, sink)) => Verdict::AskSink(sink),
                        None => Verdict::Nothing,
                    },
                    Query::Monitor => if self.done {
                        Verdict::Found { mic: (self.names->0).0, monitor: self.monitor->0 }
                    } else {
                        Verdict::Nothing
                    },
                },
            },
            _ => Verdict::Nothing,
        }
    }

    /// The query after an event.
    pub open spec fn after(self, event: Event) -> Asking {
        match event {
            Event::Server { source, sink } => Asking {
                names: Some((named_or_unknown(source), named_or_unknown(sink))),
                ..self
            },
            Event::Sink { monitor } => if monitor is Some {
                Asking { monitor, ..self }
            } else {
                self
            },
            Event::SinkEnd => Asking { done: true, ..self },
            Event::Turn { .. } => match self.says(event) {
                Verdict::AskServer => Asking { query: Query::Server, ..self },
                Verdict::AskSink(_) => Asking { query: Query::Monitor, ..self },
                _ => self,
            },
        }
    }

    /// What a list of events brings the query to: the first answer or failure ends it.
    pub open spec fn result(self, events: Seq<Event>) -> Verdict
        decreases events.len(),
    {
        if events.len() == 0 {
            Verdict::Nothing
        } else {
            let verdict = self.says(events[0]);
            if verdict is Found || verdict is Failed {
                verdict
            } else {
                self.after(events[0]).result(events.drop_first())
            }
        }
    }
}

/// Whether `next` is what a verdict asks for.
pub open spec fn tells(next: Result<Step, ListenerError>, verdict: Verdict) -> bool {
    match verdict {
        Verdict::Nothing => next matches Ok(Step::Iterate),
        Verdict::AskServer => next matches Ok(Step::AskServer),
        Verdict::AskSink(sink) => next matches Ok(Step::AskSink(name)) && name@ == sink,
        Verdict::Found { mic, monitor } => next matches Ok(Step::Found(devices))
            && devices.mic_source@ == mic && devices.system_monitor@ == monitor,
        Verdict::Failed(message) => next matches Err(ListenerError::IntrospectionFailed(m)) && m@
            == message,
    }
}

// ── Query ─────────────────────────────────────────────────────────────────────

/// The error for a connection that could not even be set up, if it could not.
pub fn setup_failure(
    mainloop_made: bool,
    context_made: bool,
    connect_accepted: bool,
) -> (failed: Option<ListenerError>)
    ensures
        failed is None <==> mainloop_made && context_made && connect_accepted,
        match failed {
            None => true,
            Some(e) => e matches ListenerError::IntrospectionFailed(m) && m@ == (if !mainloop_made {
                "could not allocate PulseAudio mainloop"@
            } else if !context_made {
                "could not create PulseAudio context"@
            } else {
                "context connect rejected by server"@
            }),
        },
{
    if !mainloop_made {
        Some(ListenerError::IntrospectionFailed("could not allocate PulseAudio mainloop"))
    } else if !context_made {
        Some(ListenerError::IntrospectionFailed("could not create PulseAudio context"))
    } else if !connect_accepted {
        Some(ListenerError::IntrospectionFailed("context connect rejected by server"))
    } else {
        None
    }
}

fn name_or_unknown(name: Option<String>) -> (s: String)
    ensures
        s@ == named_or_unknown(text_of(name)),
{
    match name {
        Some(n) => n,
        None => "unknown".to_owned(),
    }
}

impl Discovery {
    /// A query that has not begun.
    pub fn new() -> (d: Self)
        ensures
            d@ == Asking::start(),
            d@.wf(),
    {
        Discovery { query: Query::Ready, names: None, monitor: None, done: false }
    }

    /// The server has named its defaults.
    pub fn server_info(&mut self, source: Option<String>, sink: Option<String>)
        requires
            old(self)@.wf(),
        ensures
            final(self)@.wf(),
            final(self)@ == old(self)@.after(
                (Event::Server { source: text_of(source), sink: text_of(sink) }),
            ),
    {
        self.names = Some((name_or_unknown(source), name_or_unknown(sink)));
    }

    /// The server has listed a sink, with or without a monitor; the last one named counts.
    pub fn sink_item(&mut self, monitor: Option<String>)
        requires
            old(self)@.wf(),
        ensures
            final(self)@.wf(),
            final(self)@ == old(self)@.after((Event::Sink { monitor: text_of(monitor) })),
    {
        if monitor.is_some() {
            self.monitor = monitor;
        }
    }

    /// The listing of the sink has ended, or failed.
    pub fn sink_end(&mut self)
        requires
            old(self)@.wf(),
        ensures
            final(self)@.wf(),
            final(self)@ == old(self)@.after(Event::SinkEnd),
    {
        self.done = true;
    }

    /// Decide what follows a turn of the event loop.
    pub fn iterated(&mut self, outcome: Iterate, state: ContextState) -> (next: Result<
        Step,
        ListenerError,
    >)
        requires
            old(self)@.wf(),
        ensures
            final(self)@.wf(),
            final(self)@ == old(self)@.after((Event::Turn { outcome, state })),
            tells(next, old(self)@.says((Event::Turn { outcome, state }))),
    {
        match self.query {
            Query::Ready => {
                match outcome {
                    Iterate::Failed => {
                        return Err(
                            ListenerError::IntrospectionFailed(
                                "mainloop iterate error while waiting for context ready",
                            ),
                        );
                    },
                    Iterate::Quit => {
                        return Err(
                            ListenerError::IntrospectionFailed(
                                "mainloop quit unexpectedly before context was ready",
                            ),
                        );
                    },
                    Iterate::Success => {},
                }
                match state {
                    ContextState::Ready => {
                        self.query = Query::Server;
                        Ok(Step::AskServer)
                    },
                    ContextState::Failed => Err(
                        ListenerError::IntrospectionFailed(
                            "PulseAudio context failed — is pipewire-pulse or PulseAudio running?",
                        ),
                    ),
                    ContextState::Terminated => Err(
                        ListenerError::IntrospectionFailed(
                            "PulseAudio context terminated unexpectedly",
                        ),
                    ),
                    ContextState::Pending => Ok(Step::Iterate),
                }
            },
            Query::Server => {
                match outcome {
                    Iterate::Success => {},
                    _ => {
                        return Err(
                            ListenerError::IntrospectionFailed(
                                "mainloop error while querying server info",
                            ),
                        );
                    },
                }
                match &self.names {
                    Some((_, sink)) => {
                        let name = sink.clone();
                        self.query = Query::Monitor;
                        Ok(Step::AskSink(name))
                    },
                    None => Ok(Step::Iterate),
                }
            },
            Query::Monitor => {
                match outcome {
                    Iterate::Success => {},
                    _ => {
                        return Err(
                            ListenerError::IntrospectionFailed(
                                "mainloop error while querying sink monitor source",
                            ),
                        );
                    },
                }
                if !self.done {
                    return Ok(Step::Iterate);
                }
                match (&self.names, &self.monitor) {
                    (Some((mic, _)), Some(monitor)) => Ok(
                        Step::Found(
                            Devices { mic_source: mic.clone(), system_monitor: monitor.clone() },
                        ),
                    ),
                    _ => Err(
                        ListenerError::IntrospectionFailed(NO_MONITOR),
                    ),
                }
            },
        }
    }
}

// ── Laws ──────────────────────────────────────────────────────────────────────

/// Whether the events name no other source than `source` and no other monitor than `monitor`.
pub open spec fn only_name(events: Seq<Event>, source: Seq<char>, monitor: Seq<char>) -> bool {
    forall|i: int|
        0 <= i < events.len() ==> match #[trigger] events[i] {
            Event::Server { source: s, .. } => named_or_unknown(s) == source,
            Event::Sink { monitor: m } => m is None || m == Some(monitor),
            _ => true,
        }
}

proof fn lemma_finds_what_was_named(
    asking: Asking,
    events: Seq<Event>,
    source: Seq<char>,
    monitor: Seq<char>,
)
    requires
        asking.wf(),
        asking.names is Some ==> (asking.names->0).0 == source,
        asking.monitor is Some ==> asking.monitor == Some(monitor),
        only_name(events, source, monitor),
    ensures
        match asking.result(events) {
            Verdict::Found { mic, monitor: m } => mic == source && m == monitor,
            Verdict::Failed(_) | Verdict::Nothing => true,
            _ => false,
        },
    decreases events.len(),
{
    if events.len() > 0 {
        let verdict = asking.says(events[0]);
        if !(verdict is Found || verdict is Failed) {
            let rest = events.drop_first();
            assert forall|i: int| 0 <= i < rest.len() implies match #[trigger] rest[i] {
                Event::Server { source: s, .. } => named_or_unknown(s) == source,
                Event::Sink { monitor: m } => m is None || m == Some(monitor),
                _ => true,
            } by {
                assert(rest[i] == events[i + 1]);
            }
            lemma_finds_what_was_named(asking.after(events[0]), rest, source, monitor);
        }
    }
}

/// Whatever happens in whichever order, a query that finds devices finds the source and the
/// monitor that the server named; else it goes on, or fails.
pub proof fn law_query_finds_what_was_named(
    events: Seq<Event>,
    source: Seq<char>,
    monitor: Seq<char>,
)
    requires
        only_name(events, source, monitor),
    ensures
        match Asking::start().result(events) {
            Verdict::Found { mic, monitor: m } => mic == source && m == monitor,
            Verdict::Failed(_) | Verdict::Nothing => true,
            _ => false,
        },
{
    lemma_finds_what_was_named(Asking::start(), events, source, monitor);
}

/// Turns of the event loop that succeed, with the states that the connection is in after them.
pub open spec fn turns(states: Seq<ContextState>) -> Seq<Event> {
    states.map_values(|state: ContextState| Event::Turn { outcome: Iterate::Success, state })
}

/// The events of a query that a server answers: it becomes ready, names `source` and `sink`,
/// and lists that sink with `monitor`. Turns may pass in between, and the connection is in
/// some state after each.
pub open spec fn answered(
    connecting: Seq<ContextState>,
    asked: Seq<ContextState>,
    named: ContextState,
    waiting: Seq<ContextState>,
    listing: Seq<ContextState>,
    last: ContextState,
    source: Seq<char>,
    sink: Seq<char>,
    monitor: Seq<char>,
) -> Seq<Event> {
    turns(connecting) + (turns(seq![ContextState::Ready]) + (turns(asked) + (seq![
        Event::Server { source: Some(source), sink: Some(sink) },
    ] + (turns(seq![named]) + (turns(waiting) + (seq![Event::Sink { monitor: Some(monitor) }] + (
    turns(listing) + (seq![Event::SinkEnd] + turns(seq![last])))))))))
}

/// An event that does not end the query hands the rest on.
proof fn lemma_one_event(asking: Asking, event: Event, rest: Seq<Event>)
    requires
        !(asking.says(event) is Found),
        !(asking.says(event) is Failed),
    ensures
        asking.result(seq![event] + rest) == asking.after(event).result(rest),
{
    assert((seq![event] + rest).drop_first() =~= rest);
}

/// Turns that change nothing can be left out.
proof fn lemma_turns_pass(asking: Asking, states: Seq<ContextState>, rest: Seq<Event>)
    requires
        forall|i: int|
            0 <= i < states.len() ==> asking.says(
                (Event::Turn { outcome: Iterate::Success, state: #[trigger] states[i] }),
            ) is Nothing,
    ensures
        asking.result(turns(states) + rest) == asking.result(rest),
    decreases states.len(),
{
    if states.len() == 0 {
        assert(turns(states) + rest =~= rest);
    } else {
        let event = Event::Turn { outcome: Iterate::Success, state: states[0] };
        let later = states.drop_first();
        assert(turns(states) + rest =~= seq![event] + (turns(later) + rest));
        assert(asking.says(event) is Nothing);
        lemma_one_event(asking, event, turns(later) + rest);
        assert forall|i: int| 0 <= i < later.len() implies asking.says(
            (Event::Turn { outcome: Iterate::Success, state: #[trigger] later[i] }),
        ) is Nothing by {
            assert(later[i] == states[i + 1]);
        }
        lemma_turns_pass(asking, later, rest);
    }
}

/// A query that the server answers ends, with the source that was named and the monitor of
/// the sink that was named.
pub proof fn law_answered_query_ends(
    connecting: Seq<ContextState>,
    asked: Seq<ContextState>,
    named: ContextState,
    waiting: Seq<ContextState>,
    listing: Seq<ContextState>,
    last: ContextState,
    source: Seq<char>,
    sink: Seq<char>,
    monitor: Seq<char>,
)
    requires
        forall|i: int| 0 <= i < connecting.len() ==> #[trigger] connecting[i] is Pending,
    ensures
        Asking::start().result(
            answered(
                connecting,
                asked,
                named,
                waiting,
                listing,
                last,
                source,
                sink,
                monitor,
            ),
        ) == (Verdict::Found { mic: source, monitor }),
        ({
            let known = Asking {
                query: Query::Server,
                names: Some((source, sink)),
                monitor: None,
                done: false,
            };
            known.says((Event::Turn { outcome: Iterate::Success, state: named }))
                == Verdict::AskSink(sink)
        }),
{
    let ready = Event::Turn { outcome: Iterate::Success, state: ContextState::Ready };
    let told = Event::Turn { outcome: Iterate::Success, state: named };
    let end = Event::Turn { outcome: Iterate::Success, state: last };
    let info = Event::Server { source: Some(source), sink: Some(sink) };
    let item = Event::Sink { monitor: Some(monitor) };
    assert(turns(seq![ContextState::Ready]) =~= seq![ready]);
    assert(turns(seq![named]) =~= seq![told]);
    assert(turns(seq![last]) =~= seq![end] + Seq::empty());
    let r8 = seq![Event::SinkEnd] + turns(seq![last]);
    let r7 = turns(listing) + r8;
    let r6 = seq![item] + r7;
    let r5 = turns(waiting) + r6;
    let r4 = seq![told] + r5;
    let r3 = seq![info] + r4;
    let r2 = turns(asked) + r3;
    let r1 = seq![ready] + r2;
    let a0 = Asking::start();
    let a1 = a0.after(ready);
    let a2 = a1.after(info);
    let a3 = a2.after(told);
    let a4 = a3.after(item);
    let a5 = a4.after(Event::SinkEnd);
    lemma_turns_pass(a0, connecting, r1);
    lemma_one_event(a0, ready, r2);
    lemma_turns_pass(a1, asked, r3);
    lemma_one_event(a1, info, r4);
    lemma_one_event(a2, told, r5);
    lemma_turns_pass(a3, waiting, r6);
    lemma_one_event(a3, item, r7);
    lemma_turns_pass(a4, listing, r8);
    lemma_one_event(a4, Event::SinkEnd, turns(seq![last]));
    assert((seq![end] + Seq::<Event>::empty())[0] == end);
    assert(a5.result(turns(seq![last])) == (Verdict::Found { mic: source, monitor }));
}

proof fn lemma_failure_needs_a_reason(asking: Asking, events: Seq<Event>)
    requires
        asking.wf(),
        forall|i: int|
            0 <= i < events.len() ==> match #[trigger] events[i] {
                Event::Turn { outcome, state } => outcome is Success && (state is Ready
                    || state is Pending),
                _ => true,
            },
    ensures
        asking.result(events) matches Verdict::Failed(m) ==> m == NO_MONITOR@,
    decreases events.len(),
{
    if events.len() > 0 {
        let verdict = asking.says(events[0]);
        if !(verdict is Found || verdict is Failed) {
            let rest = events.drop_first();
            assert forall|i: int| 0 <= i < rest.len() implies match #[trigger] rest[i] {
                Event::Turn { outcome, state } => outcome is Success && (state is Ready
                    || state is Pending),
                _ => true,
            } by {
                assert(rest[i] == events[i + 1]);
            }
            lemma_failure_needs_a_reason(asking.after(events[0]), rest);
        } else {
            assert(events[0] is Turn);
        }
    }
}

/// While the event loop and the connection hold, a query fails only for want of a monitor.
pub proof fn law_query_fails_only_without_monitor(events: Seq<Event>)
    requires
        forall|i: int|
            0 <= i < events.len() ==> match #[trigger] events[i] {
                Event::Turn { outcome, state } => outcome is Success && (state is Ready
                    || state is Pending),
                _ => true,
            },
    ensures
        Asking::start().result(events) matches Verdict::Failed(m) ==> m == NO_MONITOR@,
{
    lemma_failure_needs_a_reason(Asking::start(), events);
}

/// When a query asks, answers or fails. Only the end of a turn brings it to anything. It asks
/// for the defaults once the connection is ready, for the sink once that is named, and it
/// answers once the sink's listing has ended with a monitor. It fails if a turn fails, if
/// the connection breaks before it was ready, or if the listing ends without a monitor.
pub proof fn law_when_a_query_moves_on(asking: Asking, event: Event)
    requires
        asking.wf(),
    ensures
        ({
            let fine = event is Turn && event->outcome is Success;
            let verdict = asking.says(event);
            &&& verdict is Failed <==> {
                ||| event is Turn && !(event->outcome is Success)
                ||| fine && asking.query is Ready && (event->state is Failed
                    || event->state is Terminated)
                ||| fine && asking.query is Monitor && asking.done && asking.monitor is None
            }
            &&& verdict is AskServer <==> fine && asking.query is Ready && event->state is Ready
            &&& verdict is AskSink <==> fine && asking.query is Server && asking.names is Some
            &&& verdict is AskSink ==> verdict->AskSink_0 == (asking.names->0).1
            &&& verdict is Found <==> fine && asking.query is Monitor && asking.done
                && asking.monitor is Some
            &&& verdict is Found ==> verdict->mic == (asking.names->0).0 && verdict->Found_monitor
                == asking.monitor->0
        }),
{
}

/// What is said of a failure: it names the round, and in the first one what went wrong.
pub proof fn law_failures_name_the_round(asking: Asking, outcome: Iterate, state: ContextState)
    requires
        asking.says((Event::Turn { outcome, state })) is Failed,
    ensures
        ({
            let said = asking.says((Event::Turn { outcome, state }))->Failed_0;
            &&& asking.query is Ready && outcome is Failed ==> said
                == "mainloop iterate error while waiting for context ready"@
            &&& asking.query is Ready && outcome is Quit ==> said
                == "mainloop quit unexpectedly before context was ready"@
            &&& asking.query is Ready && outcome is Success && state is Failed ==> said
                == "PulseAudio context failed — is pipewire-pulse or PulseAudio running?"@
            &&& asking.query is Ready && outcome is Success && state is Terminated ==> said
                == "PulseAudio context terminated unexpectedly"@
            &&& asking.query is Server ==> said == "mainloop error while querying server info"@
            &&& asking.query is Monitor && !(outcome is Success) ==> said
                == "mainloop error while querying sink monitor source"@
            &&& asking.query is Monitor && outcome is Success ==> said
                == "default sink has no monitor source — is pipewire-pulse or PulseAudio exposing one?"@
        }),
{
}

/// What each event changes of a query, and what stays: the names come from the server alone,
/// the monitor from the last sink that had one, and the round moves on with the questions.
pub proof fn law_what_events_change(asking: Asking, event: Event)
    requires
        asking.wf(),
    ensures
        ({
            let after = asking.after(event);
            &&& after.wf()
            &&& event is Server ==> after.names is Some && (after.names->0).0 == (
            if event->source is Some {
                event->source->0
            } else {
                "unknown"@
            }) && (after.names->0).1 == (if event->sink is Some {
                event->sink->0
            } else {
                "unknown"@
            })
            &&& !(event is Server) ==> after.names == asking.names
            &&& after.monitor == (if event is Sink && event->Sink_monitor is Some {
                event->Sink_monitor
            } else {
                asking.monitor
            })
            &&& after.done == (asking.done || event is SinkEnd)
            &&& asking.says(event) is AskServer ==> after.query is Server
            &&& asking.says(event) is AskSink ==> after.query is Monitor
            &&& !(asking.says(event) is AskServer || asking.says(event) is AskSink) ==> after.query
                == asking.query
        }),
{
}

/// A query starts with nothing known, and the caller is told exactly what it comes to.
pub proof fn law_steps_tell_verdicts(next: Result<Step, ListenerError>, verdict: Verdict)
    ensures
        Asking::start().query is Ready && Asking::start().names is None,
        Asking::start().monitor is None && !Asking::start().done,
        tells(next, verdict) ==> match next {
            Ok(Step::Iterate) => verdict is Nothing,
            Ok(Step::AskServer) => verdict is AskServer,
            Ok(Step::AskSink(name)) => verdict == Verdict::AskSink(name@),
            Ok(Step::Found(devices)) => verdict == (Verdict::Found {
                mic: devices.mic_source@,
                monitor: devices.system_monitor@,
            }),
            Err(ListenerError::IntrospectionFailed(m)) => verdict == Verdict::Failed(m@),
            Err(_) => false,
        },
{
}

/// The view of a query holds its parts as they are.
pub proof fn law_view_keeps_the_parts(d: Discovery)
    ensures
        d@.query == d.query,
        d@.done == d.done,
        d@.names is Some <==> d.names is Some,
        d.names is Some ==> (d@.names->0).0 == (d.names->0).0@ && (d@.names->0).1 == (
        d.names->0).1@,
        d@.monitor is Some <==> d.monitor is Some,
        d.monitor is Some ==> d@.monitor->0 == d.monitor->0@,
{
}

} // verus!
