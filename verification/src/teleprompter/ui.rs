//! The overlay: which suggestion a card shows, under which header.
//!
//! The card keeps every reply. Stepping back and forth walks them; a new reply snaps
//! to the newest. Where the card sits on the screen is the caller's to compute; here
//! it is only decided what a pointer movement is to change.

use vstd::prelude::*;

use super::config::Config;
use super::ipc::Command;
use super::layout::Layout;
use crate::single::Single;
use crate::text::{joined, law_pieces_make_up_the_text, pieces, split, texts};

verus! {

/// A stage that a pipe passes through.
#[derive(Debug, Clone, Copy, PartialEq, Eq, Structural)]
pub enum Stage {
    /// The window is being transcribed.
    Transcribing,
    /// The model is being asked.
    Fetching,
}

/// What the daemon tells the overlay.
#[derive(Debug, Clone)]
pub enum UiEvent {
    /// A new suggestion.
    Reply { text: String },
    /// A pipe is in another stage, or in none.
    Status { stage: Option<Stage> },
    /// Recording goes on, or is paused.
    Recording(bool),
    /// Show or hide the overlay.
    Toggle,
    /// What was heard is forgotten.
    Trashed,
    /// That has been shown long enough.
    Untrash,
    /// Show the next suggestion.
    Forward,
    /// Show the previous suggestion.
    Backward,
}

/// A pipe with a card.
#[derive(Debug, Clone, Copy, PartialEq, Eq, Structural)]
pub enum PipeId {
    Pipe1,
    Pipe2,
}

/// What a card is made from.
#[derive(Debug)]
pub struct CardInit {
    pub id: PipeId,
    pub model: String,
    pub font_size: Single,
    pub opacity: Single,
    pub bg_opacity: Option<Single>,
    pub text_opacity: Option<Single>,
    pub width: Single,
    pub height: Single,
    pub pos_x: Single,
    pub pos_y: Single,
}

/// An edge of the card that can be pulled.
#[derive(Debug, Clone, Copy, PartialEq, Eq, Structural)]
pub enum Edge {
    Right,
    Bottom,
    Corner,
}

/// What holding the card does.
#[derive(Debug, Clone, Copy, PartialEq, Eq, Structural)]
pub enum GrabKind {
    /// It follows the pointer.
    Move,
    /// Its edge follows the pointer.
    Resize { edge: Edge },
}

/// A control of the card was pressed.
#[derive(Debug, Clone, Copy, PartialEq, Eq, Structural)]
pub enum CardMessage {
    Toggle,
    Pause,
    Trash,
    Drag,
    Resize(Edge),
}

/// What the overlay reacts to.
#[derive(Debug)]
pub enum Message {
    /// A control of the card was pressed.
    Card(CardMessage),
    Reply { text: String },
    Status { stage: Option<Stage> },
    Recording(bool),
    /// The recording dot flashes.
    Blink,
    /// A command was sent.
    CmdDone,
    /// The pointer moved.
    CursorMoved,
    /// The pointer's button was let go.
    Released,
    /// The screen has a size, or another one.
    SurfaceResized,
    Toggle,
    Trashed,
    Untrash,
    Forward,
    Backward,
}

/// What the caller has to do after a message.
#[derive(Debug, Clone, Copy, PartialEq, Eq, Structural)]
pub enum Effect {
    Nothing,
    /// Send a command to the daemon.
    Fire(Command),
    /// Note where the pointer holds the card.
    HoldOffset,
    /// Move the card with the pointer.
    MoveCard,
    /// Pull the card's right side, its bottom or both to the pointer.
    ResizeCard { width: bool, height: bool },
    /// Save where the card is.
    SaveLayout,
    /// Fit the card to the screen, and take input on all of it where the flag says so.
    FitSurface { take_input: bool },
    /// Take input on the whole screen, or on none of it.
    InputRegion { whole: bool },
}

/// What a new card shows.
pub const WAITING: &'static str = "Waiting for the first suggestion…";

// ── Bold runs ─────────────────────────────────────────────────────────────────

/// The parts between the markers as runs: every second one bold, the empty ones left out.
pub open spec fn bold_runs(parts: Seq<Seq<char>>) -> Seq<(Seq<char>, bool)>
    decreases parts.len(),
{
    if parts.len() == 0 {
        Seq::empty()
    } else {
        let before = bold_runs(parts.drop_last());
        if parts.last().len() == 0 {
            before
        } else {
            before.push((parts.last(), (parts.len() - 1) % 2 == 1))
        }
    }
}

/// The runs of a text with `**` around what is bold; an empty run where there is no other.
pub open spec fn runs(text: Seq<char>) -> Seq<(Seq<char>, bool)> {
    let found = bold_runs(pieces(text, "**"@));
    if found.len() == 0 {
        seq![(Seq::empty(), false)]
    } else {
        found
    }
}

/// The texts of a list of runs.
pub open spec fn run_texts(body: Seq<(String, bool)>) -> Seq<(Seq<char>, bool)> {
    body.map_values(|r: (String, bool)| (r.0@, r.1))
}

/// Split a text into plain and bold runs at its `**` markers. An open marker leaves the
/// rest bold.
pub fn parse_bold(text: &str) -> (body: Vec<(String, bool)>)
    ensures
        run_texts(body@) == runs(text@),
{
    proof {
        reveal_strlit("**");
    }
    let parts = split(text, "**");
    let ghost all = texts(parts@);
    let mut body: Vec<(String, bool)> = Vec::new();
    let mut i: usize = 0;
    assert(all.take(0) =~= Seq::empty());
    while i < parts.len()
        invariant
            i <= parts@.len(),
            all == texts(parts@),
            run_texts(body@) =~= bold_runs(all.take(i as int)),
        decreases parts@.len() - i,
    {
        let ghost before = body@;
        assert(all.take(i + 1).drop_last() =~= all.take(i as int));
        assert(all.take(i + 1).last() == parts@[i as int]@);
        if !parts[i].as_str().is_empty() {
            body.push((parts[i].clone(), i % 2 == 1));
            assert(run_texts(body@) =~= run_texts(before).push((parts@[i as int]@, i % 2 == 1)));
        }
        i = i + 1;
    }
    assert(all.take(i as int) =~= all);
    if body.len() == 0 {
        body.push((String::new(), false));
        assert(run_texts(body@) =~= runs(text@));
    }
    body
}

// ── Overlay ───────────────────────────────────────────────────────────────────

/// The overlay.
#[derive(Debug)]
pub struct App {
    /// The card's header.
    pub header: String,
    /// The card's body.
    pub body: Vec<(String, bool)>,
    /// Whether the card shows the recording dot.
    pub card_recording: bool,
    /// Whether the dot is lit.
    pub blink_on: bool,
    pub recording: bool,
    pub stage: Option<Stage>,
    pub trashed: bool,
    /// Every suggestion so far.
    pub history: Vec<String>,
    /// Which of them is shown.
    pub idx: usize,
    pub grab: Option<GrabKind>,
    pub visible: bool,
}

/// What the overlay is in; header and body follow from it.
#[verifier::ext_equal]
pub struct Overlay {
    pub recording: bool,
    pub stage: Option<Stage>,
    pub trashed: bool,
    pub history: Seq<Seq<char>>,
    pub idx: int,
    pub grab: Option<GrabKind>,
    pub visible: bool,
    pub blink_on: bool,
}

impl View for App {
    type V = Overlay;

    open spec fn view(&self) -> Overlay {
        Overlay {
            recording: self.recording,
            stage: self.stage,
            trashed: self.trashed,
            history: texts(self.history@),
            idx: self.idx as int,
            grab: self.grab,
            visible: self.visible,
            blink_on: self.blink_on,
        }
    }
}

impl Stage {
    /// The header of the stage.
    pub open spec fn title(self) -> Seq<char> {
        match self {
            Stage::Transcribing => "Transcribing…"@,
            Stage::Fetching => "Fetching response…"@,
        }
    }

    /// The header of the stage.
    pub fn header(self) -> (title: &'static str)
        ensures
            title@ == self.title(),
    {
        match self {
            Stage::Transcribing => "Transcribing…",
            Stage::Fetching => "Fetching response…",
        }
    }
}

impl Overlay {
    /// The header: forgetting comes before a stage, a stage before recording.
    pub open spec fn title(self) -> Seq<char> {
        if self.trashed {
            "Trashed"@
        } else if self.stage is Some {
            self.stage->0.title()
        } else if self.recording {
            "Listening…"@
        } else {
            "Paused"@
        }
    }

    /// The body: the suggestion that is shown, once there is one.
    pub open spec fn shown(self) -> Seq<(Seq<char>, bool)> {
        if self.history.len() == 0 {
            seq![(WAITING@, false)]
        } else {
            runs(self.history[self.idx])
        }
    }

    /// The index stays within the suggestions.
    pub open spec fn in_range(self) -> bool {
        if self.history.len() == 0 {
            self.idx == 0
        } else {
            0 <= self.idx < self.history.len()
        }
    }

    /// Nothing said yet, recording, visible.
    pub open spec fn start() -> Overlay {
        Overlay {
            recording: true,
            stage: None,
            trashed: false,
            history: Seq::empty(),
            idx: 0,
            grab: None,
            visible: true,
            blink_on: true,
        }
    }

    /// The overlay after a message.
    pub open spec fn after(self, message: Message) -> Overlay {
        match message {
            Message::Card(CardMessage::Drag) => Overlay { grab: Some(GrabKind::Move), ..self },
            Message::Card(CardMessage::Resize(edge)) => Overlay {
                grab: Some(GrabKind::Resize { edge }),
                ..self
            },
            Message::Card(_) => self,
            Message::Reply { text } => Overlay {
                history: self.history.push(text@),
                idx: self.history.len() as int,
                stage: None,
                ..self
            },
            Message::Status { stage } => Overlay { stage, ..self },
            Message::Recording(recording) => Overlay { recording, ..self },
            Message::Blink => Overlay { blink_on: !self.blink_on, ..self },
            Message::CmdDone => self,
            Message::CursorMoved => self,
            Message::Released => Overlay { grab: None, ..self },
            Message::SurfaceResized => self,
            Message::Toggle => Overlay { visible: !self.visible, ..self },
            Message::Trashed => Overlay { trashed: true, ..self },
            Message::Untrash => Overlay { trashed: false, ..self },
            Message::Forward => if self.idx + 1 < self.history.len() {
                Overlay { idx: self.idx + 1, ..self }
            } else {
                self
            },
            Message::Backward => if self.idx > 0 {
                Overlay { idx: self.idx - 1, ..self }
            } else {
                self
            },
        }
    }

    /// What a message asks of the caller.
    pub open spec fn asks(self, message: Message) -> Effect {
        match message {
            Message::Card(CardMessage::Toggle) => Effect::Fire(Command::Toggle),
            Message::Card(CardMessage::Pause) => Effect::Fire(Command::Pause),
            Message::Card(CardMessage::Trash) => Effect::Fire(Command::Trash),
            Message::Card(CardMessage::Drag) => Effect::HoldOffset,
            Message::CursorMoved => match self.grab {
                None => Effect::Nothing,
                Some(GrabKind::Move) => Effect::MoveCard,
                Some(GrabKind::Resize { edge }) => Effect::ResizeCard {
                    width: edge != Edge::Bottom,
                    height: edge != Edge::Right,
                },
            },
            Message::Released => if self.grab is Some {
                Effect::SaveLayout
            } else {
                Effect::Nothing
            },
            Message::SurfaceResized => Effect::FitSurface { take_input: self.visible },
            Message::Toggle => Effect::InputRegion { whole: !self.visible },
            _ => Effect::Nothing,
        }
    }
}

impl App {
    /// Header and body are those of the state, and the index is in range.
    pub open spec fn wf(self) -> bool {
        &&& self@.in_range()
        &&& self.header@ == self@.title()
        &&& self.card_recording == self.recording
        &&& run_texts(self.body@) == self@.shown()
    }

    /// An overlay without suggestions.
    pub fn new() -> (app: App)
        ensures
            app.wf(),
            app@ == Overlay::start(),
    {
        let mut body: Vec<(String, bool)> = Vec::new();
        body.push((WAITING.to_owned(), false));
        let app = App {
            header: "Listening…".to_owned(),
            body,
            card_recording: true,
            blink_on: true,
            recording: true,
            stage: None,
            trashed: false,
            history: Vec::new(),
            idx: 0,
            grab: None,
            visible: true,
        };
        assert(texts(app.history@) =~= Seq::<Seq<char>>::empty());
        assert(run_texts(app.body@) =~= seq![(WAITING@, false)]);
        app
    }

    fn refresh_header(&mut self)
        ensures
            final(self)@ == old(self)@,
            final(self).header@ == old(self)@.title(),
            final(self).card_recording == old(self).recording,
            final(self).body == old(self).body,
    {
        self.header = if self.trashed {
            "Trashed".to_owned()
        } else {
            match self.stage {
                Some(stage) => stage.header().to_owned(),
                None => if self.recording {
                    "Listening…".to_owned()
                } else {
                    "Paused".to_owned()
                },
            }
        };
        self.card_recording = self.recording;
    }

    fn show_current(&mut self)
        requires
            old(self).idx < old(self).history@.len(),
        ensures
            final(self)@ == old(self)@,
            final(self).header == old(self).header,
            final(self).card_recording == old(self).card_recording,
            run_texts(final(self).body@) == runs(old(self)@.history[old(self)@.idx]),
    {
        self.body = parse_bold(self.history[self.idx].as_str());
    }

    /// React to a message.
    pub fn update(&mut self, message: Message) -> (effect: Effect)
        requires
            old(self).wf(),
        ensures
            final(self).wf(),
            final(self)@ == old(self)@.after(message),
            effect == old(self)@.asks(message),
    {
        let ghost before = self@;
        match message {
            Message::Card(pressed) => match pressed {
                CardMessage::Toggle => Effect::Fire(Command::Toggle),
                CardMessage::Pause => Effect::Fire(Command::Pause),
                CardMessage::Trash => Effect::Fire(Command::Trash),
                CardMessage::Drag => {
                    self.grab = Some(GrabKind::Move);
                    Effect::HoldOffset
                },
                CardMessage::Resize(edge) => {
                    self.grab = Some(GrabKind::Resize { edge });
                    Effect::Nothing
                },
            },
            Message::CursorMoved => match self.grab {
                None => Effect::Nothing,
                Some(GrabKind::Move) => Effect::MoveCard,
                Some(GrabKind::Resize { edge }) => Effect::ResizeCard {
                    width: edge != Edge::Bottom,
                    height: edge != Edge::Right,
                },
            },
            Message::Released => {
                if self.grab.is_some() {
                    self.grab = None;
                    Effect::SaveLayout
                } else {
                    Effect::Nothing
                }
            },
            Message::SurfaceResized => Effect::FitSurface { take_input: self.visible },
            Message::Toggle => {
                self.visible = !self.visible;
                Effect::InputRegion { whole: self.visible }
            },
            Message::Reply { text } => {
                let ghost new_text = text@;
                let ghost old_history = self.history@;
                self.history.push(text);
                assert(texts(self.history@) =~= texts(old_history).push(new_text));
                self.idx = self.history.len() - 1;
                self.show_current();
                self.stage = None;
                self.refresh_header();
                Effect::Nothing
            },
            Message::Forward => {
                if self.idx < self.history.len() && self.idx + 1 < self.history.len() {
                    self.idx = self.idx + 1;
                    self.show_current();
                }
                Effect::Nothing
            },
            Message::Backward => {
                if self.idx > 0 {
                    self.idx = self.idx - 1;
                    self.show_current();
                }
                Effect::Nothing
            },
            Message::Status { stage } => {
                self.stage = stage;
                self.refresh_header();
                Effect::Nothing
            },
            Message::Recording(recording) => {
                self.recording = recording;
                self.refresh_header();
                Effect::Nothing
            },
            Message::Blink => {
                self.blink_on = !self.blink_on;
                Effect::Nothing
            },
            Message::CmdDone => Effect::Nothing,
            Message::Trashed => {
                self.trashed = true;
                self.refresh_header();
                Effect::Nothing
            },
            Message::Untrash => {
                self.trashed = false;
                self.refresh_header();
                Effect::Nothing
            },
        }
    }
}

/// What an event of the daemon means to the overlay.
pub open spec fn as_message(event: UiEvent) -> Message {
    match event {
        UiEvent::Reply { text } => Message::Reply { text },
        UiEvent::Status { stage } => Message::Status { stage },
        UiEvent::Recording(on) => Message::Recording(on),
        UiEvent::Toggle => Message::Toggle,
        UiEvent::Trashed => Message::Trashed,
        UiEvent::Untrash => Message::Untrash,
        UiEvent::Forward => Message::Forward,
        UiEvent::Backward => Message::Backward,
    }
}

/// What an event of the daemon means to the overlay.
pub fn message_of(event: UiEvent) -> (message: Message)
    ensures
        message == as_message(event),
{
    match event {
        UiEvent::Reply { text } => Message::Reply { text },
        UiEvent::Status { stage } => Message::Status { stage },
        UiEvent::Recording(on) => Message::Recording(on),
        UiEvent::Toggle => Message::Toggle,
        UiEvent::Trashed => Message::Trashed,
        UiEvent::Untrash => Message::Untrash,
        UiEvent::Forward => Message::Forward,
        UiEvent::Backward => Message::Backward,
    }
}

/// One side of the input region: that of the screen once it is known, never less than one.
pub fn region_side(known: Option<i32>) -> (side: i32)
    ensures
        side == (match known {
            Some(n) => if n < 1 {
                1int
            } else {
                n as int
            },
            None => 100_000int,
        }),
{
    match known {
        Some(n) => if n < 1 {
            1
        } else {
            n
        },
        None => 100_000,
    }
}

// ── Cards ─────────────────────────────────────────────────────────────────────

/// Whether a card is the one of pipe 1.
pub open spec fn is_live_card(card: CardInit, config: Config) -> bool {
    let p = config.pipe1;
    &&& card.id == PipeId::Pipe1
    &&& card.model@ == "@ live · "@ + p.llm_model@
    &&& card.font_size == p.font_size && card.opacity == p.opacity
    &&& card.bg_opacity == p.bg_opacity && card.text_opacity == p.text_opacity
    &&& card.width == p.width && card.height == p.height
    &&& card.pos_x == p.pos_x && card.pos_y == p.pos_y
}

/// Whether a card is the one of pipe 2.
pub open spec fn is_chunk_card(card: CardInit, config: Config) -> bool {
    let p = config.pipe2;
    &&& card.id == PipeId::Pipe2
    &&& card.model@ == "@ chunk · "@ + p.llm_model@
    &&& card.font_size == p.font_size && card.opacity == p.opacity
    &&& card.bg_opacity == p.bg_opacity && card.text_opacity == p.text_opacity
    &&& card.width == p.width && card.height == p.height
    &&& card.pos_x == p.pos_x && card.pos_y == p.pos_y
}

fn live_card(config: &Config) -> (card: CardInit)
    ensures
        is_live_card(card, *config),
{
    let mut model = "@ live · ".to_owned();
    model.append(config.pipe1.llm_model.as_str());
    CardInit {
        id: PipeId::Pipe1,
        model,
        font_size: config.pipe1.font_size,
        opacity: config.pipe1.opacity,
        bg_opacity: config.pipe1.bg_opacity,
        text_opacity: config.pipe1.text_opacity,
        width: config.pipe1.width,
        height: config.pipe1.height,
        pos_x: config.pipe1.pos_x,
        pos_y: config.pipe1.pos_y,
    }
}

fn chunk_card(config: &Config) -> (card: CardInit)
    ensures
        is_chunk_card(card, *config),
{
    let mut model = "@ chunk · ".to_owned();
    model.append(config.pipe2.llm_model.as_str());
    CardInit {
        id: PipeId::Pipe2,
        model,
        font_size: config.pipe2.font_size,
        opacity: config.pipe2.opacity,
        bg_opacity: config.pipe2.bg_opacity,
        text_opacity: config.pipe2.text_opacity,
        width: config.pipe2.width,
        height: config.pipe2.height,
        pos_x: config.pipe2.pos_x,
        pos_y: config.pipe2.pos_y,
    }
}

/// The cards of the enabled pipes.
pub fn card_specs(config: &Config) -> (cards: Vec<CardInit>)
    ensures
        cards@.len() == (if config.pipe1.enabled {
            1int
        } else {
            0
        }) + (if config.pipe2.enabled {
            1int
        } else {
            0
        }),
        config.pipe1.enabled ==> is_live_card(cards@[0], *config),
        config.pipe2.enabled ==> is_chunk_card(cards@.last(), *config),
{
    let mut cards: Vec<CardInit> = Vec::new();
    if config.pipe1.enabled {
        cards.push(live_card(config));
    }
    if config.pipe2.enabled {
        cards.push(chunk_card(config));
    }
    cards
}

/// The card where it was left, if that was saved.
pub open spec fn placed(card: CardInit, saved: Layout) -> CardInit {
    match saved.of(card.id) {
        Some(g) => CardInit {
            pos_x: g.pos_x,
            pos_y: g.pos_y,
            width: g.width,
            height: g.height,
            ..card
        },
        None => card,
    }
}

fn place(card: CardInit, saved: &Layout) -> (at: CardInit)
    ensures
        at == placed(card, *saved),
{
    match saved.get(card.id) {
        Some(g) => CardInit {
            pos_x: g.pos_x,
            pos_y: g.pos_y,
            width: g.width,
            height: g.height,
            ..card
        },
        None => card,
    }
}

/// Put every card where it was left, if that was saved.
pub fn apply_layout(cards: Vec<CardInit>, saved: &Layout) -> (at: Vec<CardInit>)
    ensures
        at@ == cards@.map_values(|c: CardInit| placed(c, *saved)),
{
    let ghost want = cards@.map_values(|c: CardInit| placed(c, *saved));
    let ghost all = cards@;
    let mut rest = cards;
    let mut at: Vec<CardInit> = Vec::new();
    while rest.len() > 0
        invariant
            at@.len() + rest@.len() == all.len(),
            rest@ =~= all.take(rest@.len() as int),
            want == all.map_values(|c: CardInit| placed(c, *saved)),
            forall|k: int|
                0 <= k < at@.len() ==> #[trigger] at@[k] == want[rest@.len() + k],
        decreases rest@.len(),
    {
        match rest.pop() {
            Some(card) => {
                at.insert(0, place(card, saved));
            },
            None => {},
        }
    }
    assert(at@ =~= want);
    at
}

// ── Laws ──────────────────────────────────────────────────────────────────────

/// Whatever happens, the index stays within the suggestions.
pub proof fn law_index_stays_in_range(overlay: Overlay, message: Message)
    requires
        overlay.in_range(),
    ensures
        overlay.after(message).in_range(),
{
}

/// No message ever drops or changes a suggestion.
pub proof fn law_history_only_grows(overlay: Overlay, message: Message)
    ensures
        overlay.history.len() <= overlay.after(message).history.len(),
        overlay.after(message).history.take(overlay.history.len() as int) == overlay.history,
{
    assert(overlay.after(message).history.take(overlay.history.len() as int)
        =~= overlay.history);
}

/// A new reply is what is shown, and no stage is shown any more.
pub proof fn law_reply_snaps_to_newest(overlay: Overlay, text: String)
    requires
        overlay.in_range(),
    ensures
        ({
            let after = overlay.after(Message::Reply { text });
            &&& after.idx == after.history.len() - 1
            &&& after.shown() == runs(text@)
            &&& after.stage is None
        }),
{
}

/// A step back undoes a step forward that was one, and the other way round.
pub proof fn law_steps_undo_each_other(overlay: Overlay)
    requires
        overlay.in_range(),
    ensures
        overlay.idx + 1 < overlay.history.len() ==> overlay.after(Message::Forward).after(
            Message::Backward,
        ) == overlay,
        overlay.idx > 0 ==> overlay.after(Message::Backward).after(Message::Forward) == overlay,
{
}

/// Toggling twice changes nothing, and hiding keeps everything that was shown.
pub proof fn law_toggle_twice_is_nothing(overlay: Overlay)
    ensures
        overlay.after(Message::Toggle).after(Message::Toggle) == overlay,
        overlay.after(Message::Toggle).shown() == overlay.shown(),
        overlay.after(Message::Toggle).title() == overlay.title(),
{
}

/// The end of the trash flash brings back the header of before.
pub proof fn law_flash_restores_header(overlay: Overlay)
    requires
        !overlay.trashed,
    ensures
        overlay.after(Message::Trashed).title() == "Trashed"@,
        overlay.after(Message::Trashed).after(Message::Untrash) == overlay,
{
}

/// Where nothing was saved, the cards stay as the configuration has them; what was saved
/// changes a card's place and size and nothing else.
pub proof fn law_saved_layout_only_places(card: CardInit, saved: Layout)
    ensures
        saved.of(card.id) is None ==> placed(card, saved) == card,
        placed(card, saved).id == card.id,
        placed(card, saved).model == card.model,
        placed(card, saved).font_size == card.font_size,
        placed(card, saved).opacity == card.opacity,
        placed(card, saved).bg_opacity == card.bg_opacity,
        placed(card, saved).text_opacity == card.text_opacity,
{
}

proof fn lemma_runs_keep_the_parts(parts: Seq<Seq<char>>)
    ensures
        joined(bold_runs(parts).map_values(|r: (Seq<char>, bool)| r.0), Seq::empty()) == joined(
            parts,
            Seq::empty(),
        ),
    decreases parts.len(),
{
    let found = bold_runs(parts);
    let shown = found.map_values(|r: (Seq<char>, bool)| r.0);
    if parts.len() > 0 {
        let most = parts.drop_last();
        lemma_runs_keep_the_parts(most);
        let before = bold_runs(most).map_values(|r: (Seq<char>, bool)| r.0);
        let empty = Seq::<char>::empty();
        if parts.len() == 1 {
            assert(most =~= Seq::empty());
            assert(joined(most, empty) =~= empty);
        }
        assert(joined(parts, empty) =~= joined(most, empty) + parts.last());
        if parts.last().len() > 0 {
            assert(shown =~= before.push(parts.last()));
            assert(shown.drop_last() =~= before);
            assert(joined(shown, empty) =~= joined(before, empty) + parts.last());
        } else {
            assert(shown =~= before);
        }
    } else {
        assert(shown =~= Seq::empty());
    }
}

/// The runs hold the whole text but for the markers, in order: they spell the parts between
/// the markers, which with the markers put back are the text.
pub proof fn law_runs_keep_the_text(text: Seq<char>)
    ensures
        joined(runs(text).map_values(|r: (Seq<char>, bool)| r.0), Seq::empty()) == joined(
            pieces(text, "**"@),
            Seq::empty(),
        ),
        joined(pieces(text, "**"@), "**"@) == text,
{
    reveal_strlit("**");
    law_pieces_make_up_the_text(text, "**"@);
    let parts = pieces(text, "**"@);
    lemma_runs_keep_the_parts(parts);
    let found = bold_runs(parts).map_values(|r: (Seq<char>, bool)| r.0);
    let shown = runs(text).map_values(|r: (Seq<char>, bool)| r.0);
    if bold_runs(parts).len() == 0 {
        assert(shown =~= seq![Seq::<char>::empty()]);
        assert(joined(shown, Seq::empty()) =~= Seq::<char>::empty());
        assert(joined(found, Seq::empty()) =~= Seq::<char>::empty());
    } else {
        assert(shown =~= found);
    }
}

proof fn lemma_runs_are_not_empty(parts: Seq<Seq<char>>)
    ensures
        forall|i: int|
            0 <= i < bold_runs(parts).len() ==> (#[trigger] bold_runs(parts)[i]).0.len() > 0,
    decreases parts.len(),
{
    if parts.len() > 0 {
        let before = bold_runs(parts.drop_last());
        lemma_runs_are_not_empty(parts.drop_last());
        let all = bold_runs(parts);
        assert forall|i: int| 0 <= i < all.len() implies (#[trigger] all[i]).0.len() > 0 by {
            if i < before.len() {
                assert(all[i] == before[i]);
            }
        }
    }
}

/// No run is empty, but for the one that stands for a text without any.
pub proof fn law_runs_are_not_empty(text: Seq<char>)
    ensures
        runs(text).len() > 0,
        forall|i: int|
            0 <= i < runs(text).len() ==> (#[trigger] runs(text)[i]).0.len() > 0 || runs(text)
                == seq![(Seq::<char>::empty(), false)],
{
    lemma_runs_are_not_empty(pieces(text, "**"@));
}

proof fn lemma_runs_of_parts(parts: Seq<Seq<char>>)
    ensures
        bold_runs(parts).len() == parts.filter(|p: Seq<char>| p.len() > 0).len(),
        forall|r: int|
            0 <= r < bold_runs(parts).len() ==> (#[trigger] bold_runs(parts)[r]).0
                == parts.filter(|p: Seq<char>| p.len() > 0)[r],
        forall|j: int|
            0 <= j < parts.len() && (#[trigger] parts[j]).len() > 0 ==> {
                let r = parts.take(j).filter(|p: Seq<char>| p.len() > 0).len() as int;
                &&& 0 <= r < bold_runs(parts).len()
                &&& bold_runs(parts)[r] == (parts[j], j % 2 == 1)
            },
    decreases parts.len(),
{
    let full = |p: Seq<char>| p.len() > 0;
    reveal(Seq::filter);
    if parts.len() > 0 {
        let most = parts.drop_last();
        lemma_runs_of_parts(most);
        assert forall|r: int| 0 <= r < bold_runs(parts).len() implies (#[trigger] bold_runs(
            parts,
        )[r]).0 == parts.filter(full)[r] by {
            if r < bold_runs(most).len() {
                assert(bold_runs(most)[r] == bold_runs(parts)[r]);
            }
        }
        assert forall|j: int| 0 <= j < parts.len() && (#[trigger] parts[j]).len() > 0 implies ({
            let r = parts.take(j).filter(full).len() as int;
            &&& 0 <= r < bold_runs(parts).len()
            &&& bold_runs(parts)[r] == (parts[j], j % 2 == 1)
        }) by {
            if j < most.len() {
                assert(most[j] == parts[j]);
                assert(most.take(j) =~= parts.take(j));
            } else {
                assert(parts.take(j) =~= most);
            }
        }
    }
}

/// The runs are the parts between the markers, but for the empty ones, in order. A run is
/// bold exactly if an odd number of markers stand before it: the second part is bold and the
/// third is not, and so on for every part.
pub proof fn law_every_second_part_is_bold(text: Seq<char>)
    ensures
        ({
            let parts = pieces(text, "**"@);
            let full = parts.filter(|p: Seq<char>| p.len() > 0);
            &&& full.len() > 0 ==> runs(text).len() == full.len() && forall|r: int|
                0 <= r < full.len() ==> (#[trigger] runs(text)[r]).0 == full[r]
            &&& full.len() == 0 ==> runs(text) == seq![(Seq::<char>::empty(), false)]
        }),
        forall|j: int|
            0 <= j < pieces(text, "**"@).len() && (#[trigger] pieces(text, "**"@)[j]).len() > 0
                ==> {
                let r = pieces(text, "**"@).take(j).filter(
                    |p: Seq<char>| p.len() > 0,
                ).len() as int;
                &&& 0 <= r < runs(text).len()
                &&& runs(text)[r] == (pieces(text, "**"@)[j], j % 2 == 1)
            },
{
    let parts = pieces(text, "**"@);
    lemma_runs_of_parts(parts);
}

/// What each part of the overlay is after a message: which messages change it, and to what.
/// Every other message leaves it as it was.
pub proof fn law_what_messages_change(overlay: Overlay, message: Message)
    requires
        overlay.in_range(),
    ensures
        ({
            let after = overlay.after(message);
            &&& after.recording == (if message is Recording {
                message->Recording_0
            } else {
                overlay.recording
            })
            &&& after.stage == (if message is Status {
                message->Status_stage
            } else if message is Reply {
                None
            } else {
                overlay.stage
            })
            &&& after.trashed == (message is Trashed || (overlay.trashed && !(message is Untrash)))
            &&& after.visible == (overlay.visible != (message is Toggle))
            &&& after.blink_on == (overlay.blink_on != (message is Blink))
            &&& message is Reply ==> after.history.len() == overlay.history.len() + 1
                && after.history.last() == message->Reply_text@ && after.history.drop_last()
                == overlay.history
            &&& !(message is Reply) ==> after.history == overlay.history
            &&& !(message is Reply || message is Forward || message is Backward) ==> after.idx
                == overlay.idx
        }),
{
    assert(message is Reply ==> overlay.after(message).history.drop_last() =~= overlay.history);
}

/// A step goes to the neighbour, and stays where there is none.
pub proof fn law_steps_go_to_the_neighbour(overlay: Overlay)
    requires
        overlay.in_range(),
    ensures
        ({
            let ahead = overlay.after(Message::Forward).idx;
            let back = overlay.after(Message::Backward).idx;
            &&& 0 <= overlay.idx < overlay.history.len() - 1 ==> ahead == overlay.idx + 1
            &&& overlay.idx >= overlay.history.len() - 1 ==> ahead == overlay.idx
            &&& overlay.idx > 0 ==> back == overlay.idx - 1
            &&& overlay.idx == 0 ==> back == 0
        }),
{
}

/// Holding the card: pressing it or an edge takes hold, letting go ends it, and nothing else
/// does either. While it is held, and only then, a move of the pointer moves or pulls it, and
/// letting go saves where it is.
pub proof fn law_what_holding_does(overlay: Overlay, message: Message)
    ensures
        ({
            let after = overlay.after(message);
            let drags = message == Message::Card(CardMessage::Drag);
            let pulls = message is Card && message->Card_0 is Resize;
            &&& drags ==> after.grab == Some(GrabKind::Move)
            &&& pulls ==> after.grab == Some(
                GrabKind::Resize { edge: message->Card_0->Resize_0 },
            )
            &&& message is Released ==> after.grab is None
            &&& !(drags || pulls || message is Released) ==> after.grab == overlay.grab
        }),
        overlay.asks(message) is HoldOffset <==> message == Message::Card(CardMessage::Drag),
        overlay.asks(message) is MoveCard <==> message is CursorMoved && overlay.grab == Some(
            GrabKind::Move,
        ),
        overlay.asks(message) is SaveLayout <==> message is Released && overlay.grab is Some,
        overlay.asks(message) is ResizeCard <==> message is CursorMoved && overlay.grab is Some
            && overlay.grab->0 is Resize,
        overlay.asks(message) matches Effect::ResizeCard { width, height } ==> {
            let edge = overlay.grab->0->edge;
            &&& width <==> edge is Right || edge is Corner
            &&& height <==> edge is Bottom || edge is Corner
        },
{
}

/// Each control sends its own command, and no other message sends any.
pub proof fn law_controls_send_their_commands(overlay: Overlay, message: Message)
    ensures
        overlay.asks(message) == Effect::Fire(Command::Toggle) <==> message == Message::Card(
            CardMessage::Toggle,
        ),
        overlay.asks(message) == Effect::Fire(Command::Pause) <==> message == Message::Card(
            CardMessage::Pause,
        ),
        overlay.asks(message) == Effect::Fire(Command::Trash) <==> message == Message::Card(
            CardMessage::Trash,
        ),
        overlay.asks(message) matches Effect::Fire(command) ==> command is Toggle
            || command is Pause || command is Trash,
{
}

/// The overlay takes input on the whole screen exactly while it is visible: showing or hiding
/// it says so, and so does a change of the screen.
pub proof fn law_input_follows_visibility(overlay: Overlay, message: Message)
    ensures
        message is Toggle ==> overlay.asks(message) == (Effect::InputRegion {
            whole: overlay.after(message).visible,
        }),
        message is SurfaceResized ==> overlay.asks(message) == (Effect::FitSurface {
            take_input: overlay.after(message).visible,
        }),
        overlay.asks(message) is InputRegion ==> message is Toggle,
        overlay.asks(message) is FitSurface ==> message is SurfaceResized,
{
}

/// The header says what comes first of: something was forgotten, a pipe is at work,
/// recording goes on, or it does not.
pub proof fn law_header_says_the_state(overlay: Overlay)
    ensures
        overlay.trashed ==> overlay.title() == "Trashed"@,
        !overlay.trashed && overlay.stage == Some(Stage::Transcribing) ==> overlay.title()
            == "Transcribing…"@,
        !overlay.trashed && overlay.stage == Some(Stage::Fetching) ==> overlay.title()
            == "Fetching response…"@,
        !overlay.trashed && overlay.stage is None && overlay.recording ==> overlay.title()
            == "Listening…"@,
        !overlay.trashed && overlay.stage is None && !overlay.recording ==> overlay.title()
            == "Paused"@,
{
}

/// What is on the card is what the overlay is in: its header, its recording dot, and the
/// suggestion at the index, or the waiting text before the first one.
pub proof fn law_card_shows_the_state(app: App)
    requires
        app.wf(),
    ensures
        app.header@ == app@.title(),
        app.card_recording == app@.recording,
        app@.history.len() == 0 ==> app.body@.len() == 1 && app.body@[0].0@
            == "Waiting for the first suggestion…"@ && !app.body@[0].1,
        app@.history.len() > 0 ==> app.body@.len() == runs(app.history@[app.idx as int]@).len(),
        app@.history.len() > 0 ==> forall|r: int|
            0 <= r < app.body@.len() ==> (#[trigger] app.body@[r]).0@ == runs(
                app.history@[app.idx as int]@,
            )[r].0 && app.body@[r].1 == runs(app.history@[app.idx as int]@)[r].1,
{
    assert forall|r: int| 0 <= r < app.body@.len() implies run_texts(app.body@)[r] == (
    (#[trigger] app.body@[r]).0@, app.body@[r].1) by {}
    if app@.history.len() == 0 {
        assert(app@.shown().len() == 1);
        assert(app.body@.len() == 1);
        assert(run_texts(app.body@)[0] == (app.body@[0].0@, app.body@[0].1));
    }
}

/// A new overlay has no suggestion; it records, is visible, and nothing is under way.
pub proof fn law_start()
    ensures
        Overlay::start().history.len() == 0,
        Overlay::start().in_range(),
        Overlay::start().recording && Overlay::start().visible && Overlay::start().blink_on,
        Overlay::start().stage is None && Overlay::start().grab is None,
        !Overlay::start().trashed,
        Overlay::start().asks(Message::CursorMoved) is Nothing,
{
}

/// Every event of the daemon has its effect on the overlay.
pub proof fn law_events_take_effect(overlay: Overlay, event: UiEvent)
    requires
        overlay.in_range(),
    ensures
        ({
            let after = overlay.after(as_message(event));
            &&& event is Reply ==> after.history == overlay.history.push(event->Reply_text@)
            &&& event is Status ==> after == (Overlay { stage: event->Status_stage, ..overlay })
            &&& event is Recording ==> after == (Overlay {
                recording: event->Recording_0,
                ..overlay
            })
            &&& event is Toggle ==> after == (Overlay { visible: !overlay.visible, ..overlay })
            &&& event is Trashed ==> after == (Overlay { trashed: true, ..overlay })
            &&& event is Untrash ==> after == (Overlay { trashed: false, ..overlay })
            &&& event is Forward ==> after == (Overlay { idx: after.idx, ..overlay }) && after.idx
                == (if overlay.idx < overlay.history.len() - 1 {
                overlay.idx + 1
            } else {
                overlay.idx
            })
            &&& event is Backward ==> after == (Overlay { idx: after.idx, ..overlay })
                && after.idx == (if overlay.idx > 0 {
                overlay.idx - 1
            } else {
                overlay.idx
            })
        }),
{
}

/// A saved geometry is where its card is put, and how large it is made, and that of the one
/// card is nothing to the other.
pub proof fn law_cards_go_where_they_were_left(card: CardInit, saved: Layout)
    ensures
        ({
            let at = placed(card, saved);
            &&& card.id is Pipe1 && saved.pipe1 is Some ==> at.pos_x == saved.pipe1->0.pos_x
                && at.pos_y == saved.pipe1->0.pos_y && at.width == saved.pipe1->0.width
                && at.height == saved.pipe1->0.height
            &&& card.id is Pipe2 && saved.pipe2 is Some ==> at.pos_x == saved.pipe2->0.pos_x
                && at.pos_y == saved.pipe2->0.pos_y && at.width == saved.pipe2->0.width
                && at.height == saved.pipe2->0.height
            &&& card.id is Pipe1 && saved.pipe1 is None ==> at == card
            &&& card.id is Pipe2 && saved.pipe2 is None ==> at == card
        }),
{
}

/// A card looks as its pipe's configuration has it, and is named after its pipe's model.
pub proof fn law_cards_follow_their_pipes(card: CardInit, config: Config)
    ensures
        is_live_card(card, config) <==> {
            &&& card.id == PipeId::Pipe1
            &&& card.model@ == "@ live · "@ + config.pipe1.llm_model@
            &&& card.font_size == config.pipe1.font_size
            &&& card.opacity == config.pipe1.opacity
            &&& card.bg_opacity == config.pipe1.bg_opacity
            &&& card.text_opacity == config.pipe1.text_opacity
            &&& card.width == config.pipe1.width
            &&& card.height == config.pipe1.height
            &&& card.pos_x == config.pipe1.pos_x
            &&& card.pos_y == config.pipe1.pos_y
        },
        is_chunk_card(card, config) <==> {
            &&& card.id == PipeId::Pipe2
            &&& card.model@ == "@ chunk · "@ + config.pipe2.llm_model@
            &&& card.font_size == config.pipe2.font_size
            &&& card.opacity == config.pipe2.opacity
            &&& card.bg_opacity == config.pipe2.bg_opacity
            &&& card.text_opacity == config.pipe2.text_opacity
            &&& card.width == config.pipe2.width
            &&& card.height == config.pipe2.height
            &&& card.pos_x == config.pipe2.pos_x
            &&& card.pos_y == config.pipe2.pos_y
        },
{
}

} // verus!
