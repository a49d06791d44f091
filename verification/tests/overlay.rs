use kitetsu::single::Single;
use kitetsu::teleprompter::config::Config;
use kitetsu::teleprompter::ipc::Command;
use kitetsu::teleprompter::layout::{layout_path, load, Geometry, Layout, LayoutFile};
use kitetsu::teleprompter::theme::{self, hex, Base16, Raw, Rgb};
use kitetsu::teleprompter::ui::{
    apply_layout, card_specs, message_of, parse_bold, region_side, App, CardMessage, Edge, Effect,
    Message, PipeId, Stage, UiEvent,
};
use kitetsu::paths::FilePath;

// ── Bold runs ─────────────────────────────────────────────────────────────────

#[test]
fn plain_text_is_one_non_bold_run() {
    assert_eq!(parse_bold("hello world"), vec![("hello world".into(), false)]);
}

#[test]
fn splits_inline_bold() {
    assert_eq!(
        parse_bold("say **this** now"),
        vec![
            ("say ".into(), false),
            ("this".into(), true),
            (" now".into(), false),
        ]
    );
}

#[test]
fn unterminated_marker_leaves_tail_bold() {
    assert_eq!(
        parse_bold("a **b"),
        vec![("a ".into(), false), ("b".into(), true)]
    );
}

#[test]
fn empty_text_yields_single_empty_run() {
    assert_eq!(parse_bold(""), vec![(String::new(), false)]);
}

#[test]
fn markers_alone_yield_an_empty_run() {
    assert_eq!(parse_bold("****"), vec![(String::new(), false)]);
    assert_eq!(
        parse_bold("**x*** y"),
        vec![("x".into(), true), ("* y".into(), false)]
    );
}

// ── Overlay ───────────────────────────────────────────────────────────────────

fn reply(app: &mut App, text: &str) {
    let effect = app.update(Message::Reply { text: text.to_owned() });
    assert_eq!(effect, Effect::Nothing);
}

fn body(app: &App) -> String {
    app.body.iter().map(|r| r.0.as_str()).collect()
}

#[test]
fn new_overlay_waits_and_listens() {
    let app = App::new();
    assert_eq!(app.header, "Listening…");
    assert_eq!(body(&app), "Waiting for the first suggestion…");
    assert!(app.visible && app.recording && app.blink_on);
}

#[test]
fn header_follows_the_mode() {
    let mut app = App::new();
    app.update(Message::Recording(false));
    assert_eq!(app.header, "Paused");
    assert!(!app.card_recording);
    app.update(Message::Status { stage: Some(Stage::Transcribing) });
    assert_eq!(app.header, "Transcribing…");
    app.update(Message::Status { stage: Some(Stage::Fetching) });
    assert_eq!(app.header, "Fetching response…");
    app.update(Message::Trashed);
    assert_eq!(app.header, "Trashed");
    app.update(Message::Untrash);
    assert_eq!(app.header, "Fetching response…");
    app.update(Message::Status { stage: None });
    assert_eq!(app.header, "Paused");
}

#[test]
fn replies_are_kept_and_walked() {
    let mut app = App::new();
    app.update(Message::Forward);
    app.update(Message::Backward);
    assert_eq!(app.idx, 0);
    reply(&mut app, "one");
    reply(&mut app, "**two**");
    assert_eq!(app.body, vec![("two".to_owned(), true)]);
    app.update(Message::Backward);
    assert_eq!(body(&app), "one");
    app.update(Message::Backward);
    assert_eq!(body(&app), "one");
    app.update(Message::Forward);
    assert_eq!(body(&app), "two");
    app.update(Message::Forward);
    assert_eq!(app.idx, 1);
    app.update(Message::Backward);
    app.update(Message::Status { stage: Some(Stage::Fetching) });
    reply(&mut app, "three");
    assert_eq!(body(&app), "three");
    assert_eq!(app.header, "Listening…");
    assert_eq!(app.history, vec!["one", "**two**", "three"]);
}

#[test]
fn toggling_keeps_the_content() {
    let mut app = App::new();
    reply(&mut app, "x");
    assert_eq!(app.update(Message::Toggle), Effect::InputRegion { whole: false });
    assert!(!app.visible);
    assert_eq!(body(&app), "x");
    assert_eq!(
        app.update(Message::SurfaceResized),
        Effect::FitSurface { take_input: false }
    );
    assert_eq!(app.update(Message::Toggle), Effect::InputRegion { whole: true });
    assert!(app.visible);
}

#[test]
fn controls_fire_their_commands() {
    let mut app = App::new();
    let mut press = |m| app.update(Message::Card(m));
    assert_eq!(press(CardMessage::Toggle), Effect::Fire(Command::Toggle));
    assert_eq!(press(CardMessage::Pause), Effect::Fire(Command::Pause));
    assert_eq!(press(CardMessage::Trash), Effect::Fire(Command::Trash));
    assert!(app.grab.is_none());
}

#[test]
fn grabs_follow_the_pointer_until_released() {
    let mut app = App::new();
    assert_eq!(app.update(Message::CursorMoved), Effect::Nothing);
    assert_eq!(app.update(Message::Released), Effect::Nothing);
    assert_eq!(app.update(Message::Card(CardMessage::Drag)), Effect::HoldOffset);
    assert_eq!(app.update(Message::CursorMoved), Effect::MoveCard);
    assert_eq!(app.update(Message::Released), Effect::SaveLayout);
    assert_eq!(app.update(Message::CursorMoved), Effect::Nothing);
    for (edge, width, height) in [
        (Edge::Right, true, false),
        (Edge::Bottom, false, true),
        (Edge::Corner, true, true),
    ] {
        assert_eq!(app.update(Message::Card(CardMessage::Resize(edge))), Effect::Nothing);
        assert_eq!(
            app.update(Message::CursorMoved),
            Effect::ResizeCard { width, height }
        );
        assert_eq!(app.update(Message::Released), Effect::SaveLayout);
    }
}

#[test]
fn blinking_changes_the_dot_alone() {
    let mut app = App::new();
    app.update(Message::Blink);
    assert!(!app.blink_on);
    app.update(Message::CmdDone);
    app.update(Message::Blink);
    assert!(app.blink_on);
    assert_eq!(app.header, "Listening…");
}

#[test]
fn events_become_messages() {
    assert!(matches!(
        message_of(UiEvent::Reply { text: "a".to_owned() }),
        Message::Reply { text } if text == "a"
    ));
    assert!(matches!(
        message_of(UiEvent::Status { stage: None }),
        Message::Status { stage: None }
    ));
    assert!(matches!(message_of(UiEvent::Recording(true)), Message::Recording(true)));
    assert!(matches!(message_of(UiEvent::Toggle), Message::Toggle));
    assert!(matches!(message_of(UiEvent::Trashed), Message::Trashed));
    assert!(matches!(message_of(UiEvent::Untrash), Message::Untrash));
    assert!(matches!(message_of(UiEvent::Forward), Message::Forward));
    assert!(matches!(message_of(UiEvent::Backward), Message::Backward));
}

#[test]
fn input_region_is_never_empty() {
    assert_eq!(region_side(Some(1920)), 1920);
    assert_eq!(region_side(Some(0)), 1);
    assert_eq!(region_side(None), 100_000);
}

// ── Cards and layout ──────────────────────────────────────────────────────────

fn single(v: f32) -> Single {
    Single { bits: v.to_bits() }
}

fn geometry(pos_x: f32, pos_y: f32, width: f32, height: f32) -> Geometry {
    Geometry {
        pos_x: single(pos_x),
        pos_y: single(pos_y),
        width: single(width),
        height: single(height),
    }
}

#[test]
fn enabled_pipes_get_cards() {
    let mut config = Config::default();
    let cards = card_specs(&config);
    assert_eq!(cards.len(), 2);
    assert_eq!(cards[0].id, PipeId::Pipe1);
    assert_eq!(cards[0].model, "@ live · gpt-4o");
    assert_eq!(cards[1].id, PipeId::Pipe2);
    assert_eq!(cards[1].model, "@ chunk · gpt-4o");
    assert_eq!(cards[1].pos_y, single(460.0));
    config.pipe1.enabled = false;
    let cards = card_specs(&config);
    assert_eq!(cards.len(), 1);
    assert_eq!(cards[0].id, PipeId::Pipe2);
    config.pipe2.enabled = false;
    assert!(card_specs(&config).is_empty());
}

#[test]
fn saved_layout_places_its_card_alone() {
    let mut saved = Layout::default();
    saved.set(PipeId::Pipe2, geometry(1.0, 2.0, 300.0, 200.0));
    let cards = apply_layout(card_specs(&Config::default()), &saved);
    assert_eq!(cards.len(), 2);
    assert_eq!(cards[0].pos_x, single(40.0));
    assert_eq!(cards[0].width, single(600.0));
    assert_eq!(cards[1].pos_x, single(1.0));
    assert_eq!(cards[1].pos_y, single(2.0));
    assert_eq!(cards[1].width, single(300.0));
    assert_eq!(cards[1].height, single(200.0));
    assert_eq!(cards[1].font_size, single(19.0));
    assert_eq!(cards[1].model, "@ chunk · gpt-4o");
}

#[test]
fn layout_gives_back_what_was_set() {
    let mut layout = Layout::default();
    let first = geometry(40.0, 40.0, 612.0, 380.0);
    layout.set(PipeId::Pipe1, first);
    assert_eq!(layout.get(PipeId::Pipe1), Some(first));
    assert_eq!(layout.get(PipeId::Pipe2), None);
    let second = geometry(0.0, 0.0, 200.0, 120.0);
    layout.set(PipeId::Pipe1, second);
    assert_eq!(layout.get(PipeId::Pipe1), Some(second));
}

#[test]
fn missing_file_is_empty_layout() {
    let layout = load(LayoutFile::Missing);
    assert_eq!(layout, Layout::default());
    assert_eq!(layout.get(PipeId::Pipe1), None);
}

#[test]
fn corrupt_file_falls_back_to_empty() {
    assert_eq!(load(LayoutFile::Corrupt), Layout::default());
    let mut saved = Layout::default();
    saved.set(PipeId::Pipe1, geometry(1.0, 1.0, 1.0, 1.0));
    assert_eq!(load(LayoutFile::Parsed(saved)), saved);
}

#[test]
fn path_ends_with_kitetsu_layout_toml() {
    let path = |p: &str| Some(FilePath::of(p));
    let temp = || FilePath::of("/tmp");
    assert_eq!(
        layout_path(path("/state"), path("/home/me"), temp()).bytes,
        b"/state/kitetsu/layout.toml"
    );
    assert_eq!(
        layout_path(None, path("/home/me"), temp()).bytes,
        b"/home/me/.local/state/kitetsu/layout.toml"
    );
    assert_eq!(layout_path(None, None, temp()).bytes, b"/tmp/kitetsu/layout.toml");
}

// ── Colours ───────────────────────────────────────────────────────────────────

fn raw(table: &str) -> Raw {
    let table: toml::Table = table.parse().unwrap();
    let slot = |name: &str| table.get(name).unwrap().as_str().unwrap().to_owned();
    Raw {
        base00: slot("base00"),
        base01: slot("base01"),
        base02: slot("base02"),
        base03: slot("base03"),
        base04: slot("base04"),
        base05: slot("base05"),
        base06: slot("base06"),
        base07: slot("base07"),
        base08: slot("base08"),
        base09: slot("base09"),
        base0a: slot("base0a"),
        base0b: slot("base0b"),
        base0c: slot("base0c"),
        base0d: slot("base0d"),
        base0e: slot("base0e"),
        base0f: slot("base0f"),
    }
}

fn table() -> String {
    (0..16)
        .map(|i| format!("base{i:02x} = \"#101010\"\n"))
        .collect::<String>()
}

fn palette() -> Base16 {
    raw(&table()).into_palette().expect("valid hex")
}

#[test]
fn valid_table_parses_to_palette() {
    let p = palette();
    assert_eq!(p.base05, hex("#101010").unwrap());
}

#[test]
fn malformed_hex_slot_rejected() {
    let toml = table().replace("base05 = \"#101010\"", "base05 = \"nope\"");
    assert!(raw(&toml).into_palette().is_none());
}

#[test]
fn slots_keep_their_places() {
    let toml = table().replace("base0f = \"#101010\"", "base0f = \"#fFa00B\"");
    let p = raw(&toml).into_palette().unwrap();
    assert_eq!(p.base0f, Rgb { r: 255, g: 160, b: 11 });
    assert_eq!(p.base0e, Rgb { r: 16, g: 16, b: 16 });
}

#[test]
fn colours_are_six_hex_digits() {
    assert_eq!(hex("#01aBff"), Some(Rgb { r: 1, g: 171, b: 255 }));
    assert_eq!(hex("01abff"), None);
    assert_eq!(hex("#01abf"), None);
    assert_eq!(hex("#01abfff"), None);
    assert_eq!(hex("#01abfg"), None);
    assert_eq!(hex(""), None);
}

#[test]
fn palette_falls_back_as_a_whole() {
    let fallback = palette();
    let bright = table().replace("#101010", "#ffffff");
    let white = Rgb { r: 255, g: 255, b: 255 };
    assert_eq!(theme::load(Some(raw(&bright)), fallback).base00, white);
    let broken = bright.replace("base05 = \"#ffffff\"", "base05 = \"#ff\"");
    assert_eq!(theme::load(Some(raw(&broken)), fallback), fallback);
    assert_eq!(theme::load(None, fallback), fallback);
}

#[test]
fn split_parts_join_to_the_text() {
    for text in ["", "**", "a **b** c", "***x", "no markers"] {
        let parts = kitetsu::text::split(text, "**");
        assert_eq!(kitetsu::text::join(&parts, "**"), text);
    }
    assert_eq!(kitetsu::text::split("a **b** c", "**"), ["a ", "b", " c"]);
}
