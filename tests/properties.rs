use std::cell::RefCell;
use std::rc::Rc;

use superconsole::{
    choose_size, frame_height, MAX_CANVAS_HEIGHT, emit_limit, is_big, render_lines, Component, Dimensions, DrawMode, Line, SuperConsole,
    SuperConsoleOutput, MAX_GRAPHEME_BUFFER, MINIMUM_EMIT,
};

struct Frame(Vec<Line>);

struct Echo;

impl Component for Echo {
    type State = Frame;

    fn draw(&self, state: &Frame, _dimensions: Dimensions, _mode: DrawMode) -> anyhow::Result<Vec<Line>> {
        Ok(state.0.clone())
    }
}

struct Failing;

impl Component for Failing {
    type State = Frame;

    fn draw(&self, _state: &Frame, _dimensions: Dimensions, _mode: DrawMode) -> anyhow::Result<Vec<Line>> {
        Err(anyhow::Error::msg("no frame"))
    }
}

#[derive(Default)]
struct Captured {
    should_render: bool,
    asked: usize,
    frames: Vec<Vec<u8>>,
    finalized: bool,
}

struct Capture(Rc<RefCell<Captured>>);

impl SuperConsoleOutput for Capture {
    fn should_render(&mut self) -> bool {
        let mut c = self.0.borrow_mut();
        c.asked += 1;
        c.should_render
    }

    fn output(&mut self, buffer: Vec<u8>) -> anyhow::Result<()> {
        self.0.borrow_mut().frames.push(buffer);
        Ok(())
    }

    fn finalize(self) -> anyhow::Result<()> {
        self.0.borrow_mut().finalized = true;
        Ok(())
    }
}

fn line(text: &str) -> Line {
    Line::from_spans(vec![text.to_string()])
}

fn console_with<C: Component>(root: C, open: bool) -> (SuperConsole<C, Capture>, Rc<RefCell<Captured>>) {
    let captured = Rc::new(RefCell::new(Captured {
        should_render: open,
        ..Default::default()
    }));
    let console = SuperConsole::forced_new(root, Dimensions::new(80, 80), Capture(captured.clone()));
    (console, captured)
}

fn position(haystack: &[u8], needle: &[u8]) -> Option<usize> {
    haystack.windows(needle.len()).position(|w| w == needle)
}

#[test]
fn limit_is_room_above_canvas() {
    assert_eq!(emit_limit(DrawMode::Normal, false, 80, 10), Some(70));
    assert_eq!(emit_limit(DrawMode::Normal, false, 7, 1), Some(6));
}

#[test]
fn limit_has_a_floor() {
    assert_eq!(emit_limit(DrawMode::Normal, false, 2, 10), Some(MINIMUM_EMIT));
    assert_eq!(emit_limit(DrawMode::Normal, false, 6, 1), Some(5));
    assert_eq!(emit_limit(DrawMode::Normal, false, 0, 0), Some(5));
}

#[test]
fn limit_is_lifted_for_final_and_big() {
    assert_eq!(emit_limit(DrawMode::Final, false, 80, 10), None);
    assert_eq!(emit_limit(DrawMode::Normal, true, 80, 10), None);
    assert_eq!(emit_limit(DrawMode::Final, true, 2, 10), None);
}

#[test]
fn big_only_past_the_threshold() {
    let at = vec![Line::from_spans(vec!["a".repeat(MAX_GRAPHEME_BUFFER)])];
    assert!(!is_big(&at));
    let past = vec![
        Line::from_spans(vec!["a".repeat(MAX_GRAPHEME_BUFFER - 1), "bc".to_string()]),
    ];
    assert!(is_big(&past));
    assert!(!is_big(&Vec::new()));
}

#[test]
fn big_counts_graphemes_not_chars() {
    // Each "e" with a combining accent is two chars and one grapheme.
    let accented = "e\u{301}".repeat(600_000);
    assert!(!is_big(&vec![Line::from_spans(vec![accented])]));
    let plain = "e".repeat(1_200_000);
    assert!(is_big(&vec![Line::from_spans(vec![plain])]));
}

#[test]
fn render_lines_takes_from_the_front() -> anyhow::Result<()> {
    let mut lines = vec![line("a"), line("b"), line("c")];
    let mut buffer = Vec::new();
    render_lines(&mut lines, &mut buffer, Some(2))?;
    assert_eq!(buffer, b"a\x1b[K\nb\x1b[K\n".to_vec());
    assert_eq!(lines.len(), 1);
    let mut rest = Vec::new();
    render_lines(&mut lines, &mut rest, None)?;
    assert_eq!(rest, b"c\x1b[K\n".to_vec());
    assert!(lines.is_empty());
    Ok(())
}

#[test]
fn line_bytes_join_spans() -> anyhow::Result<()> {
    let mut lines = vec![Line::from_spans(vec!["a".to_string(), "\u{e9}".to_string()])];
    let mut buffer = Vec::new();
    render_lines(&mut lines, &mut buffer, None)?;
    assert_eq!(buffer, vec![b'a', 0xc3, 0xa9, 0x1b, b'[', b'K', b'\n']);
    Ok(())
}

#[test]
fn pass_bytes_exact() -> anyhow::Result<()> {
    let (mut console, _) = console_with(Echo, true);
    let state = Frame(vec![line("ab")]);
    let mut first = Vec::new();
    console.render_general(&mut first, &state, DrawMode::Normal, Dimensions::new(80, 80))?;
    assert_eq!(first, b"ab\x1b[K\n\x1b[J".to_vec());

    console.emit(vec![line("x")]);
    let mut second = Vec::new();
    console.render_general(&mut second, &state, DrawMode::Normal, Dimensions::new(80, 80))?;
    assert_eq!(second, b"\x1b[1Ax\x1b[K\nab\x1b[K\n\x1b[J".to_vec());
    assert_eq!(console.pending_len(), 0);
    Ok(())
}

#[test]
fn move_up_is_decimal() -> anyhow::Result<()> {
    let (mut console, _) = console_with(Echo, true);
    let state = Frame(vec![line("s"); 12]);
    let mut first = Vec::new();
    console.render_general(&mut first, &state, DrawMode::Normal, Dimensions::new(80, 80))?;
    let mut second = Vec::new();
    console.render_general(&mut second, &state, DrawMode::Normal, Dimensions::new(80, 80))?;
    assert!(second.starts_with(b"\x1b[12As\x1b[K\n"));
    Ok(())
}

#[test]
fn scenario_small_terminal_takes_minimum() -> anyhow::Result<()> {
    let (mut console, _) = console_with(Echo, true);
    console.emit(vec![line("log"); 10]);
    let state = Frame(vec![line("state")]);
    let mut buffer = Vec::new();
    console.render_general(&mut buffer, &state, DrawMode::Normal, Dimensions::new(100, 2))?;
    assert_eq!(console.pending_len(), 5);
    Ok(())
}

#[test]
fn scenario_room_decides_how_many() -> anyhow::Result<()> {
    let (mut console, _) = console_with(Echo, true);
    console.emit(vec![line("log"); 20]);
    let state = Frame(vec![line("state"); 2]);
    let mut buffer = Vec::new();
    console.render_general(&mut buffer, &state, DrawMode::Normal, Dimensions::new(100, 10))?;
    assert_eq!(console.pending_len(), 12);
    Ok(())
}

#[test]
fn scenario_oversized_queue_drains() -> anyhow::Result<()> {
    let (mut console, _) = console_with(Echo, true);
    console.emit(vec![line("x"); 2_000_000]);
    let state = Frame(vec![line("state")]);
    let mut buffer = Vec::new();
    console.render_general(&mut buffer, &state, DrawMode::Normal, Dimensions::new(100, 20))?;
    assert_eq!(console.pending_len(), 0);
    Ok(())
}

#[test]
fn final_mode_drains_everything() -> anyhow::Result<()> {
    let (mut console, _) = console_with(Echo, true);
    console.emit(vec![line("log"); 50]);
    let state = Frame(vec![line("state"); 40]);
    let mut buffer = Vec::new();
    console.render_general(&mut buffer, &state, DrawMode::Final, Dimensions::new(100, 2))?;
    assert_eq!(console.pending_len(), 0);
    Ok(())
}

#[test]
fn emit_sends_nothing() {
    let (mut console, captured) = console_with(Echo, true);
    console.emit(vec![line("a"), line("b")]);
    assert_eq!(console.pending_len(), 2);
    assert!(captured.borrow().frames.is_empty());
    assert_eq!(captured.borrow().asked, 0);
}

#[test]
fn closed_output_keeps_queue() -> anyhow::Result<()> {
    let (mut console, captured) = console_with(Echo, false);
    console.emit(vec![line("a"); 3]);
    console.render(&Frame(vec![line("state")]))?;
    assert!(captured.borrow().frames.is_empty());
    assert_eq!(console.pending_len(), 3);
    assert_eq!(captured.borrow().asked, 1);
    Ok(())
}

#[test]
fn render_makes_one_pass() -> anyhow::Result<()> {
    let (mut console, captured) = console_with(Echo, true);
    console.emit(vec![line("a"); 3]);
    console.render(&Frame(vec![line("state")]))?;
    assert_eq!(captured.borrow().frames.len(), 1);
    assert_eq!(captured.borrow().asked, 1);
    assert_eq!(console.pending_len(), 0);
    Ok(())
}

#[test]
fn deferred_lines_keep_order() -> anyhow::Result<()> {
    let (mut console, captured) = console_with(Echo, false);
    let state = Frame(vec![line("state")]);
    console.emit_now(vec![line("line 1")], &state)?;
    assert!(captured.borrow().frames.is_empty());
    captured.borrow_mut().should_render = true;
    console.emit_now(vec![line("line 2")], &state)?;
    let frame = captured.borrow_mut().frames.pop().expect("a frame");
    let one = position(&frame, b"line 1").expect("line 1");
    let two = position(&frame, b"line 2").expect("line 2");
    let canvas = position(&frame, b"state").expect("state");
    assert!(one < two && two < canvas);
    Ok(())
}

#[test]
fn clear_ignores_the_gate() -> anyhow::Result<()> {
    let (mut console, captured) = console_with(Echo, true);
    let state = Frame(vec![line("state"); 3]);
    let mut buffer = Vec::new();
    console.render_general(&mut buffer, &state, DrawMode::Normal, Dimensions::new(80, 80))?;
    captured.borrow_mut().should_render = false;
    console.emit(vec![line("kept")]);
    console.clear()?;
    console.clear()?;
    let c = captured.borrow();
    assert_eq!(c.frames, vec![b"\x1b[3A\x1b[J".to_vec(), b"\x1b[J".to_vec()]);
    assert_eq!(c.asked, 0);
    drop(c);
    assert_eq!(console.pending_len(), 1);
    Ok(())
}

#[test]
fn finalize_flushes_and_tears_down() -> anyhow::Result<()> {
    let (mut console, captured) = console_with(Echo, false);
    console.emit(vec![line("log"); 30]);
    console.finalize(&Frame(vec![line("done")]))?;
    let c = captured.borrow();
    assert!(c.finalized);
    assert_eq!(c.frames.len(), 1);
    assert_eq!(c.frames[0].windows(3).filter(|w| *w == b"log").count(), 30);
    Ok(())
}

#[test]
fn draw_failure_propagates() {
    let (mut console, captured) = console_with(Failing, true);
    console.emit(vec![line("a")]);
    assert!(console.render(&Frame(Vec::new())).is_err());
    assert!(captured.borrow().frames.is_empty());
    assert_eq!(console.pending_len(), 1);
}

#[test]
fn new_needs_a_terminal() {
    let out = Rc::new(RefCell::new(Captured::default()));
    assert!(SuperConsole::new(Echo, Capture(out.clone()), false).is_none());
    let console = SuperConsole::new(Echo, Capture(out), true).expect("a console");
    assert_eq!(console.pending_len(), 0);
}

#[test]
fn frame_height_bounds() {
    assert_eq!(frame_height(&vec![line("s"); 3]).ok(), Some(3));
    assert_eq!(frame_height(&vec![line("s"); MAX_CANVAS_HEIGHT]).ok(), Some(65535));
    assert!(frame_height(&vec![line("s"); MAX_CANVAS_HEIGHT + 1]).is_err());
}

#[test]
fn size_prefers_the_terminal() {
    let live = Ok(Dimensions::new(120, 40));
    assert_eq!(choose_size(live, Some(Dimensions::new(80, 80))).ok(), Some(Dimensions::new(120, 40)));
    let failed = Err(anyhow::Error::msg("no terminal"));
    assert_eq!(choose_size(failed, Some(Dimensions::new(80, 80))).ok(), Some(Dimensions::new(80, 80)));
    let failed = Err(anyhow::Error::msg("no terminal"));
    assert!(choose_size(failed, None).is_err());
}

#[test]
fn too_tall_canvas_leaves_queue() {
    let (mut console, captured) = console_with(Echo, true);
    console.emit(vec![line("a")]);
    let mut buffer = Vec::new();
    let tall = Frame(vec![line("s"); MAX_CANVAS_HEIGHT + 1]);
    assert!(console.render_general(&mut buffer, &tall, DrawMode::Normal, Dimensions::new(80, 80)).is_err());
    assert_eq!(console.pending_len(), 1);
    assert!(console.render(&tall).is_err());
    assert!(captured.borrow().frames.is_empty());
    assert_eq!(console.pending_len(), 1);
}
