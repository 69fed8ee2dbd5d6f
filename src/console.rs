use vstd::prelude::*;

use crate::ansi::{erase_bytes, move_up_bytes, queue_erase, queue_move_up, Erase};
use crate::content::{is_big, lines_bytes, oversized, render_lines, taken, total_len, Line, MAX_GRAPHEME_BUFFER};
use crate::dimensions::{terminal_size, Dimensions, DrawMode};
use crate::error::error_msg;
use crate::output::{Recorded, SuperConsoleOutput};

verus! {

/// However tall the canvas, a normal render emits at least this many queued
/// lines, so that a small terminal never starves the log.
pub const MINIMUM_EMIT: usize = 5;

/// The tallest canvas whose top the cursor can be moved back to.
pub const MAX_CANVAS_HEIGHT: usize = 65535;

/// A piece of the canvas: draws itself into lines from the state it is given.
pub trait Component {
    type State;

    fn draw(&self, state: &Self::State, dimensions: Dimensions, mode: DrawMode) -> Result<Vec<Line>, anyhow::Error>;
}

/// The rows left above a canvas of `frame_len` lines on `rows` rows.
pub open spec fn room(rows: nat, frame_len: nat) -> nat {
    if rows > frame_len {
        (rows - frame_len) as nat
    } else {
        0
    }
}

/// How many lines a normal render may emit above a canvas of `frame_len`
/// lines on `rows` rows.
pub open spec fn budget(rows: nat, frame_len: nat) -> nat {
    if room(rows, frame_len) > MINIMUM_EMIT {
        room(rows, frame_len)
    } else {
        MINIMUM_EMIT as nat
    }
}

/// The limit on the lines one render takes from `pending`: none for the
/// final render or an oversized queue, else the budget.
pub open spec fn drain_limit(pending: Seq<Line>, mode: DrawMode, rows: nat, frame_len: nat) -> Option<nat> {
    if mode == DrawMode::Final || oversized(pending) {
        None
    } else {
        Some(budget(rows, frame_len))
    }
}

/// How many lines one render takes from the front of `pending`.
pub open spec fn drain_count(pending: Seq<Line>, mode: DrawMode, rows: nat, frame_len: nat) -> nat {
    match drain_limit(pending, mode, rows, frame_len) {
        Some(n) => if n < pending.len() { n } else { pending.len() },
        None => pending.len(),
    }
}

/// The bytes of one render: back to the top of the old canvas, the emitted
/// lines, the new canvas, and an erase of whatever lies below.
pub open spec fn pass_bytes(height_before: nat, emitted: Seq<Line>, frame: Seq<Line>) -> Seq<u8> {
    move_up_bytes(height_before) + lines_bytes(emitted) + lines_bytes(frame) + erase_bytes(Erase::ScreenBelow)
}

/// One render took from `before` what its limit allows, left `after`, and
/// produced `bytes` around the canvas `frame`.
pub open spec fn is_pass(
    before: Seq<Line>,
    after: Seq<Line>,
    mode: DrawMode,
    rows: nat,
    height_before: nat,
    frame: Seq<Line>,
    bytes: Seq<u8>,
) -> bool {
    let k = drain_count(before, mode, rows, frame.len());
    &&& after == before.skip(k as int)
    &&& bytes == pass_bytes(height_before, before.take(k as int), frame)
}

/// A normal render on a queue that is not oversized takes exactly
/// `min(queued, max(MINIMUM_EMIT, rows - frame height))` lines, the oldest
/// first, and leaves the rest in their order.
pub proof fn lemma_normal_pass_takes_budget(
    before: Seq<Line>,
    after: Seq<Line>,
    rows: nat,
    height_before: nat,
    frame: Seq<Line>,
    bytes: Seq<u8>,
)
    requires
        total_len(before) <= MAX_GRAPHEME_BUFFER,
        is_pass(before, after, DrawMode::Normal, rows, height_before, frame, bytes),
    ensures
        ({
            let room: int = if rows >= frame.len() { rows - frame.len() } else { 0 };
            let limit: int = if room > MINIMUM_EMIT { room } else { MINIMUM_EMIT as int };
            let n: int = if before.len() < limit { before.len() as int } else { limit };
            &&& after == before.subrange(n, before.len() as int)
            &&& bytes == move_up_bytes(height_before) + lines_bytes(before.subrange(0, n))
                + lines_bytes(frame) + erase_bytes(Erase::ScreenBelow)
        }),
{
}

/// A normal render on an oversized queue takes every queued line, whatever
/// the terminal's rows and the canvas's height.
pub proof fn lemma_oversized_pass_takes_all(
    before: Seq<Line>,
    after: Seq<Line>,
    rows: nat,
    height_before: nat,
    frame: Seq<Line>,
    bytes: Seq<u8>,
)
    requires
        total_len(before) > MAX_GRAPHEME_BUFFER,
        is_pass(before, after, DrawMode::Normal, rows, height_before, frame, bytes),
    ensures
        after.len() == 0,
        bytes == move_up_bytes(height_before) + lines_bytes(before) + lines_bytes(frame)
            + erase_bytes(Erase::ScreenBelow),
{
    assert(before.take(before.len() as int) =~= before);
}

/// A final render takes every queued line, however many there are.
pub proof fn lemma_final_pass_takes_all(
    before: Seq<Line>,
    after: Seq<Line>,
    rows: nat,
    height_before: nat,
    frame: Seq<Line>,
    bytes: Seq<u8>,
)
    requires
        is_pass(before, after, DrawMode::Final, rows, height_before, frame, bytes),
    ensures
        after.len() == 0,
        bytes == move_up_bytes(height_before) + lines_bytes(before) + lines_bytes(frame)
            + erase_bytes(Erase::ScreenBelow),
{
    assert(before.take(before.len() as int) =~= before);
}

/// A render loses no line: what it emits, followed by what it leaves, is
/// what was queued.
pub proof fn lemma_pass_loses_nothing(
    before: Seq<Line>,
    after: Seq<Line>,
    mode: DrawMode,
    rows: nat,
    height_before: nat,
    frame: Seq<Line>,
    bytes: Seq<u8>,
)
    requires
        is_pass(before, after, mode, rows, height_before, frame, bytes),
    ensures
        before == before.take(drain_count(before, mode, rows, frame.len()) as int) + after,
{
    assert(before =~= before.take(drain_count(before, mode, rows, frame.len()) as int) + after);
}

/// `after` is what is left of `before` once some lines were taken from its
/// front: nothing is reordered, and only the oldest lines go.
pub open spec fn keeps_order(before: Seq<Line>, after: Seq<Line>) -> bool {
    exists|k: int| 0 <= k <= before.len() && after == #[trigger] before.skip(k)
}

/// The limit on the lines one render emits, from the mode, whether the queue
/// is oversized, the terminal's rows and the canvas's height.
pub fn emit_limit(mode: DrawMode, big: bool, rows: usize, frame_len: usize) -> (r: Option<usize>)
    ensures
        (mode == DrawMode::Final || big) ==> r is None,
        (mode == DrawMode::Normal && !big) ==> r == Some(budget(rows as nat, frame_len as nat) as usize),
{
    match mode {
        DrawMode::Normal if !big => {
            let room: usize = if rows > frame_len { rows - frame_len } else { 0 };
            Some(if room > MINIMUM_EMIT { room } else { MINIMUM_EMIT })
        },
        _ => None,
    }
}

/// The height of a drawn frame as the cursor moves count it: an error for a
/// frame taller than `MAX_CANVAS_HEIGHT` lines.
pub fn frame_height(frame: &Vec<Line>) -> (r: Result<u16, anyhow::Error>)
    ensures
        r is Ok <==> frame@.len() <= MAX_CANVAS_HEIGHT,
        r matches Ok(h) ==> h as nat == frame@.len(),
{
    if frame.len() > MAX_CANVAS_HEIGHT {
        Err(error_msg("the canvas is taller than the cursor can move"))
    } else {
        Ok(frame.len() as u16)
    }
}

/// The size a render uses: the terminal's where it answered, else the
/// fallback where there is one, else the terminal's error.
pub fn choose_size(live: Result<Dimensions, anyhow::Error>, fallback: Option<Dimensions>) -> (r: Result<Dimensions, anyhow::Error>)
    ensures
        r is Ok <==> (live is Ok || fallback is Some),
        live matches Ok(d) ==> r == Ok::<Dimensions, anyhow::Error>(d),
        live is Err ==> match fallback {
            Some(d) => r == Ok::<Dimensions, anyhow::Error>(d),
            None => r == live,
        },
{
    match live {
        Ok(size) => Ok(size),
        Err(e) => match fallback {
            Some(default) => Ok(default),
            None => Err(e),
        },
    }
}

/// The canvas: the root component, and the height of what it last drew.
pub struct Canvas<C: Component> {
    root: C,
    len: u16,
}

impl<C: Component> Canvas<C> {
    /// The number of rows the canvas last drew.
    pub closed spec fn height(&self) -> nat {
        self.len as nat
    }

    pub fn new(root: C) -> (r: Self)
        ensures
            r.height() == 0,
    {
        Canvas { root, len: 0 }
    }

    /// Appends the bytes that take the cursor back to the top of the canvas.
    pub fn move_up(&self, buffer: &mut Vec<u8>) -> (r: Result<(), anyhow::Error>)
        ensures
            r is Ok,
            final(buffer)@ == old(buffer)@ + move_up_bytes(self.height()),
    {
        queue_move_up(buffer, self.len)
    }

    /// Draws the root component, and remembers the height of what it drew.
    /// A frame taller than `MAX_CANVAS_HEIGHT` is an error.
    pub fn draw(&mut self, state: &C::State, dimensions: Dimensions, mode: DrawMode) -> (r: Result<Vec<Line>, anyhow::Error>)
        ensures
            r matches Ok(frame) ==> frame@.len() <= MAX_CANVAS_HEIGHT && final(self).height() == frame@.len(),
            r is Err ==> final(self).height() == old(self).height(),
    {
        let frame = self.root.draw(state, dimensions, mode)?;
        self.len = frame_height(&frame)?;
        Ok(frame)
    }

    /// Appends the bytes that erase the canvas, which then has no height.
    pub fn clear(&mut self, buffer: &mut Vec<u8>) -> (r: Result<(), anyhow::Error>)
        ensures
            r is Ok,
            final(buffer)@ == old(buffer)@ + move_up_bytes(old(self).height()) + erase_bytes(Erase::ScreenBelow),
            final(self).height() == 0,
    {
        self.move_up(buffer)?;
        queue_erase(buffer, Erase::ScreenBelow)?;
        self.len = 0;
        Ok(())
    }
}

/// The console: a canvas redrawn in place at the bottom of the terminal, and
/// above it the lines emitted so far, printed once each, in order.
pub struct SuperConsole<C: Component, O: SuperConsoleOutput> {
    root: Canvas<C>,
    to_emit: Vec<Line>,
    /// The size to use where the terminal's cannot be read.
    default_size: Option<Dimensions>,
    output: Recorded<O>,
}

impl<C: Component, O: SuperConsoleOutput> SuperConsole<C, O> {
    /// The lines queued and not yet emitted, oldest first.
    pub closed spec fn pending(&self) -> Seq<Line> {
        self.to_emit@
    }

    /// The size used where the terminal's cannot be read.
    pub closed spec fn fallback(&self) -> Option<Dimensions> {
        self.default_size
    }

    /// The height of the canvas last drawn.
    pub closed spec fn canvas_height(&self) -> nat {
        self.root.height()
    }

    /// Every buffer handed to the output so far.
    pub closed spec fn sent(&self) -> Seq<Seq<u8>> {
        self.output.taken()
    }

    /// Every answer the output gave to whether it may render.
    pub closed spec fn gates(&self) -> Seq<bool> {
        self.output.answers()
    }

    /// The output the console writes to.
    pub closed spec fn sink(&self) -> O {
        self.output.inner()
    }

    /// `post` is `pre` after one render in `mode` that found `pending` queued
    /// and handed one buffer to the output.
    pub open spec fn made_pass(pending: Seq<Line>, pre: Self, post: Self, mode: DrawMode) -> bool {
        &&& post.sent().len() == pre.sent().len() + 1
        &&& post.sent().drop_last() == pre.sent()
        &&& exists|rows: nat, frame: Seq<Line>| frame.len() == post.canvas_height()
            && #[trigger] is_pass(pending, post.pending(), mode, rows, pre.canvas_height(), frame, post.sent().last())
    }

    /// `post` is `pre` unchanged but for the answers of the output.
    pub open spec fn untouched(pending: Seq<Line>, pre: Self, post: Self) -> bool {
        &&& post.pending() == pending
        &&& post.sent() == pre.sent()
        &&& post.canvas_height() == pre.canvas_height()
    }

    /// What a render that found `pending` queued leaves: the output is asked
    /// once whether it may render. If not, nothing changes. If so, either a
    /// failure came before any buffer was composed and nothing changes, or
    /// one normal pass was made and its buffer handed to the output; success
    /// means the latter.
    pub open spec fn render_outcome(pending: Seq<Line>, pre: Self, post: Self, ok: bool) -> bool {
        &&& post.gates().len() == pre.gates().len() + 1
        &&& post.gates().drop_last() == pre.gates()
        &&& post.fallback() == pre.fallback()
        &&& !post.gates().last() ==> ok && Self::untouched(pending, pre, post)
        &&& post.gates().last() ==> {
            ||| (!ok && Self::untouched(pending, pre, post))
            ||| Self::made_pass(pending, pre, post, DrawMode::Normal)
        }
        &&& post.gates().last() && ok ==> Self::made_pass(pending, pre, post, DrawMode::Normal)
    }

    /// A console that has drawn and sent nothing and holds no lines.
    pub open spec fn is_fresh(&self, default_size: Option<Dimensions>, output: O) -> bool {
        &&& self.pending() == Seq::<Line>::empty()
        &&& self.fallback() == default_size
        &&& self.canvas_height() == 0
        &&& self.sent() == Seq::<Seq<u8>>::empty()
        &&& self.gates() == Seq::<bool>::empty()
        &&& self.sink() == output
    }

    /// Builds a console on a terminal: none where standard output and
    /// standard error are not both terminals, as `compatible` tells.
    pub fn new(root: C, output: O, compatible: bool) -> (r: Option<Self>)
        ensures
            r is Some <==> compatible,
            r matches Some(c) ==> c.is_fresh(None, output),
    {
        if compatible {
            Some(Self::new_internal(root, None, output))
        } else {
            None
        }
    }

    /// Builds a console whatever the terminal, with a size to use where the
    /// terminal's cannot be read.
    pub fn forced_new(root: C, default_size: Dimensions, output: O) -> (r: Self)
        ensures
            r.is_fresh(Some(default_size), output),
    {
        Self::new_internal(root, Some(default_size), output)
    }

    pub(crate) fn new_internal(root: C, default_size: Option<Dimensions>, output: O) -> (r: Self)
        ensures
            r.is_fresh(default_size, output),
    {
        SuperConsole {
            root: Canvas::new(root),
            to_emit: Vec::new(),
            default_size,
            output: Recorded::new(output),
        }
    }

    /// Queues lines to be emitted by the next render. Draws and sends nothing.
    pub fn emit(&mut self, lines: Vec<Line>)
        ensures
            final(self).pending() == old(self).pending() + lines@,
            final(self).sent() == old(self).sent(),
            final(self).gates() == old(self).gates(),
            final(self).canvas_height() == old(self).canvas_height(),
            final(self).fallback() == old(self).fallback(),
    {
        let mut lines = lines;
        self.to_emit.append(&mut lines);
    }

    /// The number of lines queued and not yet emitted.
    pub fn pending_len(&self) -> (r: usize)
        ensures
            r == self.pending().len(),
    {
        self.to_emit.len()
    }

    /// The terminal's size, or the fallback where it cannot be read.
    fn size(&self) -> (r: Result<Dimensions, anyhow::Error>)
        ensures
            self.fallback() is Some ==> r is Ok,
            r is Err ==> self.fallback() is None,
    {
        choose_size(terminal_size(), self.default_size)
    }

    /// Takes from the queue the lines that a render in `mode` at `size`
    /// emits above `frame`, and appends to `buffer` those lines, the frame
    /// and an erase of what lies below.
    pub fn compose_pass(&mut self, buffer: &mut Vec<u8>, frame: Vec<Line>, mode: DrawMode, size: Dimensions) -> (r: Result<(), anyhow::Error>)
        ensures
            r is Ok,
            final(self).pending() == old(self).pending().skip(
                drain_count(old(self).pending(), mode, size.y as nat, frame@.len()) as int,
            ),
            final(buffer)@ == old(buffer)@ + lines_bytes(
                old(self).pending().take(drain_count(old(self).pending(), mode, size.y as nat, frame@.len()) as int),
            ) + lines_bytes(frame@) + erase_bytes(Erase::ScreenBelow),
            final(self).sent() == old(self).sent(),
            final(self).gates() == old(self).gates(),
            final(self).canvas_height() == old(self).canvas_height(),
            final(self).fallback() == old(self).fallback(),
    {
        let big = is_big(&self.to_emit);
        let limit = emit_limit(mode, big, size.y, frame.len());
        render_lines(&mut self.to_emit, buffer, limit)?;
        assert(taken(old(self).pending().len(), limit) == drain_count(old(self).pending(), mode, size.y as nat, frame@.len()));
        let mut frame = frame;
        let ghost f = frame@;
        render_lines(&mut frame, buffer, None)?;
        assert(f.take(f.len() as int) =~= f);
        queue_erase(buffer, Erase::ScreenBelow)?;
        Ok(())
    }

    /// One render at `size`: back to the top of the canvas, draw it anew,
    /// then emit what the limit allows above it. Once the root component has
    /// drawn a frame no taller than `MAX_CANVAS_HEIGHT`, the pass succeeds;
    /// before that no queued line is touched.
    pub fn render_general(
        &mut self,
        buffer: &mut Vec<u8>,
        state: &C::State,
        mode: DrawMode,
        size: Dimensions,
    ) -> (r: Result<(), anyhow::Error>)
        ensures
            keeps_order(old(self).pending(), final(self).pending()),
            old(buffer)@.is_prefix_of(final(buffer)@),
            r is Err ==> final(self).pending() == old(self).pending()
                && final(self).canvas_height() == old(self).canvas_height(),
            r is Ok ==> exists|frame: Seq<Line>| frame.len() == final(self).canvas_height()
                && #[trigger] is_pass(
                    old(self).pending(),
                    final(self).pending(),
                    mode,
                    size.y as nat,
                    old(self).canvas_height(),
                    frame,
                    final(buffer)@.skip(old(buffer)@.len() as int),
                ),
            final(self).sent() == old(self).sent(),
            final(self).gates() == old(self).gates(),
            final(self).fallback() == old(self).fallback(),
    {
        let ghost pre = *self;
        proof {
            assert(self.pending().skip(0) =~= self.pending());
        }
        self.root.move_up(buffer)?;
        assert(old(buffer)@.is_prefix_of(buffer@));
        let frame = self.root.draw(state, size, mode)?;
        let ghost f = frame@;
        let r = self.compose_pass(buffer, frame, mode, size);
        proof {
            let k = drain_count(pre.pending(), mode, size.y as nat, f.len());
            assert(self.pending() == pre.pending().skip(k as int));
            assert(final(buffer)@.skip(old(buffer)@.len() as int) =~= pass_bytes(pre.canvas_height(), pre.pending().take(k as int), f));
            assert(is_pass(pre.pending(), self.pending(), mode, size.y as nat, pre.canvas_height(), f, final(buffer)@.skip(old(buffer)@.len() as int)));
            assert(old(buffer)@.is_prefix_of(final(buffer)@));
        }
        r
    }

    /// One render in `mode` at the terminal's size, handed to the output
    /// whether or not it may render. A failure to read the size or to draw
    /// comes before any buffer is composed and leaves the queue as it was;
    /// otherwise the pass's buffer is handed over, and the result is the
    /// output's.
    pub fn render_with_mode(&mut self, state: &C::State, mode: DrawMode) -> (r: Result<(), anyhow::Error>)
        ensures
            final(self).sent() == old(self).sent() ==> r is Err
                && Self::untouched(old(self).pending(), *old(self), *final(self)),
            final(self).sent() != old(self).sent() ==> Self::made_pass(old(self).pending(), *old(self), *final(self), mode),
            r is Ok ==> Self::made_pass(old(self).pending(), *old(self), *final(self), mode),
            final(self).sent() != old(self).sent() && mode == DrawMode::Final ==> final(self).pending().len() == 0,
            final(self).sent() != old(self).sent() ==> final(self).pending().len() + (if old(self).pending().len() < MINIMUM_EMIT {
                old(self).pending().len()
            } else {
                MINIMUM_EMIT as nat
            }) <= old(self).pending().len(),
            final(self).gates() == old(self).gates(),
            final(self).fallback() == old(self).fallback(),
    {
        let size = self.size()?;
        let mut buffer: Vec<u8> = Vec::new();
        self.render_general(&mut buffer, state, mode, size)?;
        assert(buffer@.skip(0) =~= buffer@);
        let ghost frame = choose|frame: Seq<Line>| frame.len() == self.canvas_height()
            && #[trigger] is_pass(old(self).pending(), self.pending(), mode, size.y as nat,
                old(self).canvas_height(), frame, buffer@);
        proof {
            let k = drain_count(old(self).pending(), mode, size.y as nat, frame.len());
            assert(self.pending().len() == old(self).pending().len() - k);
        }
        let r = self.output.output(buffer);
        assert(self.sent().drop_last() =~= old(self).sent());
        assert(self.sent().len() == old(self).sent().len() + 1);
        assert(is_pass(old(self).pending(), self.pending(), mode, size.y as nat,
            old(self).canvas_height(), frame, self.sent().last()));
        r
    }

    /// Renders at a tick: unless the output refuses, redraws the canvas and
    /// emits above it the queued lines that the budget allows. Repeats only
    /// while a pass emitted nothing and lines remain, which a normal pass,
    /// always emitting at least one queued line, never leaves.
    #[verifier::loop_isolation(false)]
    pub fn render(&mut self, state: &C::State) -> (r: Result<(), anyhow::Error>)
        ensures
            Self::render_outcome(old(self).pending(), *old(self), *final(self), r is Ok),
    {
        let mut anything_emitted = true;
        let mut has_rendered = false;
        while !has_rendered || (anything_emitted && self.to_emit.len() > 0)
            invariant
                !has_rendered ==> anything_emitted && *self == *old(self),
                has_rendered ==> {
                    &&& self.gates() == old(self).gates().push(true)
                    &&& self.fallback() == old(self).fallback()
                    &&& Self::made_pass(old(self).pending(), *old(self), *self, DrawMode::Normal)
                    &&& !(anything_emitted && self.pending().len() > 0)
                },
            decreases
                if has_rendered { 0int } else { 1int },
        {
            let go = self.output.should_render();
            assert(self.gates().drop_last() =~= old(self).gates());
            if !go {
                break;
            }
            let last_len = self.to_emit.len();
            let ghost mid = *self;
            assert(mid.sent() == old(self).sent() && mid.canvas_height() == old(self).canvas_height());
            let r = self.render_with_mode(state, DrawMode::Normal);
            if r.is_err() {
                return r;
            }
            anything_emitted = last_len == self.to_emit.len();
            has_rendered = true;
        }
        assert(self.gates().drop_last() =~= old(self).gates());
        Ok(())
    }

    /// Queues the lines, then renders.
    pub fn emit_now(&mut self, lines: Vec<Line>, state: &C::State) -> (r: Result<(), anyhow::Error>)
        ensures
            Self::render_outcome(old(self).pending() + lines@, *old(self), *final(self), r is Ok),
    {
        self.emit(lines);
        self.render(state)
    }

    /// The last render, in `Final` mode, which emits every queued line
    /// whether or not the output may render; then, if it succeeded, the
    /// output is torn down. The console is consumed: on success, the state
    /// it reached before the teardown is one Final pass from the start, with
    /// the output never asked whether it may render and the queue empty.
    pub fn finalize(self, state: &C::State) -> (r: Result<(), anyhow::Error>)
        ensures
            r is Ok ==> exists|post: Self| #[trigger] Self::made_pass(self.pending(), self, post, DrawMode::Final)
                && post.pending().len() == 0
                && post.gates() == self.gates()
                && post.fallback() == self.fallback(),
    {
        let mut console = self;
        console.render_with_mode(state, DrawMode::Final)?;
        let ghost post = console;
        assert(Self::made_pass(self.pending(), self, post, DrawMode::Final));
        console.output.finalize()
    }

    /// Erases the canvas, whether or not the output may render: the erase is
    /// always handed to the output, and the result is the output's. The
    /// queue is left as it is.
    pub fn clear(&mut self) -> (r: Result<(), anyhow::Error>)
        ensures
            final(self).pending() == old(self).pending(),
            final(self).gates() == old(self).gates(),
            final(self).fallback() == old(self).fallback(),
            final(self).sent() == old(self).sent().push(
                move_up_bytes(old(self).canvas_height()) + erase_bytes(Erase::ScreenBelow),
            ),
            final(self).canvas_height() == 0,
    {
        let mut buffer: Vec<u8> = Vec::new();
        self.root.clear(&mut buffer)?;
        assert(buffer@ =~= move_up_bytes(old(self).canvas_height()) + erase_bytes(Erase::ScreenBelow));
        self.output.output(buffer)
    }
}

} // verus!
