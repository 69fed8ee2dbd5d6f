use vstd::prelude::*;

verus! {

/// The size of the terminal in character cells: `x` columns by `y` rows.
#[derive(Clone, Copy, Debug, PartialEq, Eq, Structural)]
pub struct Dimensions {
    pub x: usize,
    pub y: usize,
}

impl Dimensions {
    pub fn new(x: usize, y: usize) -> (r: Dimensions)
        ensures
            r.x == x,
            r.y == y,
    {
        Dimensions { x, y }
    }
}

/// How the canvas is drawn: `Normal` on every tick, `Final` once, when the
/// console is torn down and the components settle.
#[derive(Clone, Copy, Debug, PartialEq, Eq, Structural)]
pub enum DrawMode {
    Normal,
    Final,
}

/// Relies on crossterm's `terminal::size`, which reads the live terminal's
/// columns and rows; it fails where no terminal answers. Nothing is promised
/// of the values: they are whatever the terminal reports.
#[verifier::external_body]
pub(crate) fn terminal_size() -> (r: Result<Dimensions, anyhow::Error>) {
    crossterm::terminal::size()
        .map(|(x, y)| Dimensions { x: x as usize, y: y as usize })
        .map_err(anyhow::Error::from)
}

} // verus!
