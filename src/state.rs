use vstd::prelude::*;

use crate::field::{empty_row, Field, Grid, HEIGHT, WIDTH};
use crate::level::{Level, MAX_REQUIRED_TICKS};
use crate::tetromino::{Kind, Tetromino};

verus! {

/// The game state as plain values.
pub struct StateModel {
    pub level: Level,
    pub current: Tetromino,
    pub next: Tetromino,
    pub preview: Option<Tetromino>,
    pub ticks: u32,
    pub field: Grid,
}

/// The anchor lies near enough to the grid that moving by one cannot overflow.
pub open spec fn near(t: Tetromino) -> bool {
    &&& t.wf()
    &&& -4 <= t.x <= WIDTH
    &&& -4 <= t.y <= HEIGHT
}

/// A fresh game: level `level`, nothing cleared or scored, an empty field, pieces of
/// the two shapes at the spawn position, no ghost piece.
pub open spec fn fresh(level: u32, current: Kind, next: Kind) -> StateModel {
    StateModel {
        level: Level::new_spec(level),
        current: Tetromino::new_spec(current),
        next: Tetromino::new_spec(next),
        preview: None,
        ticks: 0,
        field: Seq::new(HEIGHT as nat, |i: int| empty_row()),
    }
}

/// Everything a running game holds.
#[derive(Debug, Hash)]
pub struct GameState {
    pub level: Level,
    pub current: Tetromino,
    pub next: Tetromino,
    pub preview: Option<Tetromino>,
    pub ticks: u32,
    pub field: Field,
}

impl GameState {
    pub open spec fn model(&self) -> StateModel {
        StateModel {
            level: self.level,
            current: self.current,
            next: self.next,
            preview: self.preview,
            ticks: self.ticks,
            field: self.field@,
        }
    }

    pub open spec fn wf(&self) -> bool {
        &&& self.field.wf()
        &&& near(self.current)
        &&& near(self.next)
        &&& (self.preview matches Some(p) ==> near(p))
        &&& self.ticks <= MAX_REQUIRED_TICKS
    }

    /// A fresh game at level `level` on an empty field, with pieces of the two given
    /// shapes as current and next.
    pub fn new(level: u32, current: Kind, next: Kind) -> (r: GameState)
        ensures
            r.wf(),
            r.model() == fresh(level, current, next),
    {
        GameState {
            level: Level::new(level),
            current: Tetromino::new(current),
            next: Tetromino::new(next),
            preview: None,
            ticks: 0,
            field: Field::new(),
        }
    }
}

impl Clone for GameState {
    fn clone(&self) -> (r: GameState)
        ensures
            r.model() == self.model(),
    {
        GameState {
            level: self.level,
            current: self.current,
            next: self.next,
            preview: self.preview,
            ticks: self.ticks,
            field: self.field.clone(),
        }
    }
}

} // verus!
