use vstd::prelude::*;

use crate::field::{
    cleared, collision, fits, full_count, lemma_fit_anchor, stamped, Collision, Grid, HEIGHT,
};
use crate::input::Input;
use crate::phase::Finished;
use crate::level::{gravity_period, level_after};
use crate::state::{near, GameState, StateModel};
use crate::tetromino::{lemma_offsets_in_box, next_rotation, Kind, Tetromino};

verus! {

pub open spec fn left(t: Tetromino) -> Tetromino {
    Tetromino { x: (t.x - 1) as i32, ..t }
}

pub open spec fn right(t: Tetromino) -> Tetromino {
    Tetromino { x: (t.x + 1) as i32, ..t }
}

pub open spec fn down(t: Tetromino) -> Tetromino {
    Tetromino { y: (t.y + 1) as i32, ..t }
}

pub open spec fn turned(t: Tetromino) -> Tetromino {
    Tetromino { rotation: next_rotation(t.kind, t.rotation), ..t }
}

/// The moved piece where it fits, else the piece as it was.
pub open spec fn kick(g: Grid, moved: Tetromino, unmoved: Tetromino) -> Tetromino {
    if fits(g, moved) {
        moved
    } else {
        unmoved
    }
}

/// The piece and the field after some moves, and whether the piece was solidified.
pub struct Board {
    pub current: Tetromino,
    pub field: Grid,
    pub solid: bool,
}

/// One forced downward step: the piece moves down where it fits there, else it is
/// written into the field where it stands.
pub open spec fn forced_step(g: Grid, t: Tetromino) -> Board {
    if fits(g, down(t)) {
        Board { current: down(t), field: g, solid: false }
    } else {
        Board { current: t, field: stamped(g, t), solid: true }
    }
}

/// Where the piece ends when it moves down until one more row would not fit, within
/// `fuel` rows.
pub open spec fn fall(g: Grid, t: Tetromino, fuel: nat) -> Tetromino
    decreases fuel,
{
    if fuel == 0 || !fits(g, down(t)) {
        t
    } else {
        fall(g, down(t), (fuel - 1) as nat)
    }
}

/// Where the piece comes to rest when dropped.
pub open spec fn landing(g: Grid, t: Tetromino) -> Tetromino {
    fall(g, t, HEIGHT as nat)
}

/// The row of the piece's first cell.
pub open spec fn first_row(t: Tetromino) -> int {
    t.cell(0).1
}

/// The ghost piece: where the piece would land, or none when it is about to settle.
pub open spec fn preview_of(g: Grid, t: Tetromino) -> Option<Tetromino> {
    if fits(g, down(t)) {
        Some(landing(g, down(t)))
    } else {
        None
    }
}

/// What one command does to the piece and the field.
pub open spec fn input_effect(g: Grid, t: Tetromino, input: Option<Input>) -> Board {
    match input {
        Some(Input::Left) => Board { current: kick(g, left(t), t), field: g, solid: false },
        Some(Input::Right) => Board { current: kick(g, right(t), t), field: g, solid: false },
        Some(Input::Rotate) => Board { current: kick(g, turned(t), t), field: g, solid: false },
        Some(Input::Down) => forced_step(g, t),
        Some(Input::Drop) => Board { current: landing(g, t), field: stamped(g, landing(g, t)), solid: true },
        _ => Board { current: t, field: g, solid: false },
    }
}

/// The command honored in a tick: the first one queued.
pub open spec fn first_input(inputs: Seq<Input>) -> Option<Input> {
    if inputs.len() > 0 {
        Some(inputs[0])
    } else {
        None
    }
}

/// The piece and the field after the command and gravity of one tick.
pub open spec fn moved_board(m: StateModel, inputs: Seq<Input>) -> Board {
    let b = input_effect(m.field, m.current, first_input(inputs));
    if m.ticks + 1 > gravity_period(m.level.current as int) && !b.solid {
        forced_step(b.field, b.current)
    } else {
        b
    }
}

/// The state after one tick of a game whose current piece fits; `spawn` is the shape
/// of the piece that becomes next when one settles.
pub open spec fn tick(m: StateModel, inputs: Seq<Input>, spawn: Kind) -> StateModel {
    let b = moved_board(m, inputs);
    let ticks: u32 = if m.ticks + 1 > gravity_period(m.level.current as int) {
        0
    } else {
        (m.ticks + 1) as u32
    };
    if b.solid {
        StateModel {
            level: level_after(m.level, full_count(b.field)),
            current: m.next,
            next: Tetromino::new_spec(spawn),
            preview: preview_of(cleared(b.field), m.next),
            ticks,
            field: cleared(b.field),
        }
    } else {
        StateModel {
            level: m.level,
            current: b.current,
            next: m.next,
            preview: preview_of(b.field, b.current),
            ticks,
            field: b.field,
        }
    }
}

/// A fit piece moved down one row keeps its shape and column, and is one row lower.
pub proof fn lemma_down(g: Grid, t: Tetromino)
    requires
        fits(g, t),
    ensures
        down(t).y == t.y + 1,
        first_row(down(t)) == first_row(t) + 1,
        0 <= first_row(t) < HEIGHT,
{
    lemma_fit_anchor(t);
    lemma_offsets_in_box(t.kind, t.rotation as int, 0);
}

/// Falling from a fit position ends on a fit position with no room below, in the same
/// column and rotation, fewer than `HEIGHT` rows lower; every row on the way fits.
pub proof fn lemma_fall(g: Grid, t: Tetromino, fuel: nat)
    requires
        fits(g, t),
        fuel + first_row(t) >= HEIGHT,
    ensures
        fits(g, fall(g, t, fuel)),
        !fits(g, down(fall(g, t, fuel))),
        fall(g, t, fuel) == (Tetromino { y: fall(g, t, fuel).y, ..t }),
        t.y <= fall(g, t, fuel).y,
        first_row(t) + (fall(g, t, fuel).y - t.y) < HEIGHT,
    decreases fuel,
{
    lemma_down(g, t);
    if fits(g, down(t)) {
        lemma_down(g, down(t));
        lemma_fall(g, down(t), (fuel - 1) as nat);
    }
}

/// Dropping a piece that fits ends within `HEIGHT` forced steps: after fewer than
/// `HEIGHT` moves down it reaches a position with no room below, where the next
/// forced step solidifies it.
pub proof fn lemma_drop_terminates(g: Grid, t: Tetromino)
    requires
        fits(g, t),
    ensures
        fits(g, landing(g, t)),
        !fits(g, down(landing(g, t))),
        landing(g, t) == (Tetromino { y: landing(g, t).y, ..t }),
        0 <= landing(g, t).y - t.y,
        landing(g, t).y - t.y + 1 <= HEIGHT,
{
    lemma_down(g, t);
    lemma_fall(g, t, HEIGHT as nat);
}

/// A game in play.
#[derive(Debug, Hash)]
pub struct Running {
    pub state: GameState,
}

impl Running {
    pub open spec fn board(&self) -> Board {
        Board { current: self.state.current, field: self.state.field@, solid: false }
    }

    /// Reports whether the piece stands off the grid or on an occupied square.
    pub fn check_collision(&self, t: &Tetromino) -> (r: Option<Collision>)
        requires
            self.state.wf(),
        ensures
            r == collision(self.state.field@, *t),
    {
        self.state.field.check_collision(t)
    }

    /// Puts the unmoved piece back where the moved one does not fit.
    fn kickback(&mut self, unmoved: Tetromino)
        requires
            old(self).state.wf(),
            near(unmoved),
        ensures
            final(self).state.wf(),
            final(self).state.model() == (StateModel {
                current: kick(old(self).state.field@, old(self).state.current, unmoved),
                ..old(self).state.model()
            }),
    {
        if self.check_collision(&self.state.current).is_some() {
            self.state.current = unmoved;
        }
    }

    /// Moves the piece one column left unless it would not fit there.
    pub fn move_left(&mut self)
        requires
            old(self).state.wf(),
            fits(old(self).state.field@, old(self).state.current),
        ensures
            final(self).state.wf(),
            final(self).state.model() == (StateModel {
                current: kick(old(self).state.field@, left(old(self).state.current), old(self).state.current),
                ..old(self).state.model()
            }),
            !fits(old(self).state.field@, left(old(self).state.current)) ==> final(self).state.current
                == old(self).state.current,
    {
        proof {
            lemma_fit_anchor(self.state.current);
        }
        let unmoved = self.state.current;
        self.state.current.move_left();
        self.kickback(unmoved);
    }

    /// Moves the piece one column right unless it would not fit there.
    pub fn move_right(&mut self)
        requires
            old(self).state.wf(),
            fits(old(self).state.field@, old(self).state.current),
        ensures
            final(self).state.wf(),
            final(self).state.model() == (StateModel {
                current: kick(old(self).state.field@, right(old(self).state.current), old(self).state.current),
                ..old(self).state.model()
            }),
            !fits(old(self).state.field@, right(old(self).state.current)) ==> final(self).state.current
                == old(self).state.current,
    {
        proof {
            lemma_fit_anchor(self.state.current);
        }
        let unmoved = self.state.current;
        self.state.current.move_right();
        self.kickback(unmoved);
    }

    /// Turns the piece to its next rotation state unless it would not fit so.
    pub fn rotate(&mut self)
        requires
            old(self).state.wf(),
            fits(old(self).state.field@, old(self).state.current),
        ensures
            final(self).state.wf(),
            final(self).state.model() == (StateModel {
                current: kick(old(self).state.field@, turned(old(self).state.current), old(self).state.current),
                ..old(self).state.model()
            }),
            !fits(old(self).state.field@, turned(old(self).state.current)) ==> final(self).state.current
                == old(self).state.current,
    {
        let unmoved = self.state.current;
        self.state.current.rotate();
        self.kickback(unmoved);
    }

    /// Writes the piece into the field where it stands if one row lower it would not
    /// fit. Returns whether it did.
    pub fn try_solidify(&mut self) -> (r: bool)
        requires
            old(self).state.wf(),
            fits(old(self).state.field@, old(self).state.current),
        ensures
            final(self).state.wf(),
            r == !fits(old(self).state.field@, down(old(self).state.current)),
            final(self).state.model() == (StateModel {
                field: if r { stamped(old(self).state.field@, old(self).state.current) } else { old(self).state.field@ },
                ..old(self).state.model()
            }),
    {
        proof {
            lemma_down(self.state.field@, self.state.current);
        }
        let mut copy = self.state.current;
        copy.move_down();
        if self.check_collision(&copy).is_some() {
            let current = self.state.current;
            self.state.field.solidify(&current);
            return true;
        }
        false
    }

    /// One forced downward step: moves the piece down where it fits there, else
    /// writes it into the field where it stands. Returns whether it was written.
    pub fn try_move_down(&mut self) -> (r: bool)
        requires
            old(self).state.wf(),
            fits(old(self).state.field@, old(self).state.current),
        ensures
            final(self).state.wf(),
            r == forced_step(old(self).state.field@, old(self).state.current).solid,
            final(self).state.model() == (StateModel {
                current: forced_step(old(self).state.field@, old(self).state.current).current,
                field: forced_step(old(self).state.field@, old(self).state.current).field,
                ..old(self).state.model()
            }),
    {
        proof {
            lemma_down(self.state.field@, self.state.current);
        }
        if self.try_solidify() {
            true
        } else {
            proof {
                lemma_fit_anchor(down(self.state.current));
            }
            self.state.current.move_down();
            false
        }
    }

    /// Forces the piece down until it is written into the field.
    pub fn drop(&mut self) -> (r: bool)
        requires
            old(self).state.wf(),
            fits(old(self).state.field@, old(self).state.current),
        ensures
            r,
            final(self).state.wf(),
            final(self).state.model() == (StateModel {
                current: landing(old(self).state.field@, old(self).state.current),
                field: stamped(old(self).state.field@, landing(old(self).state.field@, old(self).state.current)),
                ..old(self).state.model()
            }),
    {
        let ghost g = self.state.field@;
        let ghost start = self.state.current;
        let ghost m = self.state.model();
        proof {
            lemma_down(g, start);
        }
        let mut solid = false;
        while !solid
            invariant
                self.state.wf(),
                g == self.state.field@ || solid,
                0 <= first_row(start),
                solid ==> self.state.model() == (StateModel {
                    current: landing(g, start),
                    field: stamped(g, landing(g, start)),
                    ..m
                }),
                !solid ==> {
                    &&& fits(g, self.state.current)
                    &&& self.state.model() == (StateModel { current: self.state.current, ..m })
                    &&& self.state.current == (Tetromino { y: self.state.current.y, ..start })
                    &&& start.y <= self.state.current.y
                    &&& first_row(start) + (self.state.current.y - start.y) < HEIGHT
                    &&& fall(g, self.state.current, (HEIGHT - (self.state.current.y - start.y)) as nat)
                        == landing(g, start)
                },
            decreases
                if solid {
                    0
                } else {
                    HEIGHT - self.state.current.y
                },
        {
            let ghost before = self.state.current;
            proof {
                lemma_down(g, before);
            }
            solid = self.try_move_down();
            if solid {
                assert(fall(g, before, (HEIGHT - (before.y - start.y)) as nat) == before);
            } else {
                proof {
                    lemma_down(g, self.state.current);
                }
            }
        }
        true
    }

    /// The ghost piece of the current piece on the current field.
    pub fn determine_preview(&self) -> (r: Option<Tetromino>)
        requires
            self.state.wf(),
        ensures
            r == preview_of(self.state.field@, self.state.current),
            r matches Some(p) ==> near(p),
    {
        let ghost g = self.state.field@;
        let mut preview = self.state.current;
        preview.move_down();
        if self.check_collision(&preview).is_some() {
            return None;
        }
        let ghost start = preview;
        proof {
            lemma_down(g, start);
        }
        loop
            invariant
                self.state.wf(),
                g == self.state.field@,
                start == down(self.state.current),
                fits(g, start),
                fits(g, preview),
                preview == (Tetromino { y: preview.y, ..start }),
                start.y <= preview.y,
                0 <= first_row(start),
                first_row(start) + (preview.y - start.y) < HEIGHT,
                fall(g, preview, (HEIGHT - (preview.y - start.y)) as nat) == landing(g, start),
            decreases HEIGHT - preview.y,
        {
            proof {
                lemma_down(g, preview);
                lemma_fit_anchor(preview);
            }
            let mut lower = preview;
            lower.move_down();
            if self.check_collision(&lower).is_some() {
                assert(lower == down(preview));
                assert(fall(g, preview, (HEIGHT - (preview.y - start.y)) as nat) == preview);
                return Some(preview);
            }
            proof {
                lemma_down(g, lower);
            }
            preview = lower;
        }
    }

    /// Counts a tick; when the gravity period has passed, restarts the count and, unless
    /// the piece already settled this tick, forces a step down. Returns whether the
    /// piece settled this tick.
    fn advance_game(&mut self, already_solidified: bool) -> (r: bool)
        requires
            old(self).state.wf(),
            !already_solidified ==> fits(old(self).state.field@, old(self).state.current),
        ensures
            final(self).state.wf(),
            ({
                let due = old(self).state.ticks + 1 > gravity_period(old(self).state.level.current as int);
                let b = if due && !already_solidified {
                    forced_step(old(self).state.field@, old(self).state.current)
                } else {
                    Board { current: old(self).state.current, field: old(self).state.field@, solid: already_solidified }
                };
                &&& r == b.solid
                &&& final(self).state.model() == (StateModel {
                    current: b.current,
                    field: b.field,
                    ticks: if due { 0 } else { (old(self).state.ticks + 1) as u32 },
                    ..old(self).state.model()
                })
            }),
    {
        self.state.ticks = self.state.ticks + 1;
        if self.state.ticks > self.state.level.required_ticks() {
            self.state.ticks = 0;
            already_solidified || self.try_move_down()
        } else {
            already_solidified
        }
    }

    /// Applies one command. Returns whether it settled the piece.
    fn handle_input(&mut self, input: &Input) -> (r: bool)
        requires
            old(self).state.wf(),
            fits(old(self).state.field@, old(self).state.current),
        ensures
            final(self).state.wf(),
            ({
                let b = input_effect(old(self).state.field@, old(self).state.current, Some(*input));
                &&& r == b.solid
                &&& !r ==> fits(final(self).state.field@, final(self).state.current)
                &&& final(self).state.model() == (StateModel {
                    current: b.current,
                    field: b.field,
                    ..old(self).state.model()
                })
            }),
    {
        match input {
            Input::Right => {
                self.move_right();
                false
            },
            Input::Left => {
                self.move_left();
                false
            },
            Input::Rotate => {
                self.rotate();
                false
            },
            Input::Down => self.try_move_down(),
            Input::Drop => self.drop(),
            _ => false,
        }
    }

    /// Applies the first queued command and ignores the rest.
    fn handle_inputs(&mut self, inputs: &[Input]) -> (r: bool)
        requires
            old(self).state.wf(),
            fits(old(self).state.field@, old(self).state.current),
        ensures
            final(self).state.wf(),
            ({
                let b = input_effect(old(self).state.field@, old(self).state.current, first_input(inputs@));
                &&& r == b.solid
                &&& !r ==> fits(final(self).state.field@, final(self).state.current)
                &&& final(self).state.model() == (StateModel {
                    current: b.current,
                    field: b.field,
                    ..old(self).state.model()
                })
            }),
    {
        if inputs.len() > 0 {
            self.handle_input(&inputs[0])
        } else {
            false
        }
    }

    /// Whether the current piece cannot stand where it is, which ends the game.
    pub fn is_finished(&self) -> (r: bool)
        requires
            self.state.wf(),
        ensures
            r == !fits(self.state.field@, self.state.current),
    {
        self.check_collision(&self.state.current).is_some()
    }

    /// Runs one tick. When the current piece does not fit, the game is over: the state
    /// is left as it is and returned, frozen, for display. Otherwise the first command
    /// is applied and gravity counted; a piece that settled has its full rows cleared and
    /// scored, the next piece becomes current and a piece of shape `spawn` becomes next;
    /// last the ghost piece is recomputed.
    pub fn handle(&mut self, inputs: &[Input], spawn: Kind) -> (r: Option<Box<Finished>>)
        requires
            old(self).state.wf(),
        ensures
            final(self).state.wf(),
            r is Some <==> !fits(old(self).state.field@, old(self).state.current),
            r matches Some(f) ==> f.state.model() == old(self).state.model()
                && final(self).state.model() == old(self).state.model(),
            r is None ==> final(self).state.model() == tick(old(self).state.model(), inputs@, spawn),
            r is None ==> preview_consistent(final(self).state.model()),
    {
        if self.is_finished() {
            return Some(Box::new(Finished { state: self.state.clone() }));
        }
        let ghost m = self.state.model();
        let solidified = self.handle_inputs(inputs);
        let solidified = self.advance_game(solidified);
        if solidified {
            let count = self.state.field.clear_lines();
            self.state.level.up(count as u32);
            self.state.current = self.state.next;
            self.state.next = Tetromino::new(spawn);
        }
        self.state.preview = self.determine_preview();
        proof {
            lemma_preview_consistent(self.state.field@, self.state.current);
        }
        None
    }
}

/// Whenever a ghost piece is shown it has the current piece's shape, column and
/// rotation, and one more row down it would not fit.
pub open spec fn preview_consistent(m: StateModel) -> bool {
    m.preview matches Some(p) ==> {
        &&& p.kind == m.current.kind
        &&& p.x == m.current.x
        &&& p.rotation == m.current.rotation
        &&& fits(m.field, p)
        &&& !fits(m.field, down(p))
    }
}

/// The ghost piece of any piece on any grid keeps the piece's shape, column and
/// rotation, fits, and has no room below.
pub proof fn lemma_preview_consistent(g: Grid, t: Tetromino)
    ensures
        preview_of(g, t) matches Some(p) ==> {
            &&& p.kind == t.kind
            &&& p.x == t.x
            &&& p.rotation == t.rotation
            &&& fits(g, p)
            &&& !fits(g, down(p))
        },
{
    if fits(g, down(t)) {
        lemma_drop_terminates(g, down(t));
    }
}

} // verus!
