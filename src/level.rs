use vstd::prelude::*;

verus! {

/// Highest level a game can be started at.
pub const MAX_START_LEVEL: u32 = 9;

/// Cleared lines needed to advance one level.
pub const LINES_PER_LEVEL: u32 = 10;

/// The longest gravity period, the one of level 0.
pub const MAX_REQUIRED_TICKS: u32 = 48;

/// Ticks per forced downward step at a level: the speed rises level by level,
/// up to one step per tick.
pub open spec fn gravity_period(level: int) -> int {
    if level <= 0 {
        48
    } else if level == 1 {
        43
    } else if level == 2 {
        38
    } else if level == 3 {
        33
    } else if level == 4 {
        28
    } else if level == 5 {
        23
    } else if level == 6 {
        18
    } else if level == 7 {
        13
    } else if level == 8 {
        8
    } else if level == 9 {
        6
    } else if level <= 12 {
        5
    } else if level <= 15 {
        4
    } else if level <= 18 {
        3
    } else if level <= 28 {
        2
    } else {
        1
    }
}

/// Points for clearing `lines` rows at once, before the level factor.
pub open spec fn line_points(lines: int) -> int {
    if lines <= 0 {
        0
    } else if lines == 1 {
        40
    } else if lines == 2 {
        100
    } else if lines == 3 {
        300
    } else {
        1200
    }
}

pub open spec fn saturate(v: int) -> u32 {
    if v > u32::MAX {
        u32::MAX
    } else {
        v as u32
    }
}

/// The gravity period never grows with the level, and stays between one tick and
/// the period of level 0.
pub proof fn lemma_gravity_period_monotone(a: int, b: int)
    requires
        a <= b,
    ensures
        gravity_period(b) <= gravity_period(a),
        1 <= gravity_period(b) <= MAX_REQUIRED_TICKS,
{
}

/// Clearing several lines at once earns more than clearing them one by one at the
/// same level.
pub proof fn lemma_line_points_superadditive(a: int, b: int)
    requires
        a >= 1,
        b >= 1,
        a + b <= 4,
    ensures
        line_points(a + b) > line_points(a) + line_points(b),
{
}

/// Level, cleared-line count and score of one game.
#[derive(PartialEq, Eq, Structural, Clone, Copy, Debug, Hash)]
pub struct Level {
    pub current: u32,
    pub cleared_lines: u32,
    pub score: u32,
}

/// The level record after `lines` more rows are cleared in one event.
pub open spec fn level_after(l: Level, lines: int) -> Level {
    let total = saturate(l.cleared_lines + lines);
    Level {
        current: saturate(
            l.current + (total / LINES_PER_LEVEL) as int - (l.cleared_lines / LINES_PER_LEVEL) as int,
        ),
        cleared_lines: total,
        score: saturate(l.score + line_points(lines) * (l.current + 1)),
    }
}

impl Level {
    pub open spec fn new_spec(start: u32) -> Level {
        Level { current: start, cleared_lines: 0, score: 0 }
    }

    /// A fresh record starting at level `start`.
    pub fn new(start: u32) -> (r: Level)
        ensures
            r == Level::new_spec(start),
    {
        Level { current: start, cleared_lines: 0, score: 0 }
    }

    /// Ticks per forced downward step at the current level.
    pub fn required_ticks(&self) -> (r: u32)
        ensures
            r as int == gravity_period(self.current as int),
            1 <= r <= MAX_REQUIRED_TICKS,
    {
        let l = self.current;
        if l == 0 {
            48
        } else if l == 1 {
            43
        } else if l == 2 {
            38
        } else if l == 3 {
            33
        } else if l == 4 {
            28
        } else if l == 5 {
            23
        } else if l == 6 {
            18
        } else if l == 7 {
            13
        } else if l == 8 {
            8
        } else if l == 9 {
            6
        } else if l <= 12 {
            5
        } else if l <= 15 {
            4
        } else if l <= 18 {
            3
        } else if l <= 28 {
            2
        } else {
            1
        }
    }

    /// Records `lines` rows cleared in one event: the line count grows, the level
    /// advances for each threshold of `LINES_PER_LEVEL` crossed, and the score grows by
    /// the points of the event times one more than the level it happened at. Counts
    /// stop at `u32::MAX`.
    pub fn up(&mut self, lines: u32)
        ensures
            *final(self) == level_after(*old(self), lines as int),
            final(self).current >= old(self).current,
            final(self).cleared_lines >= old(self).cleared_lines,
            final(self).score >= old(self).score,
    {
        let before = self.cleared_lines / LINES_PER_LEVEL;
        let total = self.cleared_lines.saturating_add(lines);
        let after = total / LINES_PER_LEVEL;
        let points: u32 = if lines == 0 {
            0
        } else if lines == 1 {
            40
        } else if lines == 2 {
            100
        } else if lines == 3 {
            300
        } else {
            1200
        };
        let factor = self.current.saturating_add(1);
        let gained = match points.checked_mul(factor) {
            Some(g) => g,
            None => u32::MAX,
        };
        assert(factor as int == self.current + 1 || points == 0 || gained == u32::MAX) by (nonlinear_arith)
            requires
                factor as int == saturate(self.current + 1),
                gained as int == saturate(points * factor),
        ;
        proof {
            if self.current + 1 > u32::MAX {
                assert(points * (self.current + 1) >= points * factor) by (nonlinear_arith)
                    requires
                        self.current + 1 > factor,
                        points >= 0,
                ;
            }
        }
        self.current = self.current.saturating_add(after - before);
        self.cleared_lines = total;
        self.score = self.score.saturating_add(gained);
    }
}

} // verus!
