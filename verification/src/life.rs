//! The orchestrating controller: playback state, the speed value with its
//! pending-change staging, and the single place where a generation advance
//! and a pending speed change are applied together.
use vstd::prelude::*;

use crate::grid::{blank, idx, step, Cell, Grid, SIZE};

verus! {

/// Milliseconds in one second; the tick period is MILLISEC / speed.
pub const MILLISEC: u64 = 1000;

/// One command reaching the controller: an edit intent forwarded to the
/// grid, a scheduler tick, or a user command. Speed values arrive already
/// validated (clamped to a positive range) by the input layer.
#[derive(Clone, Copy, Debug, PartialEq, Eq, Structural)]
pub enum Message {
    Grid(crate::grid::Message),
    Tick,
    Toggle,
    Next,
    Clear,
    SpeedChanged(u64),
}

/// The whole interactive simulation: the grid, the running flag consulted
/// by the tick scheduler, the active speed, and at most one staged speed
/// change awaiting the next generation advance.
pub struct GameOfLife {
    pub grid: Grid,
    pub is_playing: bool,
    pub speed: u64,
    pub next_speed: Option<u64>,
}

impl GameOfLife {
    /// The grid is well shaped and every speed the controller can ever
    /// apply is positive, so the tick period is always defined.
    pub open spec fn wf(&self) -> bool {
        &&& self.grid.wf()
        &&& self.speed >= 1
        &&& self.next_speed matches Some(s) ==> s >= 1
    }

    /// A fresh, paused simulation over an unpopulated grid at speed 5.
    pub fn new() -> (g: GameOfLife)
        ensures
            g.wf(),
            g.grid@ == blank(),
            !g.grid.pressed(),
            g.grid.is_dirty(),
            !g.is_playing,
            g.speed == 5,
            g.next_speed is None,
    {
        GameOfLife { grid: Grid::new(), is_playing: false, speed: 5, next_speed: None }
    }

    /// The window title.
    pub fn title(&self) -> (t: &'static str)
        ensures
            t@ == "Game of Life"@,
    {
        "Game of Life"
    }

    /// Applies one message.
    ///
    /// A tick and a manual step are funneled through the same arm: both
    /// advance the grid one generation and then consume a pending speed
    /// change, so pending-speed application happens in exactly one place.
    /// A speed change while running is staged; while paused it takes
    /// effect immediately.
    pub fn update(&mut self, message: Message)
        requires
            old(self).wf(),
            message matches Message::Grid(m) ==> (m matches crate::grid::Message::Populate { i, j }
                && i < SIZE && j < SIZE),
            message matches Message::SpeedChanged(s) ==> s >= 1,
        ensures
            final(self).wf(),
            message matches Message::Grid(m) ==> (m matches crate::grid::Message::Populate { i, j }
                && final(self).grid@ == old(self).grid@.update(idx(i as int, j as int), Cell::Populated)
                && final(self).grid.is_dirty()
                && final(self).grid.pressed() == old(self).grid.pressed()
                && final(self).is_playing == old(self).is_playing
                && final(self).speed == old(self).speed
                && final(self).next_speed == old(self).next_speed),
            (message == Message::Tick || message == Message::Next) ==> (
                final(self).grid@ == step(old(self).grid@)
                && final(self).grid.is_dirty()
                && final(self).grid.pressed() == old(self).grid.pressed()
                && final(self).is_playing == old(self).is_playing
                && final(self).speed == (match old(self).next_speed {
                    Some(s) => s,
                    None => old(self).speed,
                })
                && final(self).next_speed is None),
            message == Message::Toggle ==> (
                final(self).is_playing == !old(self).is_playing
                && final(self).grid == old(self).grid
                && final(self).speed == old(self).speed
                && final(self).next_speed == old(self).next_speed),
            message == Message::Clear ==> (
                final(self).grid@ == blank()
                && final(self).grid.is_dirty()
                && !final(self).grid.pressed()
                && final(self).is_playing == old(self).is_playing
                && final(self).speed == old(self).speed
                && final(self).next_speed == old(self).next_speed),
            message matches Message::SpeedChanged(s) ==> (
                final(self).grid == old(self).grid
                && final(self).is_playing == old(self).is_playing
                && (old(self).is_playing ==> final(self).speed == old(self).speed
                    && final(self).next_speed == Some(s))
                && (!old(self).is_playing ==> final(self).speed == s
                    && final(self).next_speed == old(self).next_speed)),
    {
        match message {
            Message::Grid(m) => {
                self.grid.update(m);
            },
            Message::Tick | Message::Next => {
                self.grid.tick();
                match self.next_speed {
                    Some(speed) => {
                        self.speed = speed;
                        self.next_speed = None;
                    },
                    None => {},
                }
            },
            Message::Toggle => {
                self.is_playing = !self.is_playing;
            },
            Message::Clear => {
                self.grid.clear();
            },
            Message::SpeedChanged(speed) => {
                if self.is_playing {
                    self.next_speed = Some(speed);
                } else {
                    self.speed = speed;
                }
            },
        }
    }

    /// The period, in milliseconds, at which the tick scheduler should
    /// emit: defined exactly while playback is running. Restarting always
    /// derives a fresh period window from the current speed.
    pub fn subscription_period(&self) -> (p: Option<u64>)
        requires
            self.wf(),
        ensures
            self.is_playing ==> p == Some(MILLISEC / self.speed),
            !self.is_playing ==> p is None,
    {
        if self.is_playing {
            Some(MILLISEC / self.speed)
        } else {
            None
        }
    }
}

} // verus!
