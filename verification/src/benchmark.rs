//! Benchmark of the message queue: a timer interrupt enqueues messages, and
//! the main loop counts them, pass by pass.
//!
//! This module keeps the counts; the queue and the timer are the caller's.

use vstd::prelude::*;

use crate::firmware_app::Message;

verus! {

/// The counts the benchmark keeps.
#[derive(Debug, Clone, Copy, PartialEq, Eq, Structural)]
pub struct State {
    /// The number of the current pass of the main loop, from 1.
    pub counter: usize,
    /// Timer events from the interrupt handler.
    pub interrupts: u32,
    /// Timer events the main loop enqueued itself.
    pub secondary: u32,
    /// The most messages a pass has handled.
    pub while_max: u32,
    /// The messages the last pass handled.
    pub while_last: u32,
}

/// How often the main loop reports, in passes.
pub const REPORT_INTERVAL: usize = 50_000;

impl State {
    pub fn new() -> (r: Self)
        ensures
            r == (State { counter: 1, interrupts: 0, secondary: 0, while_max: 0, while_last: 0 }),
    {
        Self { counter: 1, interrupts: 0, secondary: 0, while_max: 0, while_last: 0 }
    }

    /// Counts a message, the `handled`th of the current pass counting from
    /// 1: a timer event from the interrupt handler (number 0) or from the
    /// main loop (any other number); other messages are only counted as
    /// handled.
    pub fn handle_message(&mut self, message: &Message, handled: u32)
        requires
            old(self).interrupts < u32::MAX,
            old(self).secondary < u32::MAX,
        ensures
            final(self).interrupts == old(self).interrupts + (if *message matches Message::TimerEvent(0) {
                1int
            } else {
                0int
            }),
            final(self).secondary == old(self).secondary + (if *message matches Message::TimerEvent(n)
                && n != 0 {
                1int
            } else {
                0int
            }),
            final(self).while_max == (if handled > old(self).while_max {
                handled
            } else {
                old(self).while_max
            }),
            final(self).counter == old(self).counter,
            final(self).while_last == old(self).while_last,
    {
        match message {
            Message::TimerEvent(0) => {
                self.interrupts += 1;
            },
            Message::TimerEvent(_value) => {
                self.secondary += 1;
            },
            _ => {},
        }
        if handled > self.while_max {
            self.while_max = handled;
        }
    }

    /// Ends a pass that handled `handled` messages, and starts the next.
    /// Every `REPORT_INTERVAL` passes, returns the number of a timer event
    /// the main loop is to enqueue.
    pub fn finish_pass(&mut self, handled: u32) -> (r: Option<usize>)
        requires
            old(self).counter < usize::MAX,
        ensures
            r == (if old(self).counter % REPORT_INTERVAL == 0 {
                Some(old(self).counter)
            } else {
                None
            }),
            final(self).while_last == handled,
            final(self).counter == old(self).counter + 1,
            final(self).interrupts == old(self).interrupts,
            final(self).secondary == old(self).secondary,
            final(self).while_max == old(self).while_max,
    {
        self.while_last = handled;
        let report = if self.counter % REPORT_INTERVAL == 0 {
            Some(self.counter)
        } else {
            None
        };
        self.counter += 1;
        report
    }
}

} // verus!
