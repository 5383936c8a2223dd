//! Application state for the counter demonstration shell.

use vstd::prelude::*;

verus! {

/// The demonstration application's state: a running flag and a saturating
/// 8-bit counter.
#[derive(Debug, Clone, Copy, PartialEq, Eq, Structural)]
pub struct App {
    /// Is the application running?
    pub running: bool,
    /// The counter value.
    pub counter: u8,
}

impl Default for App {
    fn default() -> (app: App)
        ensures
            !app.running,
            app.counter == 0,
    {
        App { running: false, counter: 0 }
    }
}

impl App {
    /// A freshly started application: running, with the counter at zero.
    pub fn new() -> (app: App)
        ensures
            app.running,
            app.counter == 0,
    {
        App { running: true, counter: 0 }
    }

    /// Handles the tick event of the terminal. A tick changes nothing.
    pub fn tick(&self) {
    }

    /// Stops the application; the counter is left as it was.
    pub fn quit(&mut self)
        ensures
            !final(self).running,
            final(self).counter == old(self).counter,
    {
        self.running = false;
    }

    /// Raises the counter by one; at the top of the range it stays put
    /// instead of wrapping.
    pub fn increment_counter(&mut self)
        ensures
            old(self).counter < 255 ==> final(self).counter == old(self).counter + 1,
            old(self).counter == 255 ==> final(self).counter == 255,
            final(self).running == old(self).running,
    {
        if let Some(res) = self.counter.checked_add(1) {
            self.counter = res;
        }
    }

    /// Lowers the counter by one; at zero it stays put instead of
    /// wrapping.
    pub fn decrement_counter(&mut self)
        ensures
            old(self).counter > 0 ==> final(self).counter == old(self).counter - 1,
            old(self).counter == 0 ==> final(self).counter == 0,
            final(self).running == old(self).running,
    {
        if let Some(res) = self.counter.checked_sub(1) {
            self.counter = res;
        }
    }
}

} // verus!
