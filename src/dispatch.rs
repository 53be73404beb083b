//! The event dispatch state machine: handlers are registered on a
//! `HandlerTable`, which `start` freezes into a `Dispatcher`; from then on each
//! hardware event is mapped to the handler to run.

use vstd::prelude::*;

verus! {

/// A decoded key press: a printable character, or the code of a key that
/// prints nothing.
#[derive(Clone, Copy, Debug, PartialEq, Eq, Structural)]
pub enum Key {
    Unicode(char),
    Raw(u8),
}

/// A hardware event delivered to the dispatch loop.
#[derive(Clone, Copy, Debug, PartialEq, Eq, Structural)]
pub enum Event {
    /// Once, right after the loop starts, before every other event.
    Startup,
    /// A tick of the hardware timer.
    Timer,
    /// A decoded key press.
    Keyboard(Key),
}

/// What the dispatch loop does for one event.
#[derive(Clone, Copy, Debug, PartialEq, Eq, Structural)]
pub enum Action {
    /// Run the startup handler.
    RunStartup,
    /// Run the timer handler.
    RunTimer,
    /// Run the keyboard handler on this key.
    RunKeyboard(Key),
    /// Run nothing.
    Idle,
}

/// The handlers being registered, each optional; `start` freezes them.
pub struct HandlerTable<S, T, K> {
    pub startup: Option<S>,
    pub timer: Option<T>,
    pub keyboard: Option<K>,
}

/// A started dispatch loop: its handler set is fixed, and it remembers
/// whether the startup event has been handled.
pub struct Dispatcher<S, T, K> {
    handlers: HandlerTable<S, T, K>,
    started: bool,
}

impl<S, T, K> HandlerTable<S, T, K> {
    /// Whether a startup handler is registered.
    pub open spec fn has_startup(&self) -> bool {
        self.startup is Some
    }

    /// Whether a timer handler is registered.
    pub open spec fn has_timer(&self) -> bool {
        self.timer is Some
    }

    /// Whether a keyboard handler is registered.
    pub open spec fn has_keyboard(&self) -> bool {
        self.keyboard is Some
    }

    /// A table with no handler.
    pub fn new() -> (r: Self)
        ensures
            !r.has_startup() && !r.has_timer() && !r.has_keyboard(),
    {
        HandlerTable { startup: None, timer: None, keyboard: None }
    }

    /// Registers `handler` for the startup event, replacing an earlier one.
    pub fn startup(self, handler: S) -> (r: Self)
        ensures
            r.startup == Some(handler),
            r.timer == self.timer,
            r.keyboard == self.keyboard,
    {
        HandlerTable { startup: Some(handler), timer: self.timer, keyboard: self.keyboard }
    }

    /// Registers `handler` for timer events, replacing an earlier one.
    pub fn timer(self, handler: T) -> (r: Self)
        ensures
            r.timer == Some(handler),
            r.startup == self.startup,
            r.keyboard == self.keyboard,
    {
        HandlerTable { startup: self.startup, timer: Some(handler), keyboard: self.keyboard }
    }

    /// Registers `handler` for keyboard events, replacing an earlier one.
    pub fn keyboard(self, handler: K) -> (r: Self)
        ensures
            r.keyboard == Some(handler),
            r.startup == self.startup,
            r.timer == self.timer,
    {
        HandlerTable { startup: self.startup, timer: self.timer, keyboard: Some(handler) }
    }

    /// Freezes the handler set and arms the dispatch loop, which has not yet
    /// handled the startup event.
    pub fn start(self) -> (r: Dispatcher<S, T, K>)
        ensures
            r.handlers() == self,
            !r.has_started(),
    {
        Dispatcher { handlers: self, started: false }
    }
}

/// What a dispatcher with `handlers`, which has (`started`) or has not yet
/// handled the startup event, does for `event`.
pub open spec fn action_for<S, T, K>(
    handlers: HandlerTable<S, T, K>,
    started: bool,
    event: Event,
) -> Action {
    match event {
        Event::Startup => if !started && handlers.has_startup() {
            Action::RunStartup
        } else {
            Action::Idle
        },
        Event::Timer => if started && handlers.has_timer() {
            Action::RunTimer
        } else {
            Action::Idle
        },
        Event::Keyboard(k) => if started && handlers.has_keyboard() {
            Action::RunKeyboard(k)
        } else {
            Action::Idle
        },
    }
}

/// Whether the startup event has been handled once `events[0..n]` were
/// dispatched, given `started` before them.
pub open spec fn started_after(started: bool, events: Seq<Event>, n: int) -> bool {
    started || exists|j: int| 0 <= j < n && #[trigger] events[j] == Event::Startup
}

impl<S, T, K> Dispatcher<S, T, K> {
    /// The frozen handler set.
    pub closed spec fn handlers(&self) -> HandlerTable<S, T, K> {
        self.handlers
    }

    /// Whether the startup event has been handled.
    pub closed spec fn has_started(&self) -> bool {
        self.started
    }

    /// Whether the startup event has been handled.
    pub fn started(&self) -> (r: bool)
        ensures
            r == self.has_started(),
    {
        self.started
    }

    /// The registered startup handler.
    pub fn startup_handler(&self) -> (r: Option<&S>)
        ensures
            r is Some <==> self.handlers().has_startup(),
    {
        self.handlers.startup.as_ref()
    }

    /// The registered timer handler.
    pub fn timer_handler(&self) -> (r: Option<&T>)
        ensures
            r is Some <==> self.handlers().has_timer(),
    {
        self.handlers.timer.as_ref()
    }

    /// The registered keyboard handler.
    pub fn keyboard_handler(&self) -> (r: Option<&K>)
        ensures
            r is Some <==> self.handlers().has_keyboard(),
    {
        self.handlers.keyboard.as_ref()
    }

    /// Handles one event: the startup handler runs on the first startup
    /// event only; timer and keyboard handlers run once the startup event was
    /// handled; an event without a registered handler does nothing.
    pub fn dispatch(&mut self, event: Event) -> (r: Action)
        ensures
            r == action_for(old(self).handlers(), old(self).has_started(), event),
            final(self).handlers() == old(self).handlers(),
            final(self).has_started() == (old(self).has_started() || event == Event::Startup),
    {
        match event {
            Event::Startup => {
                let first = !self.started;
                self.started = true;
                if first && self.handlers.startup.is_some() {
                    Action::RunStartup
                } else {
                    Action::Idle
                }
            },
            Event::Timer => {
                if self.started && self.handlers.timer.is_some() {
                    Action::RunTimer
                } else {
                    Action::Idle
                }
            },
            Event::Keyboard(k) => {
                if self.started && self.handlers.keyboard.is_some() {
                    Action::RunKeyboard(k)
                } else {
                    Action::Idle
                }
            },
        }
    }

    /// Dispatches `events` in arrival order: the `i`-th action is what
    /// `dispatch` does for the `i`-th event in the state the earlier events
    /// left.
    pub fn dispatch_all(&mut self, events: &Vec<Event>) -> (r: Vec<Action>)
        ensures
            r@.len() == events@.len(),
            forall|i: int|
                0 <= i < events@.len() ==> #[trigger] r@[i] == action_for(
                    old(self).handlers(),
                    started_after(old(self).has_started(), events@, i),
                    events@[i],
                ),
            final(self).handlers() == old(self).handlers(),
            final(self).has_started() == started_after(
                old(self).has_started(),
                events@,
                events@.len() as int,
            ),
    {
        let ghost handlers = self.handlers();
        let ghost started0 = self.has_started();
        let mut actions: Vec<Action> = Vec::new();
        let mut i: usize = 0;
        while i < events.len()
            invariant
                0 <= i <= events@.len(),
                actions@.len() == i,
                self.handlers() == handlers,
                self.has_started() == started_after(started0, events@, i as int),
                forall|j: int|
                    0 <= j < i ==> #[trigger] actions@[j] == action_for(
                        handlers,
                        started_after(started0, events@, j),
                        events@[j],
                    ),
            decreases events@.len() - i,
        {
            let a = self.dispatch(events[i]);
            actions.push(a);
            i = i + 1;
        }
        actions
    }
}

/// The text the startup handler prints.
pub fn start() -> (r: &'static str)
    ensures
        r@ == "Hello, world!\n"@,
{
    "Hello, world!\n"
}

/// The text the timer handler prints on each tick.
pub fn tick() -> (r: &'static str)
    ensures
        r@ == "."@,
{
    "."
}

} // verus!
