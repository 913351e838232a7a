use vstd::prelude::*;

verus! {

/// Messages handled at most per frame, so that a burst cannot freeze the screen.
pub const MAX_MSGS_PER_FRAME: usize = 500;

/// A key as the terminal loop sees it.
#[derive(Clone, Copy, Debug, PartialEq, Eq, Structural)]
pub enum Key {
    Char(char),
    Esc,
    Other,
}

/// What a key press asks of the terminal.
#[derive(Clone, Copy, Debug, PartialEq, Eq, Structural)]
pub enum KeyAction {
    Quit,
    Reset,
    Nothing,
}

/// The action of a key event: q, Q and Esc quit, r and R reset the session;
/// only presses count.
pub open spec fn key_action_spec(key: Key, is_press: bool) -> KeyAction {
    if !is_press {
        KeyAction::Nothing
    } else {
        match key {
            Key::Char(c) => if c == 'q' || c == 'Q' {
                KeyAction::Quit
            } else if c == 'r' || c == 'R' {
                KeyAction::Reset
            } else {
                KeyAction::Nothing
            },
            Key::Esc => KeyAction::Quit,
            Key::Other => KeyAction::Nothing,
        }
    }
}

/// Only presses act: releasing or repeating any key does nothing. A press
/// of q, Q or Esc quits, a press of r or R resets, and a press of any other
/// key does nothing.
pub proof fn law_keys(key: Key, is_press: bool)
    ensures
        !is_press ==> key_action_spec(key, is_press) == KeyAction::Nothing,
        is_press && (key == Key::Char('q') || key == Key::Char('Q') || key == Key::Esc)
            ==> key_action_spec(key, is_press) == KeyAction::Quit,
        is_press && (key == Key::Char('r') || key == Key::Char('R')) ==> key_action_spec(
            key,
            is_press,
        ) == KeyAction::Reset,
        key_action_spec(key, is_press) == KeyAction::Quit ==> is_press && (key == Key::Char('q')
            || key == Key::Char('Q') || key == Key::Esc),
        key_action_spec(key, is_press) == KeyAction::Reset ==> is_press && (key == Key::Char('r')
            || key == Key::Char('R')),
{
}

/// Decides what a key event does.
pub fn key_action(key: Key, is_press: bool) -> (a: KeyAction)
    ensures
        a == key_action_spec(key, is_press),
        !is_press ==> a == KeyAction::Nothing,
        a == KeyAction::Quit <==> is_press && (key == Key::Char('q') || key == Key::Char('Q')
            || key == Key::Esc),
        a == KeyAction::Reset <==> is_press && (key == Key::Char('r') || key == Key::Char('R')),
{
    if !is_press {
        return KeyAction::Nothing;
    }
    match key {
        Key::Char(c) => if c == 'q' || c == 'Q' {
            KeyAction::Quit
        } else if c == 'r' || c == 'R' {
            KeyAction::Reset
        } else {
            KeyAction::Nothing
        },
        Key::Esc => KeyAction::Quit,
        Key::Other => KeyAction::Nothing,
    }
}

/// The outcome of one attempt to take a message from the feed channel.
#[derive(Clone, Copy, Debug, PartialEq, Eq, Structural)]
pub enum Received {
    /// A message arrived.
    Message,
    /// Nothing is waiting.
    Empty,
    /// Every sender is gone.
    Disconnected,
}

/// What the frame does next while draining the feed channel.
#[derive(Clone, Copy, Debug, PartialEq, Eq, Structural)]
pub enum DrainStep {
    /// Handle the message; `last` when it uses up the frame's budget.
    Handle { last: bool },
    /// Stop draining and draw.
    Stop,
    /// Stop draining and end the program.
    Shutdown,
}

/// Counts the messages handled in one frame.
pub struct FrameDrain {
    processed: usize,
}

impl FrameDrain {
    /// Messages handled so far in this frame.
    pub closed spec fn handled(&self) -> nat {
        self.processed as nat
    }

    /// A frame with no message handled yet.
    pub fn new() -> (d: Self)
        ensures
            d.handled() == 0,
    {
        FrameDrain { processed: 0 }
    }

    /// Messages handled so far in this frame.
    pub fn processed(&self) -> (n: usize)
        ensures
            n == self.handled(),
    {
        self.processed
    }

    /// Decides what to do with the outcome of one receive: a message is
    /// handled and counted, and is the last of the frame once the budget is
    /// spent; an empty channel ends the draining; a closed one ends the program.
    pub fn step(&mut self, got: Received) -> (s: DrainStep)
        requires
            old(self).handled() < MAX_MSGS_PER_FRAME,
        ensures
            got == Received::Message ==> final(self).handled() == old(self).handled() + 1
                && s == (DrainStep::Handle {
                last: final(self).handled() >= MAX_MSGS_PER_FRAME,
            }),
            got == Received::Empty ==> final(self).handled() == old(self).handled() && s
                == DrainStep::Stop,
            got == Received::Disconnected ==> final(self).handled() == old(self).handled() && s
                == DrainStep::Shutdown,
            final(self).handled() <= MAX_MSGS_PER_FRAME,
            s == (DrainStep::Handle { last: false }) ==> final(self).handled()
                < MAX_MSGS_PER_FRAME,
    {
        match got {
            Received::Message => {
                self.processed = self.processed + 1;
                DrainStep::Handle { last: self.processed >= MAX_MSGS_PER_FRAME }
            },
            Received::Empty => DrainStep::Stop,
            Received::Disconnected => DrainStep::Shutdown,
        }
    }
}

} // verus!
