use vstd::prelude::*;

verus! {

/// A discrete command from outside the frame loop, applied in the order received.
#[derive(Debug, Clone, Copy, PartialEq, Eq, Structural)]
pub enum Message {
    Toggle_Louvers,
    /// Reserved for folding the shutters about their hinges; it changes nothing yet.
    Toggle_Angles,
    Toggle_Doors,
    Top_View,
    Front_View,
}

/// The colour given to every shutter's material.
#[derive(Debug, Clone, Copy, PartialEq, Eq, Structural)]
pub enum Colour {
    White,
    Red,
    Green,
    Blue,
}

/// The inbox that callers outside the frame loop write to: a FIFO of commands, and two
/// single slots (colour, layout code) in which the latest value wins.
pub struct Command_Queue {
    pub messages: Vec<Message>,
    pub colour: Option<Colour>,
    pub layout: Option<String>,
}

impl Command_Queue {
    /// An empty queue; white is pending, so the first frame paints the shutters white.
    pub fn new() -> (r: Command_Queue)
        ensures
            r.messages@ == Seq::<Message>::empty(),
            r.colour == Some(Colour::White),
            r.layout is None,
    {
        Command_Queue { messages: Vec::new(), colour: Some(Colour::White), layout: None }
    }

    /// Removes every pending command and returns them in the order they were pushed.
    pub fn drain_messages(&mut self) -> (r: Vec<Message>)
        ensures
            r@ == old(self).messages@,
            final(self).messages@ == Seq::<Message>::empty(),
            final(self).colour == old(self).colour,
            final(self).layout == old(self).layout,
    {
        let mut r: Vec<Message> = Vec::new();
        std::mem::swap(&mut r, &mut self.messages);
        r
    }

    /// Returns the pending colour, at most once.
    pub fn take_pending_colour(&mut self) -> (r: Option<Colour>)
        ensures
            r == old(self).colour,
            final(self).colour is None,
            final(self).messages@ == old(self).messages@,
            final(self).layout == old(self).layout,
    {
        self.colour.take()
    }

    /// Returns the pending layout code, at most once.
    pub fn take_pending_layout(&mut self) -> (r: Option<String>)
        ensures
            r == old(self).layout,
            final(self).layout is None,
            final(self).messages@ == old(self).messages@,
            final(self).colour == old(self).colour,
    {
        self.layout.take()
    }
}

/// Appends a command; nothing is dropped.
pub fn push_message(queue: &mut Command_Queue, message: Message)
    ensures
        final(queue).messages@ == old(queue).messages@.push(message),
        final(queue).colour == old(queue).colour,
        final(queue).layout == old(queue).layout,
{
    queue.messages.push(message);
}

/// Overwrites the pending colour.
pub fn set_colour(queue: &mut Command_Queue, colour: Colour)
    ensures
        final(queue).colour == Some(colour),
        final(queue).messages@ == old(queue).messages@,
        final(queue).layout == old(queue).layout,
{
    queue.colour = Some(colour);
}

/// Overwrites the pending layout code.
pub fn set_layout_code(queue: &mut Command_Queue, code: String)
    ensures
        final(queue).layout == Some(code),
        final(queue).messages@ == old(queue).messages@,
        final(queue).colour == old(queue).colour,
{
    queue.layout = Some(code);
}

} // verus!
