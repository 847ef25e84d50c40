//! Front-end state.
//!
//! The state a drawing client keeps between pointer events: the drawables
//! it has finished, the current and previous tool messages, and the point
//! a pending tool started at.

use vstd::prelude::*;
use crate::Drawable;
use crate::point2d::Point2D;

verus! {

/// A tool message from the drawing client.
#[derive(Clone, Copy, Debug, PartialEq, Eq, Structural)]
pub enum Message {
    Line,
    FinishLine(Point2D),
}

/// The drawing client's state.
#[derive(Clone, Debug)]
pub struct AppState {
    pub drawables: Box<Vec<Drawable>>,
    pub current_message: Option<Message>,
    pub prev_message: Option<Message>,
    pub current_point: Option<Point2D>,
}

impl AppState {
    /// An empty state: no drawables, no messages, no pending point.
    pub fn new() -> (s: AppState)
        ensures
            s.drawables@ == Seq::<Drawable>::empty(),
            s.current_message is None,
            s.prev_message is None,
            s.current_point is None,
    {
        AppState {
            drawables: Box::new(Vec::new()),
            current_message: Option::None,
            prev_message: Option::None,
            current_point: Option::None,
        }
    }

    /// Append a finished drawable.
    pub fn add(&mut self, drawable: &Drawable)
        ensures
            final(self).drawables@ == old(self).drawables@.push(*drawable),
            final(self).current_message == old(self).current_message,
            final(self).prev_message == old(self).prev_message,
            final(self).current_point == old(self).current_point,
    {
        self.drawables.push(*drawable);
    }

    /// The finished drawables, in insertion order.
    pub fn drawables(&self) -> (r: &Vec<Drawable>)
        ensures
            r@ == self.drawables@,
    {
        &*self.drawables
    }

    /// The current tool message.
    pub fn current_message(&self) -> (r: Option<Message>)
        ensures
            r == self.current_message,
    {
        self.current_message
    }

    /// The previous tool message.
    pub fn prev_message(&self) -> (r: Option<Message>)
        ensures
            r == self.prev_message,
    {
        self.prev_message
    }

    /// Install a new current message, remembering the old one.
    pub fn set_message(&mut self, new_message: Option<Message>)
        ensures
            final(self).prev_message == old(self).current_message,
            final(self).current_message == new_message,
            final(self).drawables@ == old(self).drawables@,
            final(self).current_point == old(self).current_point,
    {
        self.prev_message = self.current_message;
        self.current_message = new_message;
    }
}

} // verus!
