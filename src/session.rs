//! The decisions of a display session: the window size it opens with, the
//! frame it draws first, and what it does on each window event. Whoever owns
//! the window runs the loop, performs each action and hands back each event.

use vstd::prelude::*;

use crate::fit::{center_offset, centre_offset, clamp_window_dimension, clamped_dimension, lemma_fit_invariant};
use crate::picture::{fitted_picture, PictureView, RgbaPicture};

verus! {

/// A window event as the session sees it.
pub enum Event {
    /// The user asked to quit, or closed the window.
    Quit,
    /// The Escape key went down.
    EscapePressed,
    /// The window now has this width and height.
    Resized(u32, u32),
    /// Anything else; it changes nothing.
    Other,
}

/// A picture and the offset of its top-left corner in the window.
pub struct Frame {
    pub picture: RgbaPicture,
    pub x: i32,
    pub y: i32,
}

/// The mathematical content of a frame.
pub struct FrameView {
    pub picture: PictureView,
    pub x: int,
    pub y: int,
}

impl View for Frame {
    type V = FrameView;

    open spec fn view(&self) -> FrameView {
        FrameView { picture: self.picture@, x: self.x as int, y: self.y as int }
    }
}

/// What the window's owner does next.
pub enum Action {
    /// Release the window and return.
    Close,
    /// Clear the window to white and draw this frame.
    Draw(Frame),
    /// Nothing to do; wait for the next event.
    Wait,
}

/// The mathematical content of an action.
pub enum ActionView {
    Close,
    Draw(FrameView),
    Wait,
}

impl View for Action {
    type V = ActionView;

    open spec fn view(&self) -> ActionView {
        match self {
            Action::Close => ActionView::Close,
            Action::Draw(f) => ActionView::Draw(f@),
            Action::Wait => ActionView::Wait,
        }
    }
}

/// The window size that a session is drawing for.
pub struct Session {
    pub width: u32,
    pub height: u32,
}

/// The frame drawn for `src` in a `ww` x `wh` window: the fitted picture,
/// centred, offsets truncated.
pub open spec fn frame_for(src: PictureView, ww: nat, wh: nat) -> FrameView {
    let p = fitted_picture(src, ww, wh);
    FrameView { picture: p, x: centre_offset(ww, p.width), y: centre_offset(wh, p.height) }
}

/// The session and the action that follow `event` in session `s`.
pub open spec fn next(s: Session, src: PictureView, event: Event) -> (Session, ActionView) {
    match event {
        Event::Quit => (s, ActionView::Close),
        Event::EscapePressed => (s, ActionView::Close),
        Event::Resized(x, y) => (
            Session { width: x, height: y },
            ActionView::Draw(frame_for(src, x as nat, y as nat)),
        ),
        Event::Other => (s, ActionView::Wait),
    }
}

/// Handling a resize to the same size a second time changes nothing and
/// draws the very same frame: the frame depends on the source and the size
/// alone.
pub proof fn lemma_refit_idempotent(s: Session, src: PictureView, x: u32, y: u32)
    ensures
        ({
            let (s1, a1) = next(s, src, Event::Resized(x, y));
            next(s1, src, Event::Resized(x, y)) == (s1, a1)
        }),
{
}

/// The frame drawn for `src` in a `ww` x `wh` window.
fn frame(src: &RgbaPicture, ww: u32, wh: u32) -> (r: Frame)
    requires
        src@.is_source(),
    ensures
        r@ == frame_for(src@, ww as nat, wh as nat),
        r.picture@.wf(),
{
    let picture = src.fitted(ww, wh);
    proof {
        lemma_fit_invariant(src.width as nat, src.height as nat, ww as nat, wh as nat);
    }
    let x = center_offset(ww, picture.width);
    let y = center_offset(wh, picture.height);
    Frame { picture, x, y }
}

impl Session {
    /// Opens a session for a window of the requested size, each side raised
    /// to the minimum, and gives the first frame to draw.
    pub fn start(src: &RgbaPicture, requested_width: u32, requested_height: u32) -> (r: (Session, Frame))
        requires
            src@.is_source(),
        ensures
            r.0.width as nat == clamped_dimension(requested_width as nat),
            r.0.height as nat == clamped_dimension(requested_height as nat),
            r.1@ == frame_for(src@, r.0.width as nat, r.0.height as nat),
    {
        let width = clamp_window_dimension(requested_width);
        let height = clamp_window_dimension(requested_height);
        let first = frame(src, width, height);
        (Session { width, height }, first)
    }

    /// Takes one event: quitting and Escape close the session, a resize
    /// re-fits the source to the new size and draws it centred, and any
    /// other event is ignored.
    pub fn handle(&mut self, src: &RgbaPicture, event: Event) -> (r: Action)
        requires
            src@.is_source(),
        ensures
            (*final(self), r@) == next(*old(self), src@, event),
    {
        match event {
            Event::Quit => Action::Close,
            Event::EscapePressed => Action::Close,
            Event::Resized(x, y) => {
                self.width = x;
                self.height = y;
                Action::Draw(frame(src, x, y))
            },
            Event::Other => Action::Wait,
        }
    }
}

} // verus!
