use vstd::prelude::*;
use crate::geom::Vector;
use crate::scene::{MouseEvent, Scene};
use crate::theme::Theme;
use crate::viewer::{viewer_dispatched, viewer_loaded, viewer_ticked, AdViewer};

verus! {

/// How a modal screen comes in.
#[derive(Clone, Copy, Debug, PartialEq, Eq, Structural)]
pub enum ModalDisplayStyle {
    Immediate,
    CoverVertical,
    FlipHorizontal,
    CrossDissolve,
}

/// Where a screen is in a transition.
#[derive(Clone, Copy, Debug, PartialEq, Eq, Structural)]
pub enum TransitionState {
    Idle,
    Starting,
    Running,
    Finishing,
    Completed,
}

/// A placeholder screen for start-up: it shows nothing and takes no input.
#[derive(Clone, Copy, Debug, PartialEq, Eq, Structural)]
pub struct EmptyController {}

/// The screen that the application shows: one of the screens it knows.
#[derive(Debug)]
pub enum Controller {
    Empty(EmptyController),
    AdViewer(AdViewer),
}

impl Controller {
    pub open spec fn wf(&self) -> bool {
        match self {
            Controller::AdViewer(v) => v.wf(),
            Controller::Empty(_) => true,
        }
    }

    /// The title to show for the screen.
    pub fn screen_title(&self) -> (r: &'static str)
        ensures
            self is Empty ==> r@ == ""@,
            self is AdViewer ==> r@ == "Theme Builder"@,
    {
        match self {
            Controller::Empty(_) => {
                proof {
                    reveal_strlit("");
                }
                ""
            },
            Controller::AdViewer(v) => v.screen_title(),
        }
    }

    /// Lay out the screen and prepare it for display.
    pub fn view_will_load(&mut self, theme: &Theme)
        ensures
            final(self).wf(),
            (*old(self)) is Empty ==> *final(self) == *old(self),
            (*old(self)) is AdViewer ==> (*final(self)) is AdViewer && viewer_loaded(
                (*final(self))->AdViewer_0,
                (*old(self))->AdViewer_0.frame,
                (*old(self))->AdViewer_0.ad_spec,
                *theme,
            ),
    {
        match self {
            Controller::Empty(_) => {},
            Controller::AdViewer(v) => v.view_will_load(theme),
        }
    }

    pub fn set_theme(&mut self, theme: &Theme)
        requires
            old(self).wf(),
        ensures
            final(self).wf(),
            (*old(self)) is Empty ==> *final(self) == *old(self),
            (*old(self)) is AdViewer ==> (*final(self)) is AdViewer && (*final(self))->AdViewer_0.theme
                == *theme,
    {
        match self {
            Controller::Empty(_) => {},
            Controller::AdViewer(v) => v.set_theme(theme),
        }
    }

    /// One tick of `delta` milliseconds.
    pub fn update(&mut self, delta: u32)
        requires
            old(self).wf(),
        ensures
            final(self).wf(),
            (*old(self)) is Empty ==> *final(self) == *old(self),
            (*old(self)) is AdViewer ==> (*final(self)) is AdViewer && viewer_ticked(
                (*old(self))->AdViewer_0,
                (*final(self))->AdViewer_0,
                delta as int,
            ),
    {
        match self {
            Controller::Empty(_) => {},
            Controller::AdViewer(v) => v.update(delta),
        }
    }

    /// Offer a pointer event; returns whether the screen consumed it.
    pub fn handle_mouse(&mut self, ev: MouseEvent, p: Vector) -> (r: bool)
        requires
            old(self).wf(),
        ensures
            final(self).wf(),
            (*old(self)) is Empty ==> !r && *final(self) == *old(self),
            (*old(self)) is AdViewer ==> (*final(self)) is AdViewer && r == (crate::stage::top_scene(
                (*old(self))->AdViewer_0.stage.scenes@,
                ev,
                p,
            ) >= 0) && viewer_dispatched(
                (*old(self))->AdViewer_0,
                (*final(self))->AdViewer_0,
                ev,
                p,
            ),
    {
        match self {
            Controller::Empty(_) => false,
            Controller::AdViewer(v) => {
                let r = v.handle_mouse(ev, p);
                proof {
                    assert forall|i: int| 0 <= i < v.stage.scenes@.len() implies (
                    #[trigger] v.stage.scenes@[i]).wf() by {
                        let o = (*old(self))->AdViewer_0.stage.scenes@[i];
                        assert(o.wf());
                    }
                }
                r
            },
        }
    }
}

/// Something that holds controls and takes presses and releases.
pub trait Container {
    fn handle_mouse_down(&mut self, pt: Vector);

    fn handle_mouse_up(&mut self, pt: Vector);
}

impl Container for Scene {
    fn handle_mouse_down(&mut self, pt: Vector) {
        let _ = self.handle_mouse(MouseEvent::Down, pt);
    }

    fn handle_mouse_up(&mut self, pt: Vector) {
        let _ = self.handle_mouse(MouseEvent::Up, pt);
    }
}

} // verus!
