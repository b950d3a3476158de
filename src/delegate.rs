use vstd::prelude::*;
use crate::controller::{Controller, EmptyController};
use crate::geom::{clamp64, clamp_i64, Rectangle, Vector};
use crate::scene::{field_written, Color, Control, ControlKind, FieldValue, MouseEvent, Scene};
use crate::theme::Theme;
use crate::viewer::{viewer_dispatched, viewer_loaded, viewer_ticked, AdViewer};

verus! {

/// Frames between refreshes of the frame-rate display.
pub const FPS_INTERVAL: usize = 40;

/// Identifier of the frame-rate text.
pub const FPS_TAG: u32 = 901;

/// Where the application is in its life.
#[derive(Clone, Copy, Debug, PartialEq, Eq, Structural)]
pub enum Phase {
    Uninitialized,
    Ready,
    Running,
    Transitioning,
    Terminal,
}

#[derive(Clone, Copy, Debug, PartialEq, Eq, Structural)]
pub enum Key {
    Escape,
    Other,
}

/// Input from the window, with the pointer position where one applies.
#[derive(Clone, Copy, Debug, PartialEq, Eq, Structural)]
pub enum InputEvent {
    Focused,
    MouseMoved(Vector),
    MouseDown(Vector),
    MouseUp(Vector),
    MouseWheel(Vector),
    KeyPressed(Key),
    Typed(char),
}

/// What the window should do after an event.
#[derive(Clone, Copy, Debug, PartialEq, Eq, Structural)]
pub enum Response {
    Continue,
    Close,
}

/// The pointer event that an input event is for the screen, if any.
pub open spec fn pointer_event(ev: InputEvent) -> Option<(MouseEvent, Vector)> {
    match ev {
        InputEvent::MouseMoved(p) => Some((MouseEvent::At, p)),
        InputEvent::MouseDown(p) => Some((MouseEvent::Down, p)),
        InputEvent::MouseUp(p) => Some((MouseEvent::Up, p)),
        InputEvent::MouseWheel(p) => Some((MouseEvent::Scroll, p)),
        _ => None,
    }
}

/// `v` is the ad viewer freshly loaded over a window of size `screen`, with
/// `theme`, for the reference-size creative.
pub open spec fn fresh_viewer(v: AdViewer, screen: Vector, theme: Theme) -> bool {
    &&& viewer_loaded(v, Rectangle::spec_sized(screen.x, screen.y), v.ad_spec, theme)
    &&& crate::ad::describes(v.ad_spec, 500, 500, "Default 500x500"@)
}

/// The screen that input or a tick reaches from the delegate `d`: the one it
/// shows, or, before anything was loaded, the ad viewer loaded on the spot.
pub open spec fn screen_reached(d: AppDelegate, v: AdViewer) -> bool {
    if d.phase == Phase::Uninitialized {
        fresh_viewer(v, d.screen, d.theme)
    } else {
        d.controller == Controller::AdViewer(v)
    }
}

/// Stands between the window's run loop and the screens: it owns the active
/// screen, the theme and a small scene that shows the frame rate.
#[derive(Debug)]
pub struct AppDelegate {
    pub controller: Controller,
    pub theme: Theme,
    pub data_scene: Scene,
    pub frames: usize,
    pub phase: Phase,
    pub screen: Vector,
}

impl AppDelegate {
    pub open spec fn wf(&self) -> bool {
        &&& self.controller.wf()
        &&& self.data_scene.wf()
        &&& self.frames < FPS_INTERVAL
        &&& (self.phase == Phase::Uninitialized ==> self.controller is Empty)
        &&& (self.phase == Phase::Ready || self.phase == Phase::Running || self.phase
            == Phase::Transitioning ==> self.controller is AdViewer)
    }

    /// A delegate for a window of size `screen`, with the placeholder screen and the
    /// frame-rate text near the bottom left.
    pub fn new(screen: Vector) -> (r: AppDelegate)
        ensures
            r.wf(),
            r.phase == Phase::Uninitialized,
            r.frames == 0,
            r.screen == screen,
            r.theme == (Theme {
                font_size: 18,
                bg_color: Color { r: 255, g: 255, b: 0xEE, a: 255 },
                char_width_percent: 50,
            }),
            r.data_scene.frame == Rectangle::spec_sized(screen.x, screen.y),
            r.data_scene.controls@.len() == 1,
            r.data_scene.controls@[0].kind == ControlKind::Text,
            r.data_scene.controls@[0].id == Some(FPS_TAG),
            r.data_scene.controls@[0].text@ == Seq::<char>::empty(),
            r.data_scene.controls@[0].frame == Rectangle::spec_at(
                20,
                clamp64(screen.y - 40) as i64,
                80,
                20,
            ),
    {
        let mut theme = Theme::new();
        theme.font_size = 18;
        theme.bg_color = Color::rgb(255, 255, 0xEE);
        let mut data_scene = Scene::new(Rectangle::new_sized(screen.x, screen.y));
        let y = clamp_i64(screen.y as i128 - 40);
        let mut text = Control::new(ControlKind::Text, Rectangle::new(20, y, 80, 20), String::new());
        text.color = Color::rgb(255, 0, 0);
        text.set_id(FPS_TAG);
        data_scene.add_control(text);
        AppDelegate {
            controller: Controller::Empty(EmptyController {}),
            theme,
            data_scene,
            frames: 0,
            phase: Phase::Uninitialized,
            screen,
        }
    }

    /// Replace the screen with the ad viewer over the whole window, loaded and
    /// themed; the previous screen is dropped.
    pub fn application_ready(&mut self, screen: Vector)
        requires
            old(self).wf(),
        ensures
            final(self).wf(),
            final(self).controller is AdViewer,
            fresh_viewer(final(self).controller->AdViewer_0, screen, old(self).theme),
            final(self).phase == (if old(self).phase == Phase::Uninitialized {
                Phase::Ready
            } else {
                old(self).phase
            }),
            final(self).frames == old(self).frames,
            final(self).theme == old(self).theme,
            final(self).screen == old(self).screen,
            final(self).data_scene == old(self).data_scene,
    {
        let mut viewer = AdViewer::new(Rectangle::new_sized(screen.x, screen.y));
        viewer.view_will_load(&self.theme);
        viewer.set_theme(&self.theme);
        self.controller = Controller::AdViewer(viewer);
        if self.phase == Phase::Uninitialized {
            self.phase = Phase::Ready;
        }
    }

    /// Load the screen if that has not happened yet, then start running.
    fn activate(&mut self)
        requires
            old(self).wf(),
            old(self).phase != Phase::Terminal,
        ensures
            final(self).wf(),
            final(self).phase == (if old(self).phase == Phase::Transitioning {
                Phase::Transitioning
            } else {
                Phase::Running
            }),
            final(self).controller is AdViewer,
            screen_reached(*old(self), final(self).controller->AdViewer_0),
            final(self).frames == old(self).frames,
            final(self).theme == old(self).theme,
            final(self).screen == old(self).screen,
            final(self).data_scene == old(self).data_scene,
    {
        if self.phase == Phase::Uninitialized {
            let screen = self.screen;
            self.application_ready(screen);
        }
        if self.phase == Phase::Ready {
            self.phase = Phase::Running;
        }
    }

    /// One frame of `delta` milliseconds: load the screen on the first frame, tick it,
    /// and count the frame. Returns whether the frame-rate display is due for a
    /// refresh, which happens on every `FPS_INTERVAL`-th frame. A closed application
    /// does nothing.
    pub fn update(&mut self, delta: u32) -> (due: bool)
        requires
            old(self).wf(),
        ensures
            final(self).wf(),
            old(self).phase == Phase::Terminal ==> !due && *final(self) == *old(self),
            old(self).phase != Phase::Terminal ==> {
                &&& final(self).phase == (if old(self).phase == Phase::Transitioning {
                    Phase::Transitioning
                } else {
                    Phase::Running
                })
                &&& final(self).controller is AdViewer
                &&& exists|v: AdViewer|
                    screen_reached(*old(self), v) && viewer_ticked(
                        v,
                        final(self).controller->AdViewer_0,
                        delta as int,
                    )
                &&& final(self).theme == old(self).theme
                &&& final(self).screen == old(self).screen
                &&& due == (old(self).frames + 1 == FPS_INTERVAL)
                &&& final(self).frames == (old(self).frames + 1) % (FPS_INTERVAL as int)
                &&& final(self).data_scene == old(self).data_scene
            },
    {
        if self.phase == Phase::Terminal {
            return false;
        }
        self.activate();
        let ghost v = self.controller->AdViewer_0;
        self.controller.update(delta);
        proof {
            assert(screen_reached(*old(self), v));
        }
        self.frames = self.frames + 1;
        if self.frames == FPS_INTERVAL {
            self.frames = 0;
            true
        } else {
            false
        }
    }

    /// Show `text` in the frame-rate display. Where that text control is missing the
    /// call changes nothing.
    pub fn show_fps(&mut self, text: String)
        requires
            old(self).wf(),
        ensures
            final(self).wf(),
            *final(self) == (AppDelegate { data_scene: final(self).data_scene, ..*old(self) }),
            final(self).data_scene == (Scene { controls: final(self).data_scene.controls, ..old(self).data_scene }),
            field_written(
                old(self).data_scene.controls@,
                final(self).data_scene.controls@,
                text,
                ControlKind::Text,
                FPS_TAG,
            ),
    {
        self.data_scene.set_field_value(FieldValue::Text(text), ControlKind::Text, FPS_TAG);
    }

    /// React to input. Escape closes the application; pointer moves, presses,
    /// releases and wheel turns load the screen if needed and go to it; other input is ignored. A
    /// closed application only answers that the window should close.
    pub fn handle_event(&mut self, ev: InputEvent) -> (r: Response)
        requires
            old(self).wf(),
        ensures
            final(self).wf(),
            old(self).phase == Phase::Terminal ==> r == Response::Close && *final(self) == *old(self),
            old(self).phase != Phase::Terminal ==> {
                &&& (ev == InputEvent::KeyPressed(Key::Escape) ==> r == Response::Close
                    && *final(self) == (AppDelegate { phase: Phase::Terminal, ..*old(self) }))
                &&& (pointer_event(ev) matches Some((m, p)) ==> {
                    &&& r == Response::Continue
                    &&& final(self).phase == (if old(self).phase == Phase::Transitioning {
                        Phase::Transitioning
                    } else {
                        Phase::Running
                    })
                    &&& final(self).controller is AdViewer
                    &&& exists|v: AdViewer|
                        screen_reached(*old(self), v) && viewer_dispatched(
                            v,
                            final(self).controller->AdViewer_0,
                            m,
                            p,
                        )
                    &&& final(self).theme == old(self).theme
                    &&& final(self).data_scene == old(self).data_scene
                    &&& final(self).frames == old(self).frames
                    &&& final(self).screen == old(self).screen
                })
                &&& (ev != InputEvent::KeyPressed(Key::Escape) && pointer_event(ev) is None
                    ==> r == Response::Continue && *final(self) == *old(self))
            },
    {
        if self.phase == Phase::Terminal {
            return Response::Close;
        }
        match ev {
            InputEvent::KeyPressed(Key::Escape) => {
                self.phase = Phase::Terminal;
                Response::Close
            },
            InputEvent::MouseMoved(p) => {
                self.activate();
                let ghost v = self.controller->AdViewer_0;
                let _ = self.controller.handle_mouse(MouseEvent::At, p);
                proof {
                    assert(screen_reached(*old(self), v));
                }
                Response::Continue
            },
            InputEvent::MouseDown(p) => {
                self.activate();
                let ghost v = self.controller->AdViewer_0;
                let _ = self.controller.handle_mouse(MouseEvent::Down, p);
                proof {
                    assert(screen_reached(*old(self), v));
                }
                Response::Continue
            },
            InputEvent::MouseUp(p) => {
                self.activate();
                let ghost v = self.controller->AdViewer_0;
                let _ = self.controller.handle_mouse(MouseEvent::Up, p);
                proof {
                    assert(screen_reached(*old(self), v));
                }
                Response::Continue
            },
            InputEvent::MouseWheel(p) => {
                self.activate();
                let ghost v = self.controller->AdViewer_0;
                let _ = self.controller.handle_mouse(MouseEvent::Scroll, p);
                proof {
                    assert(screen_reached(*old(self), v));
                }
                Response::Continue
            },
            _ => Response::Continue,
        }
    }
}

} // verus!
