//! A retained-mode scene graph for animated ad layouts: geometry, flexbox layout on
//! top of the `stretch` solver, tween animations, timelines, scenes, stages and the
//! ad viewer screen with its application delegate.

pub mod geom;
pub mod solver;
pub mod layout;
pub mod tween;
pub mod timeline;
pub mod scene;
pub mod stage;
pub mod ad;
pub mod theme;
pub mod teapot;
pub mod viewer;
pub mod controller;
pub mod delegate;
