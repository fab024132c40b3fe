//! The engine of a digital picture frame: it walks the images of a directory
//! without end and shows them one at a time, with a crossfade from each image
//! to the next.
//!
//! * [`photos`] holds the photo source, which yields one reference to an image
//!   per request and starts over when the directory is used up.
//! * [`controller`] holds the transition controller, which decides on each
//!   tick of the host's timer what is shown and at which opacity.
//! * [`memory`] watches the memory of the process and words the figures.
//! * [`config`] decides which configuration is in force and where the photos
//!   are.
//! * [`ui`] holds the decisions between the slideshow and the toolkit.
//!
//! The library reads no file and draws no window. Its host lists directories,
//! runs the timer and renders what [`controller::TransitionController::tick`]
//! hands back.

pub mod config;
pub mod controller;
pub mod memory;
pub mod photos;
pub mod ui;
