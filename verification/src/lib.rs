//! Core simulation of a two-paddle bouncing-ball rally.
//!
//! The library advances ball and paddle state once per frame, resolves wall
//! and paddle collisions, tracks per-player score together with its decimal
//! display text, and recomputes score-display anchors when the play area is
//! resized.  The hosting engine (window, rendering, font loading, raw key
//! polling, frame scheduling) is an external collaborator: it hands each
//! system plain values once per tick and writes the results back to the
//! screen.
//!
//! Units: every position, size and half-extent is an `i64` in *milli-units*
//! (one thousandth of a world unit); velocities are in world units per
//! second; elapsed frame time is in milliseconds.  With these units a frame
//! displacement `velocity * dt` is exact integer arithmetic, so every
//! contract below pins the resulting coordinates down to the milli-unit.
//!
//! Canonical policy choices (each documented where it is enforced):
//! - paddle speed is 300 units per second;
//! - bounces force the sign of one velocity component (sign-correcting),
//!   they never merely toggle it;
//! - only the first resize notification of a tick is applied;
//! - after a point is scored the ball keeps its velocity and only its
//!   position is recentered.

pub mod collision;
pub mod entities;
pub mod frame;
pub mod geom;
pub mod input;
pub mod movement;
pub mod resize;
pub mod scoring;
pub mod text;
