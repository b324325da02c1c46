//! A verified entity-update framework for a per-frame animation loop.
//!
//! A scene owns a small set of independently updating entities (disc-like
//! blobs). Each entity carries a geometry snapshot ([`physics::Physics`]),
//! an update rule ([`ticker::Ticker`]) and, for sprite-cycling rules,
//! persistent animation state ([`physics::Context`]). Once per logical tick
//! the scene advances every entity exactly once, in stable insertion order.
//!
//! Coordinates and velocities are fixed-point integers in hundredths of a
//! display unit, so every update the tickers perform is exact.
//!
//! Rasterisation of the entity geometries into pixel colors is the job of an
//! outside collaborator; this crate only assembles the RGBA buffer from the
//! colors it is handed ([`frame`]) and keeps the per-frame diagnostics
//! bookkeeping ([`diagnostics`]).

pub mod diagnostics;
pub mod frame;
pub mod physics;
pub mod scene;
pub mod ticker;
