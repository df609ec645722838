//! Keyboard sound-effect engine.
//!
//! The library holds the verified per-tick logic of a keyboard-sounds
//! program: exact-set matching of key bindings, cycling through sound
//! packs with wraparound, once-per-press gating of actions, and the
//! cadence-sensitive pitch/volume derivation for playback. Fractional
//! quantities (volume, pitch, thresholds) are carried as fixed-point
//! integers in thousandths; time is carried as milliseconds.

pub mod controller;
pub mod matcher;
pub mod settings;
