//! Verified core of Automate, a recorder and player of keyboard and mouse
//! macros: key names, keyframe editing, the recorder's decisions, playback
//! decisions, the file session and the default shortcuts.

pub mod settings;
pub mod shortcuts;
pub mod icons;
pub mod keyframe;
pub mod keys;
pub mod playback;
pub mod recorder;
pub mod selection;
pub mod session;
pub mod uid;
pub mod archive;
pub mod sequencer;
pub mod laws;
