//! A live-coding audio runtime: a handle-addressed arena of fundsp signal
//! graphs with live parameters, a command protocol that scripts call into, a
//! tempo-driven callback scheduler, an audio event table and the control-loop
//! state machine that ties them together.

pub mod network;
pub mod graph;
pub mod timer;
pub mod protocol;
pub mod dsp_command;
pub mod audio;
pub mod runner;
pub mod project;
