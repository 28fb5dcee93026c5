//! Glue between a game engine and the FMOD Studio audio engine: where sound
//! banks are loaded from, how the studio system is initialised, and in which
//! order the steps of bringing the studio system up and of building an audio
//! source are taken, and what follows when one of them fails.
pub mod audio_source;
pub mod bank_paths;
pub mod path_ops;
pub mod studio_setup;
