//! Decision and text logic of a push-to-talk and ambient speech-to-text tool:
//! the setup wizard's state machine and the command it builds, the ambient
//! interface's state, batching of captured audio into transcription windows,
//! the choice of device for loading the recognition model, and the text
//! handling around transcripts.
pub mod text;
pub mod theme;
pub mod mode;
pub mod keys;
pub mod wizard;
pub mod device;
pub mod whisper;
pub mod clock;
pub mod audio;
pub mod ambient;
pub mod cli;
