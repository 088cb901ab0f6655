//! Verified core logic of a dictation assistant: prompt assembly and
//! post-processing decisions, the recent-insertion undo state, the
//! recent-context memory and the interim preview scheduler.

pub mod text;
pub mod post_process_context;
pub mod actions;
pub mod recent_transcription_undo;
pub mod interim_transcription;
pub mod managers;
