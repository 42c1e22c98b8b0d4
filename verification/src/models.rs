//! Identifiers of the transcription models the service offers.

pub mod elevanlabs_models;
