//! Front door for a subtitle-hosting web service: decides, per incoming
//! connection, whether to serve plaintext or TLS, classifies TLS handshakes
//! as certificate-validation probes or ordinary traffic, and keeps the
//! certificate material fresh through a renewal state machine.  Also holds
//! the TMDB identifier and title-selection logic used by the service.

pub mod anilist;
pub mod bundle;
pub mod hello;
pub mod japanese;
pub mod lifecycle;
pub mod peek;
pub mod server;
pub mod text;
pub mod tmdb;
