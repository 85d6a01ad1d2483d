//! Options one backend has and the other cannot.
//!
//! Kept out of the cross-platform API on purpose: a knob that silently
//! does nothing on half your targets is worse than one you have to ask
//! for by name.
pub mod native;
