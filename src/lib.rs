//! Fitting an RGBA picture inside a resizable window: the scaling
//! arithmetic, the resampled picture that is drawn, and the decisions a
//! display session makes on each window event.

pub mod fit;
pub mod picture;
pub mod session;
