//! Questions asked before an action that cannot be undone.
pub mod cancel;
