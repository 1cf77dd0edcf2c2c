//! Named colour themes with a shared, lock-protected registry, and the state
//! of the side panels that are drawn with them.

pub mod assistant_panel;
pub mod decimal;
pub mod laws;
pub mod model;
pub mod notifications_panel;
pub mod panel;
pub mod registry;
pub mod state;
pub mod theme;
