//! State, event handling and font setup of a small immediate-mode desktop
//! application, with the drawing itself left to the host toolkit.
pub mod caption;
pub mod fonts;
pub mod state;
pub mod template;
