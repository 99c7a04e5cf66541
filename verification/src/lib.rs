//! Core state machine of a minimal GPU-windowed application: surface
//! lifecycle (configuration derived from advertised capabilities,
//! reconfiguration on resize or loss) and per-event dispatch (close,
//! resize, redraw, and the acquisition-outcome table).
pub mod dispatch;
pub mod surface;
