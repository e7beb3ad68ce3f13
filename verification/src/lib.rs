//! Temperature plots: the state kept by the plotting front end, the
//! framing of the stats stream sent by the host-side server, and the
//! small counter widget shown above the plots.

pub mod stats;
pub mod plot;
pub mod app;
pub mod frame;
pub mod counter;

