//! A garden of growing plants whose state is held by the client and kept honest
//! by a server-side signature over the plot.

pub mod error;
pub mod infra;
pub mod plants;
pub mod sow;
