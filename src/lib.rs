//! A streaming ticker display: the rolling window of recent trade records,
//! the per-connection feed session that decides what to do with each inbound
//! event, the subscription text sent to the exchange, and the table rows
//! that render the window.

pub mod record;
pub mod window;
pub mod subscription;
pub mod catalog;
pub mod feed;
pub mod table;
