//! Market-data bookkeeping for a crypto trading dashboard: instruments and
//! timeframes, exchange stream names and request strings, message routing,
//! the pane registry of each layout and the application state around it,
//! axis time steps, latency averaging, bounded buffers and request signing.

pub mod text;
pub mod market;
pub mod charts;
pub mod bybit;
pub mod binance;
pub mod user_data;
pub mod screen;
pub mod dashboard;
pub mod latency;
pub mod series;
pub mod link;
pub mod ws_binance;
pub mod state;
