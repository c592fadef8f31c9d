//! Decision logic of a binary-market trading node: order-book upkeep, fill reconciliation and the
//! life cycle of the single live position.

pub mod balance;
pub mod book;
pub mod bus;
pub mod decimal;
pub mod executor;
pub mod executor_laws;
pub mod feed_laws;
pub mod fixed;
pub mod live;
pub mod live_laws;
pub mod manager;
pub mod manager_laws;
pub mod market_feed;
pub mod node_laws;
pub mod orders;
pub mod position;
pub mod position_laws;
pub mod price_laws;
pub mod pricing;
pub mod session;
pub mod subscription;
pub mod text;
pub mod text_laws;
pub mod user_feed;
