//! A dataset exploration library: a statistics engine that describes any
//! registered table column by column, and the single-owner dispatch core that
//! serializes commands against one execution context.
pub mod backend;
pub mod cli;
pub mod describe;
pub mod dispatch;
pub mod order;
pub mod schema;
