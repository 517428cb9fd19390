//! Policy layer of a PostgreSQL-speaking connection proxy.
//!
//! Every client-submitted statement batch passes through a chain of policy
//! components before it reaches a backend. A component's pre-hook can allow,
//! deny, rewrite, or directly answer the batch; its post-hook observes the
//! backend's actual per-statement responses afterwards. The concrete
//! components here are a query result cache, which answers repeated
//! plan-inspection statements from shared state with a wire-exact synthesized
//! response, and a stateless audit logger.

pub mod ascii;
pub mod bytebuf;
pub mod messages;
pub mod plugins;
pub mod query_cache;
pub mod query_logger;
pub mod statement;

pub use plugins::{Error, Plugin, PluginOutput, PluginState};
pub use query_cache::{QueryCache, QueryCacheImpl};
pub use query_logger::QueryLogger;
pub use statement::Statement;
