//! Deferred fetching of timeline tiles: the interval algebra that addresses
//! tiles, the identities of entries and tiles, the deferred source contract
//! with its local wrapper, and the request handlers of the tile server.
pub mod data;
pub mod deferred;
pub mod format;
pub mod parse;
pub mod server;
pub mod timestamp;

pub use data::{DataSource, DataSourceInfo, EntryID, SlotMetaTile, SlotTile, SummaryTile, TileID};
pub use deferred::{DeferredDataSource, DeferredDataSourceWrapper};
pub use server::{AppState, DataSourceHTTPServer, FetchRequest};
pub use timestamp::{Interval, IntervalParseError, Timestamp};
