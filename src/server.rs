//! The request handlers of the tile server. Each one serves one request
//! against the shared data source; whoever holds the `AppState` has the
//! source to itself for the whole call, which is how requests are serialized.
use vstd::prelude::*;

use crate::data::{DataSource, DataSourceInfo, EntryID, SlotMetaTile, SlotTile, SummaryTile, TileID};

verus! {

/// The body of a tile request: which entry, and which of its tiles.
#[derive(Debug, Clone)]
pub struct FetchRequest {
    pub entry_id: EntryID,
    pub tile_id: TileID,
}

/// The one data source that every request is served from.
pub struct AppState<D: DataSource> {
    pub data_source: D,
}

/// Where the server listens, and what it serves.
pub struct DataSourceHTTPServer<D: DataSource> {
    pub host: String,
    pub port: u16,
    pub state: AppState<D>,
}

impl<D: DataSource> DataSourceHTTPServer<D> {
    pub fn new(host: String, port: u16, state: D) -> (r: Self)
        ensures
            r.host == host,
            r.port == port,
            r.state.data_source == state,
    {
        DataSourceHTTPServer { host, port, state: AppState { data_source: state } }
    }

    /// Serves `/info`.
    pub fn fetch_info(data: &mut AppState<D>) -> (r: DataSourceInfo)
        ensures
            r == old(data).data_source.info_of(),
    {
        data.data_source.fetch_info()
    }

    /// Serves `/tile_set`.
    pub fn fetch_tile_set(data: &mut AppState<D>) -> (r: Vec<Vec<TileID>>)
        ensures
            r == old(data).data_source.tile_set_of(),
    {
        data.data_source.fetch_tile_set()
    }

    /// Serves `/summary_tile`: the tile that the source gives for the key.
    pub fn fetch_summary_tile(info: &FetchRequest, data: &mut AppState<D>) -> (r: SummaryTile)
        ensures
            r == old(data).data_source.summary_tile_of(info.entry_id@, info.tile_id),
            r.entry_id@ == info.entry_id@,
            r.tile_id == info.tile_id,
    {
        data.data_source.fetch_summary_tile(&info.entry_id, info.tile_id)
    }

    /// Serves `/slot_tile`.
    pub fn fetch_slot_tile(info: &FetchRequest, data: &mut AppState<D>) -> (r: SlotTile)
        ensures
            r == old(data).data_source.slot_tile_of(info.entry_id@, info.tile_id),
            r.entry_id@ == info.entry_id@,
            r.tile_id == info.tile_id,
    {
        data.data_source.fetch_slot_tile(&info.entry_id, info.tile_id)
    }

    /// Serves `/slot_meta_tile`.
    pub fn fetch_slot_meta_tile(info: &FetchRequest, data: &mut AppState<D>) -> (r: SlotMetaTile)
        ensures
            r == old(data).data_source.slot_meta_tile_of(info.entry_id@, info.tile_id),
            r.entry_id@ == info.entry_id@,
            r.tile_id == info.tile_id,
    {
        data.data_source.fetch_slot_meta_tile(&info.entry_id, info.tile_id)
    }
}

} // verus!
