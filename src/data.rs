//! What tiles are addressed by and what a data source produces.
use vstd::prelude::*;

use crate::timestamp::Interval;

verus! {

/// A node of the data source's hierarchy (a processor, a channel), as the
/// path of child indices that leads to it from the root.
#[derive(Debug, Clone, PartialEq, Eq, PartialOrd, Ord, Hash)]
pub struct EntryID {
    pub path: Vec<u64>,
}

impl View for EntryID {
    type V = Seq<u64>;

    open spec fn view(&self) -> Seq<u64> {
        self.path@
    }
}

/// One tile of an entry: the span of time it covers, at one level of detail.
#[derive(Debug, Copy, Clone, PartialEq, Eq, Structural, PartialOrd, Ord, Hash)]
pub struct TileID(pub Interval);

/// Static facts about a data source, fetched once by its consumers.
#[derive(Debug, Clone)]
pub struct DataSourceInfo {
    pub name: String,
    pub interval: Interval,
}

/// The summary of one entry over one tile; its content is opaque here.
#[derive(Debug, Clone)]
pub struct SummaryTile {
    pub entry_id: EntryID,
    pub tile_id: TileID,
    pub data: Vec<u8>,
}

/// The items of one slot entry over one tile.
#[derive(Debug, Clone)]
pub struct SlotTile {
    pub entry_id: EntryID,
    pub tile_id: TileID,
    pub data: Vec<u8>,
}

/// The metadata of the items of one slot entry over one tile.
#[derive(Debug, Clone)]
pub struct SlotMetaTile {
    pub entry_id: EntryID,
    pub tile_id: TileID,
    pub data: Vec<u8>,
}

/// A synchronous source of profile data: each call computes or reads its
/// result before it returns. A tile comes back under the key it was asked
/// for.
pub trait DataSource {
    /// What `fetch_info` gives in the source's present state. An impl that
    /// Verus checks defines it; for any other it stays unknown.
    closed spec fn info_of(&self) -> DataSourceInfo {
        arbitrary()
    }

    /// What `fetch_tile_set` gives in the source's present state.
    closed spec fn tile_set_of(&self) -> Vec<Vec<TileID>> {
        arbitrary()
    }

    /// What `fetch_summary_tile` gives for a key in the source's present state.
    closed spec fn summary_tile_of(&self, entry_id: Seq<u64>, tile_id: TileID) -> SummaryTile {
        arbitrary()
    }

    closed spec fn slot_tile_of(&self, entry_id: Seq<u64>, tile_id: TileID) -> SlotTile {
        arbitrary()
    }

    closed spec fn slot_meta_tile_of(&self, entry_id: Seq<u64>, tile_id: TileID) -> SlotMetaTile {
        arbitrary()
    }

    fn fetch_info(&mut self) -> (r: DataSourceInfo)
        ensures
            r == old(self).info_of(),
    ;

    /// For each level of detail, the tiles that cover the timeline at it.
    fn fetch_tile_set(&mut self) -> (r: Vec<Vec<TileID>>)
        ensures
            r == old(self).tile_set_of(),
    ;

    fn fetch_summary_tile(&mut self, entry_id: &EntryID, tile_id: TileID) -> (r: SummaryTile)
        ensures
            r == old(self).summary_tile_of(entry_id@, tile_id),
            r.entry_id@ == entry_id@,
            r.tile_id == tile_id,
    ;

    fn fetch_slot_tile(&mut self, entry_id: &EntryID, tile_id: TileID) -> (r: SlotTile)
        ensures
            r == old(self).slot_tile_of(entry_id@, tile_id),
            r.entry_id@ == entry_id@,
            r.tile_id == tile_id,
    ;

    fn fetch_slot_meta_tile(&mut self, entry_id: &EntryID, tile_id: TileID) -> (r: SlotMetaTile)
        ensures
            r == old(self).slot_meta_tile_of(entry_id@, tile_id),
            r.entry_id@ == entry_id@,
            r.tile_id == tile_id,
    ;
}

} // verus!
