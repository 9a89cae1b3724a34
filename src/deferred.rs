//! The deferred source contract: intents are submitted with `fetch_*` and
//! results are drained later with `get_*`, and neither side ever blocks.
use vstd::prelude::*;

use crate::data::{DataSource, DataSourceInfo, EntryID, SlotMetaTile, SlotTile, SummaryTile, TileID};

verus! {

/// A source whose results arrive some time after they were asked for.
///
/// `get_info` and `get_tile_sets` give `None` until the result is ready and
/// keep giving it afterwards. The tile getters hand over every tile that
/// completed since the last call, and an empty batch where none did.
pub trait DeferredDataSource {
    fn fetch_info(&mut self);

    fn get_info(&mut self) -> Option<DataSourceInfo>;

    fn fetch_tile_sets(&mut self);

    fn get_tile_sets(&mut self) -> Option<Vec<Vec<TileID>>>;

    fn fetch_summary_tile(&mut self, entry_id: &EntryID, tile_id: TileID);

    fn get_summary_tiles(&mut self) -> Vec<SummaryTile>;

    fn fetch_slot_tile(&mut self, entry_id: &EntryID, tile_id: TileID);

    fn get_slot_tiles(&mut self) -> Vec<SlotTile>;

    fn fetch_slot_meta_tile(&mut self, entry_id: &EntryID, tile_id: TileID);

    fn get_slot_meta_tiles(&mut self) -> Vec<SlotMetaTile>;
}

/// A tile buffer after one more tile for `(entry_id, tile_id)` came in.
pub open spec fn summary_appended(
    before: Seq<SummaryTile>,
    after: Seq<SummaryTile>,
    entry_id: Seq<u64>,
    tile_id: TileID,
) -> bool {
    &&& after.len() == before.len() + 1
    &&& after.take(before.len() as int) == before
    &&& after.last().entry_id@ == entry_id
    &&& after.last().tile_id == tile_id
}

pub open spec fn slot_appended(
    before: Seq<SlotTile>,
    after: Seq<SlotTile>,
    entry_id: Seq<u64>,
    tile_id: TileID,
) -> bool {
    &&& after.len() == before.len() + 1
    &&& after.take(before.len() as int) == before
    &&& after.last().entry_id@ == entry_id
    &&& after.last().tile_id == tile_id
}

pub open spec fn slot_meta_appended(
    before: Seq<SlotMetaTile>,
    after: Seq<SlotMetaTile>,
    entry_id: Seq<u64>,
    tile_id: TileID,
) -> bool {
    &&& after.len() == before.len() + 1
    &&& after.take(before.len() as int) == before
    &&& after.last().entry_id@ == entry_id
    &&& after.last().tile_id == tile_id
}

/// A drain: the batch is everything that was buffered, and the buffer is
/// left empty.
pub open spec fn drained<T>(before: Seq<T>, after: Seq<T>, batch: Seq<T>) -> bool {
    batch == before && after.len() == 0
}

/// Draining hands each batch over once: a drain right after another drain
/// is empty, and a drain of a buffer that nothing was fetched into is empty.
pub proof fn lemma_drain_twice<T>(b0: Seq<T>, b1: Seq<T>, b2: Seq<T>, r1: Seq<T>, r2: Seq<T>)
    requires
        drained(b0, b1, r1),
        drained(b1, b2, r2),
    ensures
        r1 == b0,
        b0.len() == 0 ==> r1.len() == 0,
        r2.len() == 0,
        b2.len() == 0,
{
}

/// One summary tile fetched into an empty buffer and then drained: the
/// batch is exactly the tile that the source gives for that key, and the
/// buffer is empty again.
pub proof fn lemma_fetch_then_drain<D: DataSource>(
    source: D,
    b0: Seq<SummaryTile>,
    b1: Seq<SummaryTile>,
    b2: Seq<SummaryTile>,
    r: Seq<SummaryTile>,
    entry_id: Seq<u64>,
    tile_id: TileID,
)
    requires
        b0.len() == 0,
        b1 == b0.push(source.summary_tile_of(entry_id, tile_id)),
        drained(b1, b2, r),
    ensures
        r == seq![source.summary_tile_of(entry_id, tile_id)],
        b2.len() == 0,
{
    assert(r =~= seq![source.summary_tile_of(entry_id, tile_id)]);
}

/// Nothing is lost or handed over twice across drains: the batches of two
/// drains, with the tiles `xs` fetched in between, are together what was
/// buffered before the first drain followed by `xs`.
pub proof fn lemma_batches_concatenate<T>(
    b0: Seq<T>,
    b1: Seq<T>,
    b2: Seq<T>,
    b3: Seq<T>,
    xs: Seq<T>,
    r1: Seq<T>,
    r2: Seq<T>,
)
    requires
        drained(b0, b1, r1),
        b2 == b1 + xs,
        drained(b2, b3, r2),
    ensures
        r1 + r2 == b0 + xs,
        b3.len() == 0,
{
    assert(b2 =~= xs);
}

/// Serves the deferred contract from a synchronous data source: each tile
/// intent is resolved at once and buffered until the next drain, and the
/// info and the tile sets are computed afresh whenever they are asked for.
pub struct DeferredDataSourceWrapper<D: DataSource> {
    data_source: D,
    summary_tiles: Vec<SummaryTile>,
    slot_tiles: Vec<SlotTile>,
    slot_meta_tiles: Vec<SlotMetaTile>,
}

impl<D: DataSource> DeferredDataSourceWrapper<D> {
    /// The data source that intents are resolved against.
    pub closed spec fn source(&self) -> D {
        self.data_source
    }

    /// Summary tiles that were fetched and not yet drained, oldest first.
    pub closed spec fn pending_summary(&self) -> Seq<SummaryTile> {
        self.summary_tiles@
    }

    pub closed spec fn pending_slot(&self) -> Seq<SlotTile> {
        self.slot_tiles@
    }

    pub closed spec fn pending_slot_meta(&self) -> Seq<SlotMetaTile> {
        self.slot_meta_tiles@
    }

    pub fn new(data_source: D) -> (r: Self)
        ensures
            r.source() == data_source,
            r.pending_summary().len() == 0,
            r.pending_slot().len() == 0,
            r.pending_slot_meta().len() == 0,
    {
        DeferredDataSourceWrapper {
            data_source,
            summary_tiles: Vec::new(),
            slot_tiles: Vec::new(),
            slot_meta_tiles: Vec::new(),
        }
    }
}

impl<D: DataSource> DeferredDataSource for DeferredDataSourceWrapper<D> {
    fn fetch_info(&mut self)
        ensures
            *final(self) == *old(self),
    {
    }

    fn get_info(&mut self) -> (r: Option<DataSourceInfo>)
        ensures
            r == Some(old(self).source().info_of()),
            final(self).pending_summary() == old(self).pending_summary(),
            final(self).pending_slot() == old(self).pending_slot(),
            final(self).pending_slot_meta() == old(self).pending_slot_meta(),
    {
        Some(self.data_source.fetch_info())
    }

    fn fetch_tile_sets(&mut self)
        ensures
            *final(self) == *old(self),
    {
    }

    fn get_tile_sets(&mut self) -> (r: Option<Vec<Vec<TileID>>>)
        ensures
            r == Some(old(self).source().tile_set_of()),
            final(self).pending_summary() == old(self).pending_summary(),
            final(self).pending_slot() == old(self).pending_slot(),
            final(self).pending_slot_meta() == old(self).pending_slot_meta(),
    {
        Some(self.data_source.fetch_tile_set())
    }

    fn fetch_summary_tile(&mut self, entry_id: &EntryID, tile_id: TileID)
        ensures
            final(self).pending_summary() == old(self).pending_summary().push(
                old(self).source().summary_tile_of(entry_id@, tile_id),
            ),
            summary_appended(
                old(self).pending_summary(),
                final(self).pending_summary(),
                entry_id@,
                tile_id,
            ),
            final(self).pending_slot() == old(self).pending_slot(),
            final(self).pending_slot_meta() == old(self).pending_slot_meta(),
    {
        let tile = self.data_source.fetch_summary_tile(entry_id, tile_id);
        self.summary_tiles.push(tile);
        assert(self.summary_tiles@.take(old(self).summary_tiles@.len() as int)
            =~= old(self).summary_tiles@);
    }

    fn get_summary_tiles(&mut self) -> (r: Vec<SummaryTile>)
        ensures
            drained(old(self).pending_summary(), final(self).pending_summary(), r@),
            final(self).pending_slot() == old(self).pending_slot(),
            final(self).pending_slot_meta() == old(self).pending_slot_meta(),
            final(self).source() == old(self).source(),
    {
        let mut batch = Vec::new();
        std::mem::swap(&mut batch, &mut self.summary_tiles);
        batch
    }

    fn fetch_slot_tile(&mut self, entry_id: &EntryID, tile_id: TileID)
        ensures
            final(self).pending_slot() == old(self).pending_slot().push(
                old(self).source().slot_tile_of(entry_id@, tile_id),
            ),
            slot_appended(old(self).pending_slot(), final(self).pending_slot(), entry_id@, tile_id),
            final(self).pending_summary() == old(self).pending_summary(),
            final(self).pending_slot_meta() == old(self).pending_slot_meta(),
    {
        let tile = self.data_source.fetch_slot_tile(entry_id, tile_id);
        self.slot_tiles.push(tile);
        assert(self.slot_tiles@.take(old(self).slot_tiles@.len() as int) =~= old(self).slot_tiles@);
    }

    fn get_slot_tiles(&mut self) -> (r: Vec<SlotTile>)
        ensures
            drained(old(self).pending_slot(), final(self).pending_slot(), r@),
            final(self).pending_summary() == old(self).pending_summary(),
            final(self).pending_slot_meta() == old(self).pending_slot_meta(),
            final(self).source() == old(self).source(),
    {
        let mut batch = Vec::new();
        std::mem::swap(&mut batch, &mut self.slot_tiles);
        batch
    }

    fn fetch_slot_meta_tile(&mut self, entry_id: &EntryID, tile_id: TileID)
        ensures
            final(self).pending_slot_meta() == old(self).pending_slot_meta().push(
                old(self).source().slot_meta_tile_of(entry_id@, tile_id),
            ),
            slot_meta_appended(
                old(self).pending_slot_meta(),
                final(self).pending_slot_meta(),
                entry_id@,
                tile_id,
            ),
            final(self).pending_summary() == old(self).pending_summary(),
            final(self).pending_slot() == old(self).pending_slot(),
    {
        let tile = self.data_source.fetch_slot_meta_tile(entry_id, tile_id);
        self.slot_meta_tiles.push(tile);
        assert(self.slot_meta_tiles@.take(old(self).slot_meta_tiles@.len() as int)
            =~= old(self).slot_meta_tiles@);
    }

    fn get_slot_meta_tiles(&mut self) -> (r: Vec<SlotMetaTile>)
        ensures
            drained(old(self).pending_slot_meta(), final(self).pending_slot_meta(), r@),
            final(self).pending_summary() == old(self).pending_summary(),
            final(self).pending_slot() == old(self).pending_slot(),
            final(self).source() == old(self).source(),
    {
        let mut batch = Vec::new();
        std::mem::swap(&mut batch, &mut self.slot_meta_tiles);
        batch
    }
}

} // verus!
