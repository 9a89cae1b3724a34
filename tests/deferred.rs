use prof_tiles::{
    AppState, DataSource, DataSourceHTTPServer, DataSourceInfo, DeferredDataSource,
    DeferredDataSourceWrapper, EntryID, FetchRequest, Interval, SlotMetaTile, SlotTile,
    SummaryTile, TileID, Timestamp,
};

struct CountingSource {
    calls: u64,
}

impl DataSource for CountingSource {
    fn fetch_info(&mut self) -> DataSourceInfo {
        self.calls += 1;
        DataSourceInfo {
            name: "counting".to_string(),
            interval: Interval::new(Timestamp(0), Timestamp(1_000)),
        }
    }

    fn fetch_tile_set(&mut self) -> Vec<Vec<TileID>> {
        self.calls += 1;
        vec![
            vec![TileID(Interval::new(Timestamp(0), Timestamp(1_000)))],
            vec![
                TileID(Interval::new(Timestamp(0), Timestamp(500))),
                TileID(Interval::new(Timestamp(500), Timestamp(1_000))),
            ],
        ]
    }

    fn fetch_summary_tile(&mut self, entry_id: &EntryID, tile_id: TileID) -> SummaryTile {
        self.calls += 1;
        SummaryTile { entry_id: entry_id.clone(), tile_id, data: vec![1, self.calls as u8] }
    }

    fn fetch_slot_tile(&mut self, entry_id: &EntryID, tile_id: TileID) -> SlotTile {
        self.calls += 1;
        SlotTile { entry_id: entry_id.clone(), tile_id, data: vec![2, self.calls as u8] }
    }

    fn fetch_slot_meta_tile(&mut self, entry_id: &EntryID, tile_id: TileID) -> SlotMetaTile {
        self.calls += 1;
        SlotMetaTile { entry_id: entry_id.clone(), tile_id, data: vec![3, self.calls as u8] }
    }
}

fn tile(start: i64, stop: i64) -> TileID {
    TileID(Interval::new(Timestamp(start), Timestamp(stop)))
}

fn entry(path: &[u64]) -> EntryID {
    EntryID { path: path.to_vec() }
}

#[test]
fn drain_before_fetch_is_empty() {
    let mut w = DeferredDataSourceWrapper::new(CountingSource { calls: 0 });
    assert!(w.get_summary_tiles().is_empty());
    assert!(w.get_slot_tiles().is_empty());
    assert!(w.get_slot_meta_tiles().is_empty());
}

#[test]
fn drain_twice_hands_batch_over_once() {
    let mut w = DeferredDataSourceWrapper::new(CountingSource { calls: 0 });
    w.fetch_summary_tile(&entry(&[0, 1]), tile(0, 500));
    let first = w.get_summary_tiles();
    assert_eq!(first.len(), 1);
    assert!(w.get_summary_tiles().is_empty());
}

#[test]
fn fetch_then_drain_gives_the_tile_asked_for() {
    let mut w = DeferredDataSourceWrapper::new(CountingSource { calls: 0 });
    let e = entry(&[3, 4]);
    let t = tile(500, 1_000);
    w.fetch_summary_tile(&e, t);
    let batch = w.get_summary_tiles();
    assert_eq!(batch.len(), 1);
    assert_eq!(batch[0].entry_id, e);
    assert_eq!(batch[0].tile_id, t);
    assert!(w.get_summary_tiles().is_empty());
}

#[test]
fn kinds_are_buffered_apart() {
    let mut w = DeferredDataSourceWrapper::new(CountingSource { calls: 0 });
    let e = entry(&[1]);
    w.fetch_slot_tile(&e, tile(0, 10));
    w.fetch_slot_tile(&e, tile(10, 20));
    w.fetch_slot_meta_tile(&e, tile(0, 10));
    assert!(w.get_summary_tiles().is_empty());
    let slots = w.get_slot_tiles();
    assert_eq!(slots.len(), 2);
    assert_eq!(slots[0].tile_id, tile(0, 10));
    assert_eq!(slots[1].tile_id, tile(10, 20));
    let metas = w.get_slot_meta_tiles();
    assert_eq!(metas.len(), 1);
    assert_eq!(metas[0].data, vec![3, 3]);
    assert!(w.get_slot_tiles().is_empty());
    assert!(w.get_slot_meta_tiles().is_empty());
}

#[test]
fn duplicate_fetches_are_all_delivered() {
    let mut w = DeferredDataSourceWrapper::new(CountingSource { calls: 0 });
    let e = entry(&[7]);
    w.fetch_summary_tile(&e, tile(0, 10));
    w.fetch_summary_tile(&e, tile(0, 10));
    assert_eq!(w.get_summary_tiles().len(), 2);
}

#[test]
fn info_and_tile_sets_are_always_ready() {
    let mut w = DeferredDataSourceWrapper::new(CountingSource { calls: 0 });
    w.fetch_info();
    w.fetch_tile_sets();
    let info = w.get_info().unwrap();
    assert_eq!(info.name, "counting");
    assert!(w.get_info().is_some());
    let sets = w.get_tile_sets().unwrap();
    assert_eq!(sets.len(), 2);
    assert_eq!(sets[1].len(), 2);
}

#[test]
fn server_handlers_serve_the_source() {
    let mut server = DataSourceHTTPServer::new("127.0.0.1".to_string(), 8080, CountingSource { calls: 0 });
    assert_eq!(server.host, "127.0.0.1");
    assert_eq!(server.port, 8080);
    let state: &mut AppState<CountingSource> = &mut server.state;
    let req = FetchRequest { entry_id: entry(&[2, 0]), tile_id: tile(0, 100) };
    let s = DataSourceHTTPServer::fetch_summary_tile(&req, state);
    assert_eq!(s.entry_id, req.entry_id);
    assert_eq!(s.tile_id, req.tile_id);
    assert_eq!(s.data, vec![1, 1]);
    let t = DataSourceHTTPServer::fetch_slot_tile(&req, state);
    assert_eq!(t.data, vec![2, 2]);
    let m = DataSourceHTTPServer::fetch_slot_meta_tile(&req, state);
    assert_eq!(m.tile_id, req.tile_id);
    assert_eq!(DataSourceHTTPServer::fetch_info(state).name, "counting");
    assert_eq!(DataSourceHTTPServer::fetch_tile_set(state)[0].len(), 1);
    assert_eq!(state.data_source.calls, 5);
}
