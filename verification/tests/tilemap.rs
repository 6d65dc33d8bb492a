use egor::tilemap::{visible_tiles, TiledTileset, TilesetInfo, TilesetTable};

#[test]
fn tileset_info_computes_tiles_per_row() {
    let info = TilesetInfo::new(3, 1, 16, 16, 128, 64);
    assert_eq!(info.per_row, 8);
    assert_eq!(TilesetInfo::new(0, 1, 0, 16, 128, 64).per_row, 128);
    // gid 1 is the first tile, gid 10 is the second tile of the second row
    assert_eq!(info.tile_origin(1), (0, 0));
    assert_eq!(info.tile_origin(10), (16, 16));
}

#[test]
fn gid_belongs_to_greatest_first_gid_not_above_it() {
    let mut t = TilesetTable::new();
    assert_eq!(t.lookup(5), None);
    t.insert(TilesetInfo::new(0, 1, 16, 16, 64, 64));
    t.insert(TilesetInfo::new(1, 17, 16, 16, 64, 64));
    t.insert(TilesetInfo::new(2, 40, 8, 8, 64, 64));
    assert_eq!(t.lookup(0), None);
    assert_eq!(t.lookup(1).unwrap().tex_id, 0);
    assert_eq!(t.lookup(16).unwrap().tex_id, 0);
    assert_eq!(t.lookup(17).unwrap().tex_id, 1);
    assert_eq!(t.lookup(39).unwrap().tex_id, 1);
    assert_eq!(t.lookup(1000).unwrap().tex_id, 2);
    // a tileset with the same first id replaces the earlier one
    t.insert(TilesetInfo::new(9, 17, 16, 16, 64, 64));
    assert_eq!(t.lookup(20).unwrap().tex_id, 9);
}

#[test]
fn visible_tiles_row_by_row_skipping_empty() {
    // 3 x 3 layer
    let data = [1, 0, 2, 0, 3, 0, 4, 5, 0];
    assert_eq!(
        visible_tiles(&data, 3, 0, 3, 0, 3),
        vec![(0, 0, 1), (2, 0, 2), (1, 1, 3), (0, 2, 4), (1, 2, 5)]
    );
    assert_eq!(visible_tiles(&data, 3, 1, 2, 1, 3), vec![(1, 1, 3), (1, 2, 5)]);
    assert!(visible_tiles(&data, 3, 2, 2, 0, 3).is_empty());
}

#[test]
fn tiled_tileset_fields() {
    let ts = TiledTileset {
        firstgid: 1,
        image: Some("atlas.png".to_string()),
        tilecount: Some(64),
        tilewidth: Some(16),
        tileheight: Some(16),
    };
    assert_eq!(ts.firstgid, 1);
    assert_eq!(ts.image.as_deref(), Some("atlas.png"));
}
