use milkywm::layout::{compute_tiles, configure_reply, LayoutMode, Rect};

#[test]
fn horiz_split_two() {
    let area = Rect::new(0, 0, 1920, 1080);
    let tiles = compute_tiles(2, area, LayoutMode::HorizSplit);
    assert_eq!(tiles.len(), 2);
    assert_eq!(tiles[0], Rect::new(0, 0, 960, 1080));
    assert_eq!(tiles[1], Rect::new(960, 0, 960, 1080));
}

#[test]
fn vert_split_three() {
    let area = Rect::new(0, 0, 1920, 1080);
    let tiles = compute_tiles(3, area, LayoutMode::VertSplit);
    assert_eq!(tiles.len(), 3);
    assert_eq!(tiles[0].h, 360);
    assert_eq!(tiles[1].h, 360);
    assert_eq!(tiles[2].h + tiles[2].y, 1080); // last tile fills remainder
}

#[test]
fn monocle_ignores_count() {
    let area = Rect::new(0, 0, 1920, 1080);
    let tiles = compute_tiles(5, area, LayoutMode::Monocle);
    assert_eq!(tiles.len(), 1);
    assert_eq!(tiles[0], area);
}

#[test]
fn no_window_no_tile() {
    let area = Rect::new(0, 0, 1920, 1080);
    assert!(compute_tiles(0, area, LayoutMode::HorizSplit).is_empty());
    assert!(compute_tiles(0, area, LayoutMode::Monocle).is_empty());
}

#[test]
fn single_window_fills_area_in_any_mode() {
    let area = Rect::new(10, 20, 300, 200);
    assert_eq!(compute_tiles(1, area, LayoutMode::HorizSplit), vec![area]);
    assert_eq!(compute_tiles(1, area, LayoutMode::VertSplit), vec![area]);
}

#[test]
fn horiz_split_last_tile_takes_remainder() {
    let area = Rect::new(5, 7, 100, 50);
    let tiles = compute_tiles(3, area, LayoutMode::HorizSplit);
    assert_eq!(
        tiles,
        vec![Rect::new(5, 7, 33, 50), Rect::new(38, 7, 33, 50), Rect::new(71, 7, 34, 50)]
    );
}

#[test]
fn split_tiles_cover_area_without_gaps() {
    let area = Rect::new(-40, 3, 1001, 777);
    for count in 2..12usize {
        let tiles = compute_tiles(count, area, LayoutMode::HorizSplit);
        assert_eq!(tiles.len(), count);
        assert_eq!(tiles[0].x, area.x);
        for i in 0..count - 1 {
            assert_eq!(tiles[i + 1].x, tiles[i].x + tiles[i].w);
            assert_eq!(tiles[i].w, tiles[0].w);
        }
        let last = tiles[count - 1];
        assert_eq!(last.x + last.w, area.x + area.w);
        let tiles = compute_tiles(count, area, LayoutMode::VertSplit);
        assert_eq!(tiles[0].y, area.y);
        for i in 0..count - 1 {
            assert_eq!(tiles[i + 1].y, tiles[i].y + tiles[i].h);
        }
        let last = tiles[count - 1];
        assert_eq!(last.y + last.h, area.y + area.h);
        assert!(tiles.iter().all(|t| t.x == area.x && t.w == area.w));
    }
}

#[test]
fn narrow_area_gives_zero_width_tiles_then_remainder() {
    let area = Rect::new(0, 0, 2, 10);
    let tiles = compute_tiles(3, area, LayoutMode::HorizSplit);
    assert_eq!(tiles, vec![Rect::new(0, 0, 0, 10), Rect::new(0, 0, 0, 10), Rect::new(0, 0, 2, 10)]);
}

#[test]
fn negative_width_divides_toward_zero() {
    let area = Rect::new(0, 0, -7, 10);
    let tiles = compute_tiles(2, area, LayoutMode::HorizSplit);
    assert_eq!(tiles, vec![Rect::new(0, 0, -3, 10), Rect::new(-3, 0, -4, 10)]);
}

#[test]
fn configure_reply_prefers_tile() {
    let tile = Rect::new(960, 0, 960, 1080);
    let current = Rect::new(5, 6, 300, 200);
    assert_eq!(configure_reply(Some(tile), Some(1), Some(2), Some(3), Some(4), current), tile);
}

#[test]
fn configure_reply_honours_request() {
    let current = Rect::new(5, 6, 300, 200);
    assert_eq!(configure_reply(None, Some(10), None, Some(640), None, current), Rect::new(10, 6, 640, 200));
    assert_eq!(configure_reply(None, None, None, None, None, current), current);
    assert_eq!(configure_reply(None, None, Some(-3), None, Some(u32::MAX), current), Rect::new(5, -3, 300, -1));
}

#[test]
fn vertical_split_is_horizontal_split_with_axes_swapped() {
    let swap = |r: Rect| Rect::new(r.y, r.x, r.h, r.w);
    let area = Rect::new(10, 20, 1920, 1081);
    let vert = compute_tiles(3, area, LayoutMode::VertSplit);
    let horiz: Vec<Rect> = compute_tiles(3, swap(area), LayoutMode::HorizSplit).into_iter().map(swap).collect();
    assert_eq!(vert, horiz);
}
