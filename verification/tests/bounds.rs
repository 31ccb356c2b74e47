use raytracer::geometry::bounds::Bounds2i;
use raytracer::geometry::Point2i;
use raytracer::integrator::{tile_id, TILE_SIZE};

fn bounds(x0: i32, y0: i32, x1: i32, y1: i32) -> Bounds2i {
    Bounds2i::with_bounds(Point2i::new(x0, y0), Point2i::new(x1, y1))
}

#[test]
fn points_run_row_by_row() {
    let b = bounds(2, 5, 5, 7);
    let want = vec![
        Point2i::new(2, 5),
        Point2i::new(3, 5),
        Point2i::new(4, 5),
        Point2i::new(2, 6),
        Point2i::new(3, 6),
        Point2i::new(4, 6),
    ];
    assert_eq!(b.points(), want);
    assert_eq!(b.pixel_count(), 6);
    assert_eq!(b.first_point(), Some(Point2i::new(2, 5)));
    assert_eq!(b.next_point(Point2i::new(4, 5)), Some(Point2i::new(2, 6)));
    assert_eq!(b.next_point(Point2i::new(3, 6)), Some(Point2i::new(4, 6)));
    assert_eq!(b.next_point(Point2i::new(4, 6)), None);
}

#[test]
fn an_empty_rectangle_has_no_points_and_no_tiles() {
    for b in [bounds(0, 0, 0, 10), bounds(0, 0, 10, 0), bounds(5, 5, 2, 9), bounds(3, 3, 3, 3)] {
        assert_eq!(b.pixel_count(), 0);
        assert_eq!(b.first_point(), None);
        assert!(b.points().is_empty());
        assert_eq!(b.tile_count(16), 0);
        assert!(b.tiles(16).is_empty());
    }
}

#[test]
fn is_inside_is_half_open() {
    let b = bounds(-1, -2, 3, 4);
    assert!(b.is_inside(Point2i::new(-1, -2)));
    assert!(b.is_inside(Point2i::new(2, 3)));
    assert!(!b.is_inside(Point2i::new(3, 3)));
    assert!(!b.is_inside(Point2i::new(2, 4)));
    assert!(!b.is_inside(Point2i::new(-2, 0)));
}

#[test]
fn tiles_of_an_image_that_is_no_multiple_of_the_tile_size() {
    let b = bounds(0, 0, 40, 20);
    assert_eq!(b.tile_count(16), 6);
    let tiles = b.tiles(16);
    let want = vec![
        bounds(0, 0, 16, 16),
        bounds(16, 0, 32, 16),
        bounds(32, 0, 40, 16),
        bounds(0, 16, 16, 20),
        bounds(16, 16, 32, 20),
        bounds(32, 16, 40, 20),
    ];
    assert_eq!(tiles, want);
    for (i, t) in want.iter().enumerate() {
        assert_eq!(b.nth_tile(16, i as u64), *t);
    }
}

#[test]
fn tiles_start_at_the_min_corner() {
    let b = bounds(-3, 7, 2, 10);
    let tiles = b.tiles(4);
    assert_eq!(tiles, vec![bounds(-3, 7, 1, 10), bounds(1, 7, 2, 10)]);
}

#[test]
fn every_pixel_lies_in_exactly_one_tile() {
    for (b, size) in [(bounds(0, 0, 37, 29), 16), (bounds(-5, 3, 12, 40), 7), (bounds(4, 4, 5, 5), 1), (bounds(0, 0, 64, 64), TILE_SIZE)] {
        let tiles = b.tiles(size);
        assert_eq!(tiles.len() as u64, b.tile_count(size));
        let mut covered: u64 = 0;
        for t in &tiles {
            assert!(t.pixel_count() > 0);
            assert!(t.max.x - t.min.x <= size && t.max.y - t.min.y <= size);
            covered += t.pixel_count();
            for p in t.points() {
                assert!(b.is_inside(p));
            }
        }
        assert_eq!(covered, b.pixel_count());
        for p in b.points() {
            let holders = tiles.iter().filter(|t| t.is_inside(p)).count();
            assert_eq!(holders, 1, "{:?}", p);
        }
    }
}

#[test]
fn tile_id_is_row_times_columns_plus_column() {
    let image = bounds(0, 0, 64, 64);
    assert_eq!(tile_id(bounds(0, 0, 16, 16), image, 16), 0);
    assert_eq!(tile_id(bounds(16, 0, 32, 16), image, 16), 1);
    assert_eq!(tile_id(bounds(0, 16, 16, 32), image, 16), 4);
    assert_eq!(tile_id(bounds(32, 16, 48, 32), image, 16), 6);
    assert_eq!(tile_id(bounds(48, 48, 64, 64), image, 16), 15);
    let wide = bounds(0, 0, 512, 512);
    assert_eq!(tile_id(bounds(496, 496, 512, 512), wide, TILE_SIZE), 31 * 32 + 31);
    let ragged = bounds(0, 0, 40, 20);
    assert_eq!(tile_id(bounds(32, 16, 40, 20), ragged, 16), 5);
}

#[test]
fn tile_id_counts_from_the_min_corner() {
    let image = bounds(-4, -4, 8, 8);
    assert_eq!(tile_id(bounds(-4, -4, -3, -3), image, 1), 0);
    assert_eq!(tile_id(bounds(4, 0, 5, 1), image, 1), 4 * 12 + 8);
    assert_eq!(tile_id(bounds(-4, 1, -3, 2), image, 1), 5 * 12);
    assert_eq!(tile_id(bounds(0, -4, 4, 0), image, 4), 1);
    assert_eq!(tile_id(bounds(4, 4, 8, 8), image, 4), 8);
}

#[test]
fn tile_id_of_a_tile_before_the_min_corner_wraps() {
    let image = bounds(0, 0, 8, 8);
    assert_eq!(tile_id(bounds(-4, 0, 0, 4), image, 4), (-1i64) as u64);
    assert_eq!(tile_id(bounds(0, -4, 4, 0), image, 4), (-2i64) as u64);
    assert_eq!(tile_id(bounds(-1, -1, 3, 3), image, 4), (-3i64) as u64);
}

#[test]
fn tile_id_does_not_overflow_on_a_huge_image() {
    let image = bounds(i32::MIN, i32::MIN, i32::MAX, i32::MAX);
    let tile = bounds(i32::MAX - 1, i32::MAX - 1, i32::MAX, i32::MAX);
    let side = u32::MAX as u64;
    assert_eq!(image.tile_column_count(1), side);
    assert_eq!(tile_id(tile, image, 1), (side - 1) * side + (side - 1));
    assert_eq!(tile_id(tile, image, i32::MAX), 2 * 3 + 2);
}

#[test]
fn the_id_of_a_tile_is_its_place_among_the_tiles() {
    for (b, size) in [
        (bounds(0, 0, 100, 70), 16),
        (bounds(3, -20, 45, 33), 5),
        (bounds(-4, -4, 8, 8), 1),
        (bounds(0, 0, 512, 512), TILE_SIZE),
    ] {
        let ids: Vec<u64> = b.tiles(size).iter().map(|t| tile_id(*t, b, size)).collect();
        let places: Vec<u64> = (0..ids.len() as u64).collect();
        assert_eq!(ids, places);
    }
}
