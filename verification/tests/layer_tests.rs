use layers::buffers::BufferRequest;
use layers::content_age::ContentAge;
use layers::geometry::{identity, Color, Matrix4, Point2D, Rect, Scalar, Size2D};
use layers::layers::Layer;

fn scalar(value: f32) -> Scalar {
    Scalar::from_bits(value.to_bits())
}

fn number(s: Scalar) -> f32 {
    f32::from_bits(s.to_bits())
}

fn layer_rect(x: f32, y: f32, w: f32, h: f32) -> Rect<Scalar> {
    Rect::new(Point2D::new(scalar(x), scalar(y)), Size2D::new(scalar(w), scalar(h)))
}

fn white() -> Color {
    Color { r: scalar(1.0), g: scalar(1.0), b: scalar(1.0), a: scalar(1.0) }
}

fn layer(name: &'static str) -> Layer<&'static str> {
    Layer::new(layer_rect(10.0, 20.0, 800.0, 600.0), 256, white(), scalar(0.5), name)
}

fn names(parent: &Layer<&'static str>) -> Vec<&'static str> {
    parent.children.iter().map(|c| c.extra_data).collect()
}

fn age_after(times: usize) -> ContentAge {
    let mut age = ContentAge::new();
    for _ in 0..times {
        age.next();
    }
    age
}

/// The tiles of edge `tile` that cover `width` by `height` device pixels,
/// column by column, with the page rectangle of each at scale one.
fn grid(width: usize, height: usize, tile: usize) -> Vec<(Rect<usize>, Rect<Scalar>)> {
    let mut tiles = Vec::new();
    let mut x = 0;
    while x < width {
        let w = tile.min(width - x);
        let mut y = 0;
        while y < height {
            let h = tile.min(height - y);
            tiles.push((
                Rect::new(Point2D::new(x, y), Size2D::new(w, h)),
                layer_rect(x as f32, y as f32, w as f32, h as f32),
            ));
            y += tile;
        }
        x += tile;
    }
    tiles
}

#[test]
fn scalar_constants_are_zero_and_one() {
    assert_eq!(number(Scalar::zero()), 0.0);
    assert_eq!(number(Scalar::one()), 1.0);
    assert_eq!(Scalar::zero().to_bits(), 0);
    assert_eq!(Scalar::one().to_bits(), 0x3F80_0000);
    assert_eq!(Scalar::from_bits(0x4000_0000).to_bits(), 0x4000_0000);
    assert_eq!(number(Scalar::from_bits(0x4000_0000)), 2.0);
}

#[test]
fn identity_has_ones_on_the_diagonal_only() {
    let m: Matrix4 = identity();
    let rows = [
        [m.m11, m.m12, m.m13, m.m14],
        [m.m21, m.m22, m.m23, m.m24],
        [m.m31, m.m32, m.m33, m.m34],
        [m.m41, m.m42, m.m43, m.m44],
    ];
    for (i, row) in rows.iter().enumerate() {
        for (j, entry) in row.iter().enumerate() {
            let expected: f32 = if i == j { 1.0 } else { 0.0 };
            assert_eq!(number(*entry), expected);
            assert_eq!(entry.to_bits(), expected.to_bits());
        }
    }
}

#[test]
fn new_layer_starts_at_age_zero() {
    let l = layer("root");
    assert_eq!(l.content_age, ContentAge::new());
}

#[test]
fn new_layer_has_the_documented_defaults() {
    let l = layer("root");
    assert!(l.children.is_empty());
    assert_eq!(l.transform, identity());
    assert_eq!(l.bounds, layer_rect(10.0, 20.0, 800.0, 600.0));
    assert_eq!(l.tile_size, 256);
    assert_eq!(l.extra_data, "root");
    assert_eq!(l.content_offset, Point2D::new(scalar(0.0), scalar(0.0)));
    assert!(!l.masks_to_bounds);
    assert_eq!(l.background_color, white());
    assert_eq!(number(l.opacity), 0.5);
}

#[test]
fn contents_changed_counts_every_call() {
    for n in [0usize, 1, 2, 5, 17] {
        let mut l = layer("root");
        for _ in 0..n {
            l.contents_changed();
        }
        assert_eq!(l.content_age, age_after(n));
    }
}

#[test]
fn contents_changed_goes_on_from_any_age() {
    let mut l = layer("root");
    for _ in 0..3 {
        l.contents_changed();
    }
    let v = l.content_age;
    for _ in 0..4 {
        let before = l.content_age;
        l.contents_changed();
        assert!(before < l.content_age);
    }
    assert!(v < l.content_age);
    assert_eq!(l.content_age, age_after(7));
}

#[test]
fn contents_changed_touches_nothing_else() {
    let mut l = layer("root");
    l.add_child(layer("a"));
    l.contents_changed();
    assert_eq!(names(&l), vec!["a"]);
    assert_eq!(l.children[0].content_age, ContentAge::new());
    assert_eq!(l.transform, identity());
    assert_eq!(l.bounds, layer_rect(10.0, 20.0, 800.0, 600.0));
    assert_eq!(l.tile_size, 256);
    assert_eq!(l.extra_data, "root");
    assert_eq!(l.content_offset, Point2D::new(scalar(0.0), scalar(0.0)));
    assert!(!l.masks_to_bounds);
    assert_eq!(l.background_color, white());
    assert_eq!(l.opacity, scalar(0.5));
}

#[test]
fn children_keep_the_order_in_which_they_came() {
    let mut root = layer("root");
    root.add_child(layer("a"));
    root.add_child(layer("b"));
    root.add_child(layer("c"));
    assert_eq!(names(&root), vec!["a", "b", "c"]);
    root.remove_child_at_index(1);
    assert_eq!(names(&root), vec!["a", "c"]);
}

#[test]
fn removing_the_first_and_the_last_child() {
    let mut root = layer("root");
    for name in ["a", "b", "c", "d"] {
        root.add_child(layer(name));
    }
    root.remove_child_at_index(0);
    assert_eq!(names(&root), vec!["b", "c", "d"]);
    root.remove_child_at_index(2);
    assert_eq!(names(&root), vec!["b", "c"]);
    root.remove_child_at_index(0);
    root.remove_child_at_index(0);
    assert!(root.children.is_empty());
}

#[test]
fn adding_and_removing_children_leaves_the_parent_as_it_is() {
    let mut root = layer("root");
    root.contents_changed();
    root.add_child(layer("a"));
    root.add_child(layer("b"));
    root.remove_child_at_index(0);
    assert_eq!(root.content_age, age_after(1));
    assert_eq!(root.bounds, layer_rect(10.0, 20.0, 800.0, 600.0));
    assert_eq!(root.transform, identity());
    assert_eq!(root.extra_data, "root");
    assert_eq!(root.opacity, scalar(0.5));
}

#[test]
fn children_can_be_changed_in_place() {
    let mut root = layer("root");
    root.add_child(layer("a"));
    root.add_child(layer("b"));
    root.children()[1].contents_changed();
    assert_eq!(root.children[0].content_age, ContentAge::new());
    assert_eq!(root.children[1].content_age, age_after(1));
    assert_eq!(root.content_age, ContentAge::new());
    root.children().push(layer("c"));
    assert_eq!(names(&root), vec!["a", "b", "c"]);
}

#[test]
fn resize_changes_the_size_and_nothing_else() {
    let mut l = layer("root");
    l.add_child(layer("a"));
    l.contents_changed();
    l.content_offset = Point2D::new(scalar(3.0), scalar(4.0));
    l.masks_to_bounds = true;
    l.resize(Size2D::new(scalar(1024.0), scalar(768.0)));
    assert_eq!(l.bounds.size, Size2D::new(scalar(1024.0), scalar(768.0)));
    assert_eq!(l.bounds.origin, Point2D::new(scalar(10.0), scalar(20.0)));
    assert_eq!(l.transform, identity());
    assert_eq!(l.content_offset, Point2D::new(scalar(3.0), scalar(4.0)));
    assert_eq!(l.content_age, age_after(1));
    assert_eq!(names(&l), vec!["a"]);
    assert_eq!(l.tile_size, 256);
    assert_eq!(l.extra_data, "root");
    assert!(l.masks_to_bounds);
    assert_eq!(l.background_color, white());
    assert_eq!(l.opacity, scalar(0.5));
}

#[test]
fn requests_follow_the_tiles_one_for_one() {
    let l = layer("root");
    let tiles = vec![
        (Rect::new(Point2D::new(0, 0), Size2D::new(256, 256)), layer_rect(0.0, 0.0, 128.0, 128.0)),
        (Rect::new(Point2D::new(256, 0), Size2D::new(44, 256)), layer_rect(128.0, 0.0, 22.0, 128.0)),
    ];
    let requests = l.get_buffer_requests(&tiles);
    assert_eq!(
        requests,
        vec![
            BufferRequest::new(tiles[0].0, tiles[0].1, ContentAge::new()),
            BufferRequest::new(tiles[1].0, tiles[1].1, ContentAge::new()),
        ]
    );
}

#[test]
fn no_tiles_no_requests() {
    let l = layer("root");
    assert!(l.get_buffer_requests(&Vec::new()).is_empty());
}

#[test]
fn requests_carry_the_age_at_the_time_of_asking() {
    let mut l = layer("root");
    l.contents_changed();
    l.contents_changed();
    let requests = l.get_buffer_requests(&grid(800, 600, 256));
    assert!(!requests.is_empty());
    for r in requests.iter() {
        assert_eq!(r.content_age, age_after(2));
    }
}

#[test]
fn requests_keep_their_age_when_the_content_changes() {
    let mut l = layer("root");
    l.contents_changed();
    let requests = l.get_buffer_requests(&grid(800, 600, 256));
    l.contents_changed();
    assert_eq!(l.content_age, age_after(2));
    for r in requests.iter() {
        assert_eq!(r.content_age, age_after(1));
        assert!(r.content_age < l.content_age);
        assert_ne!(r.content_age, l.content_age);
    }
    let again = l.get_buffer_requests(&grid(800, 600, 256));
    for r in again.iter() {
        assert_eq!(r.content_age, l.content_age);
    }
}

#[test]
fn full_bounds_query_is_covered_without_gaps_or_overlaps() {
    let l: Layer<()> = Layer::new(layer_rect(0.0, 0.0, 800.0, 600.0), 256, white(), scalar(1.0), ());
    let requests = l.get_buffer_requests(&grid(800, 600, l.tile_size));
    assert_eq!(requests.len(), 12);

    // Every pixel of the layer lies in exactly one screen rectangle.
    let mut hits = vec![0u8; 800 * 600];
    for r in requests.iter() {
        let s = r.screen_rect;
        assert_eq!(s.origin.x % 256, 0);
        assert_eq!(s.origin.y % 256, 0);
        assert!(s.size.width <= 256 && s.size.height <= 256);
        assert!(s.origin.x + s.size.width <= 800);
        assert!(s.origin.y + s.size.height <= 600);
        for y in s.origin.y..s.origin.y + s.size.height {
            for x in s.origin.x..s.origin.x + s.size.width {
                hits[y * 800 + x] += 1;
            }
        }
        assert_eq!(r.content_age, ContentAge::new());
    }
    assert!(hits.iter().all(|&h| h == 1));

    let widths: Vec<usize> = requests.iter().step_by(3).map(|r| r.screen_rect.size.width).collect();
    assert_eq!(widths, vec![256, 256, 256, 32]);
    let heights: Vec<usize> = requests.iter().take(3).map(|r| r.screen_rect.size.height).collect();
    assert_eq!(heights, vec![256, 256, 88]);
}
