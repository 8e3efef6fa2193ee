use chafa_cache::rect::Rect;
use chafa_cache::snapshot::{encode_geometry, plan_lines, ChafaError, Chafas, EncodeGeometry, LineSlot};
use chafa_cache::source::ImageSource;
use chafa_cache::stateful::{ResizeRequest, Resized, StatefulChafa};

fn rect(x: u16, y: u16, width: u16, height: u16) -> Rect {
    Rect { x, y, width, height }
}

fn frame(text: &str, r: Rect) -> Chafas {
    Chafas::new(text.to_string(), r)
}

#[test]
fn fresh_cache_encodes_then_reuses_frame() {
    let area = rect(0, 0, 10, 5);
    let mut cache = StatefulChafa::new(ImageSource::new(vec![0u8; 12], area, 7));
    assert_eq!(cache.last_identity(), None);
    assert_eq!(cache.needs_resize(area), ResizeRequest { previous: Rect::default(), area, force: false });
    let req = cache.resize_request(area).unwrap();
    assert!(req.force);
    assert_eq!(req.previous, Rect::default());
    assert_eq!(cache.resize_encode(area, Resized::Encoded(frame("ab\ncd", area))), Ok(true));
    assert_eq!(cache.current().rect(), rect(0, 0, 10, 5));
    assert_eq!(cache.last_identity(), Some(7));

    let again = cache.resize_request(area).unwrap();
    assert!(!again.force);
    assert_eq!(again.previous, area);
    assert_eq!(cache.resize_encode(area, Resized::Keep), Ok(false));
    assert_eq!(cache.current().rect(), area);
    assert_eq!(cache.current().data(), "ab\ncd");
    assert_eq!(cache.last_identity(), Some(7));
}

#[test]
fn changed_identity_forces_encode() {
    let area = rect(0, 0, 10, 5);
    let mut cache = StatefulChafa::new(ImageSource::new(vec![0u8; 12], area, 7));
    assert_eq!(cache.resize_encode(area, Resized::Encoded(frame("old", area))), Ok(true));
    cache.set_source(ImageSource::new(vec![1u8; 12], area, 8));
    assert_eq!(cache.needs_resize(area).force, false);
    assert!(cache.resize_request(area).unwrap().force);
    assert_eq!(cache.resize_encode(area, Resized::Keep), Err(ChafaError::PolicyContractViolation));
    assert_eq!(cache.last_identity(), Some(7));
    assert_eq!(cache.resize_encode(area, Resized::Encoded(frame("new", area))), Ok(true));
    assert_eq!(cache.last_identity(), Some(8));
    assert_eq!(cache.current().data(), "new");
}

#[test]
fn unchanged_pass_draws_the_same_lines() {
    let area = rect(0, 0, 10, 5);
    let mut cache = StatefulChafa::new(ImageSource::new(0u8, area, 3));
    assert_eq!(cache.resize_encode(area, Resized::Encoded(frame("a\nb\nc", area))), Ok(true));
    let before = cache.render(area).unwrap();
    assert_eq!(cache.resize_encode(area, Resized::Keep), Ok(false));
    assert_eq!(cache.render(area).unwrap(), before);
    assert_eq!(before.len(), 3);
}

#[test]
fn degenerate_area_changes_nothing() {
    let area = rect(0, 0, 10, 5);
    let mut cache = StatefulChafa::new(ImageSource::new(0u8, area, 3));
    for empty in [rect(0, 0, 0, 5), rect(0, 0, 10, 0)] {
        assert_eq!(cache.resize_request(empty), None);
        assert_eq!(cache.resize_encode(empty, Resized::Encoded(frame("x", area))), Ok(false));
        assert_eq!(cache.resize_encode(empty, Resized::EncoderFailed), Ok(false));
        assert_eq!(cache.last_identity(), None);
        assert_eq!(cache.current().rect(), Rect::default());
        assert_eq!(cache.current().data(), "");
    }
}

#[test]
fn encoder_failure_keeps_previous_frame() {
    let area = rect(0, 0, 4, 2);
    let mut cache = StatefulChafa::new(ImageSource::new(0u8, area, 1));
    assert_eq!(cache.resize_encode(area, Resized::Encoded(frame("kept", area))), Ok(true));
    cache.set_source(ImageSource::new(0u8, area, 2));
    assert_eq!(cache.resize_encode(area, Resized::EncoderFailed), Err(ChafaError::EncoderFailure));
    assert_eq!(cache.current().data(), "kept");
    assert_eq!(cache.last_identity(), Some(1));
}

#[test]
fn empty_rectangle_from_policy_is_refused() {
    let area = rect(0, 0, 4, 2);
    let mut cache = StatefulChafa::new(ImageSource::new(0u8, area, 1));
    let bad = frame("x", rect(0, 0, 0, 2));
    assert_eq!(cache.resize_encode(area, Resized::Encoded(bad)), Err(ChafaError::PolicyContractViolation));
    assert_eq!(cache.last_identity(), None);
}

#[test]
fn plan_clips_to_area_rows() {
    let area = rect(2, 3, 10, 5);
    let slots = plan_lines(area, 7);
    assert_eq!(slots.len(), 5);
    for (i, s) in slots.iter().enumerate() {
        assert_eq!(*s, LineSlot { line: i, x: 2, y: 3 + i as u16, width: 10 });
    }
}

#[test]
fn plan_fills_one_row_per_line() {
    let slots = plan_lines(rect(0, 1, 6, 8), 3);
    assert_eq!(slots.len(), 3);
    assert_eq!(slots.iter().map(|s| s.y).collect::<Vec<u16>>(), vec![1, 2, 3]);
    assert!(plan_lines(rect(0, 1, 6, 8), 0).is_empty());
}

#[test]
fn plan_stays_inside_area_at_coordinate_limit() {
    let area = rect(65530, 65532, 20, 10);
    let slots = plan_lines(area, 10);
    assert_eq!(slots.len(), 3);
    for s in &slots {
        assert_eq!(s.x, 65530);
        assert_eq!(s.width, 5);
        assert!(s.y >= 65532 && s.y < 65535);
    }
}

#[test]
fn render_parses_escape_coded_lines() {
    let area = rect(1, 1, 8, 8);
    let snap = frame("\x1b[31mred\x1b[0m\nplain\nthird", rect(0, 0, 5, 3));
    let slots = snap.render(area).unwrap();
    assert_eq!(slots.len(), 3);
    assert_eq!(slots[2], LineSlot { line: 2, x: 1, y: 3, width: 8 });
    let two = frame("a\nb\n", rect(0, 0, 1, 2)).render(area).unwrap();
    assert_eq!(two.len(), 2);
}

#[test]
fn from_source_uses_policy_rect_or_desired() {
    let source = ImageSource::new(0u8, rect(0, 0, 6, 4), 9);
    let own = Chafas::from_source(&source, None, Some("x".to_string())).unwrap();
    assert_eq!(own.rect(), rect(0, 0, 6, 4));
    let chosen = Chafas::from_source(&source, Some(rect(0, 0, 3, 2)), Some("y".to_string())).unwrap();
    assert_eq!(chosen.rect(), rect(0, 0, 3, 2));
    assert_eq!(chosen.data(), "y");
    assert_eq!(
        Chafas::from_source(&source, None, None).map(|c| c.rect()),
        Err(ChafaError::EncoderFailure)
    );
    assert_eq!(
        Chafas::from_source(&source, Some(rect(0, 0, 3, 0)), Some("z".to_string())).map(|c| c.rect()),
        Err(ChafaError::PolicyContractViolation)
    );
}

#[test]
fn geometry_for_rgb_buffer() {
    let g = encode_geometry(rect(0, 0, 40, 20), 320, 240).unwrap();
    assert_eq!(g, EncodeGeometry { cols: 40, rows: 20, pixel_width: 320, pixel_height: 240, rowstride: 960 });
    assert_eq!(encode_geometry(rect(0, 0, 1, 1), 715827882, 1).unwrap().rowstride, 2147483646);
    assert_eq!(encode_geometry(rect(0, 0, 1, 1), 715827883, 1), None);
    assert_eq!(encode_geometry(rect(0, 0, 1, 1), 1, 2147483648), None);
}

#[test]
fn rect_edges_saturate() {
    let r = rect(65530, 10, 20, 5);
    assert_eq!(r.right(), 65535);
    assert_eq!(r.bottom(), 15);
    assert!(!r.is_degenerate());
    assert!(rect(3, 3, 0, 9).is_degenerate());
}
