use physx_lines::color_conv::NormalizedColor;
use physx_lines::debug_render::{buffer_to_strokes, DebugLine, DebugPoint, DebugTriangle, Stroke};

fn rgba(red: u8, green: u8, blue: u8, alpha: u8) -> NormalizedColor {
    NormalizedColor { red, green, blue, alpha }
}

fn segment(s: &Stroke<u32>) -> (u32, u32, NormalizedColor) {
    match s {
        Stroke::Segment { from, to, color } => (*from, *to, *color),
        Stroke::Tick { .. } => panic!("expected a segment"),
    }
}

#[test]
fn empty_buffer_draws_nothing() {
    let r = buffer_to_strokes::<u32>(&vec![], &vec![], &vec![]);
    assert!(r.is_empty());
}

#[test]
fn point_becomes_tick_with_unpacked_color() {
    let r = buffer_to_strokes(&vec![DebugPoint { pos: 7u32, color: 0xFF0000FF }], &vec![], &vec![]);
    assert_eq!(r.len(), 1);
    match &r[0] {
        Stroke::Tick { at, color } => {
            assert_eq!(*at, 7);
            assert_eq!(*color, rgba(255, 0, 0, 255));
        }
        Stroke::Segment { .. } => panic!("expected a tick"),
    }
}

#[test]
fn line_uses_its_first_color() {
    let line = DebugLine { pos0: 1u32, pos1: 2, color0: 0x0000FF00, color1: 0x00FF0000 };
    let r = buffer_to_strokes(&vec![], &vec![line], &vec![]);
    assert_eq!(r.len(), 1);
    assert_eq!(segment(&r[0]), (1, 2, rgba(0, 255, 0, 0)));
}

#[test]
fn triangle_gives_three_edges() {
    let tri = DebugTriangle {
        pos0: 10u32,
        pos1: 11,
        pos2: 12,
        color0: 0x000000FF,
        color1: 0x0000FF00,
        color2: 0x00FF0000,
    };
    let r = buffer_to_strokes(&vec![], &vec![], &vec![tri]);
    assert_eq!(r.len(), 3);
    assert_eq!(segment(&r[0]), (10, 11, rgba(255, 0, 0, 0)));
    assert_eq!(segment(&r[1]), (11, 12, rgba(0, 255, 0, 0)));
    assert_eq!(segment(&r[2]), (10, 12, rgba(0, 0, 255, 0)));
}

#[test]
fn strokes_keep_buffer_order() {
    let points = vec![DebugPoint { pos: 1u32, color: 0 }, DebugPoint { pos: 2, color: 0 }];
    let lines = vec![DebugLine { pos0: 3u32, pos1: 4, color0: 0xFFFFFFFF, color1: 0 }];
    let tris = vec![
        DebugTriangle { pos0: 5u32, pos1: 6, pos2: 7, color0: 0, color1: 0, color2: 0 },
        DebugTriangle { pos0: 8u32, pos1: 9, pos2: 10, color0: 0, color1: 0, color2: 0 },
    ];
    let r = buffer_to_strokes(&points, &lines, &tris);
    assert_eq!(r.len(), 2 + 1 + 3 * 2);
    assert!(matches!(r[0], Stroke::Tick { at: 1, .. }));
    assert!(matches!(r[1], Stroke::Tick { at: 2, .. }));
    assert_eq!(segment(&r[2]), (3, 4, rgba(255, 255, 255, 255)));
    assert_eq!(segment(&r[3]).0, 5);
    assert_eq!(segment(&r[6]), (8, 9, rgba(0, 0, 0, 0)));
    assert_eq!(segment(&r[8]), (8, 10, rgba(0, 0, 0, 0)));
}
