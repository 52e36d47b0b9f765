use pong::buffer::{Ratio, Vertex, RECT_INDICES};
use pong::component::{x_ndc, y_ndc, Point, Rectangle, HALF_HEIGHT, HALF_WIDTH};
use pong::upload::{BufferContents, BufferId, BufferUsages, ResourceAllocator};

fn build(x: i32, y: i32, width: u32, height: u32) -> (Rectangle, Vec<Vertex>) {
    let mut allocator = ResourceAllocator::new();
    let rect = Rectangle::new(&mut allocator, Point { x, y }, width, height, None);
    let vertices = match &allocator.pending()[rect.vertex_buffer.0].contents {
        BufferContents::Vertices(vertices) => vertices.clone(),
        BufferContents::Bytes(_) => panic!("the vertex buffer holds bytes"),
    };
    (rect, vertices)
}

fn value(ratio: Ratio) -> f32 {
    ratio.num as f32 / ratio.den as f32
}

fn twice_area(a: &Vertex, b: &Vertex, c: &Vertex) -> i64 {
    let (ax, ay) = (a.position[0].num, a.position[1].num);
    let (bx, by) = (b.position[0].num, b.position[1].num);
    let (cx, cy) = (c.position[0].num, c.position[1].num);
    (bx - ax) * (cy - ay) - (cx - ax) * (by - ay)
}

fn triangle_areas(vertices: &[Vertex]) -> Vec<i64> {
    RECT_INDICES
        .chunks(3)
        .map(|t| {
            twice_area(
                &vertices[t[0] as usize],
                &vertices[t[1] as usize],
                &vertices[t[2] as usize],
            )
        })
        .collect()
}

#[test]
fn rectangle_has_four_vertices_and_six_indices() {
    let (rect, vertices) = build(10, 20, 300, 200);
    assert_eq!(vertices.len(), 4);
    assert_eq!(rect.num_indices, 6);
    assert_eq!(RECT_INDICES.len(), 6);
}

#[test]
fn indices_name_only_the_four_corners() {
    let (_, vertices) = build(-5, 7, 0, 9);
    for index in RECT_INDICES {
        assert!((index as usize) < vertices.len());
    }
    assert_eq!(RECT_INDICES, [0, 1, 2, 0, 2, 3]);
}

#[test]
fn corners_come_top_left_bottom_left_bottom_right_top_right() {
    let (_, vertices) = build(100, 50, 30, 20);
    let nums: Vec<(i64, i64)> =
        vertices.iter().map(|v| (v.position[0].num, v.position[1].num)).collect();
    assert_eq!(nums, vec![(-540, 310), (-540, 290), (-510, 290), (-510, 310)]);
    for vertex in &vertices {
        assert_eq!(vertex.position[0].den, 640);
        assert_eq!(vertex.position[1].den, 360);
        assert_eq!(vertex.position[2], Ratio { num: 0, den: 1 });
    }
}

#[test]
fn every_corner_is_mid_gray() {
    let (_, vertices) = build(0, 0, 100, 100);
    for vertex in &vertices {
        assert_eq!(vertex.color, [Ratio { num: 1, den: 2 }; 3]);
        assert_eq!(value(vertex.color[0]), 0.5);
    }
}

#[test]
fn color_argument_changes_nothing() {
    let mut plain = ResourceAllocator::new();
    let mut colored = ResourceAllocator::new();
    let a = Rectangle::new(&mut plain, Point { x: 3, y: 4 }, 5, 6, None);
    let b = Rectangle::new(
        &mut colored,
        Point { x: 3, y: 4 },
        5,
        6,
        Some(Ratio { num: 9, den: 10 }),
    );
    assert_eq!(a, b);
    assert_eq!(plain, colored);
}

#[test]
fn rectangle_remembers_what_it_was_built_from() {
    let (rect, _) = build(-7, 11, 13, 17);
    assert_eq!(rect.point, Point { x: -7, y: 11 });
    assert_eq!(rect.width, 13);
    assert_eq!(rect.height, 17);
}

#[test]
fn zero_width_quad_has_no_area() {
    let (rect, vertices) = build(40, 40, 0, 25);
    assert_eq!(rect.num_indices, 6);
    assert_eq!(triangle_areas(&vertices), vec![0, 0]);
    assert_eq!(vertices[0].position, vertices[3].position);
    assert_eq!(vertices[1].position, vertices[2].position);
}

#[test]
fn zero_height_quad_has_no_area() {
    let (_, vertices) = build(40, 40, 25, 0);
    assert_eq!(triangle_areas(&vertices), vec![0, 0]);
    assert_eq!(vertices[0].position, vertices[1].position);
    assert_eq!(vertices[2].position, vertices[3].position);
}

#[test]
fn zero_by_zero_quad_is_a_point() {
    let (_, vertices) = build(640, 360, 0, 0);
    for vertex in &vertices {
        assert_eq!(vertex.position[0].num, 0);
        assert_eq!(vertex.position[1].num, 0);
    }
}

#[test]
fn triangles_halve_the_rectangle_counter_clockwise() {
    let (_, vertices) = build(10, 20, 30, 40);
    assert_eq!(triangle_areas(&vertices), vec![1200, 1200]);
}

#[test]
fn horizontal_normalization_spans_minus_one_to_one() {
    assert_eq!(x_ndc(0), Ratio { num: -640, den: 640 });
    assert_eq!(x_ndc(1280), Ratio { num: 640, den: 640 });
    assert_eq!(x_ndc(640), Ratio { num: 0, den: 640 });
    assert_eq!(value(x_ndc(0)), -1.0);
    assert_eq!(value(x_ndc(1280)), 1.0);
}

#[test]
fn vertical_normalization_spans_one_to_minus_one() {
    assert_eq!(y_ndc(0), Ratio { num: 360, den: 360 });
    assert_eq!(y_ndc(720), Ratio { num: -360, den: 360 });
    assert_eq!(y_ndc(360), Ratio { num: 0, den: 360 });
    assert_eq!(value(y_ndc(0)), 1.0);
    assert_eq!(value(y_ndc(720)), -1.0);
}

#[test]
fn horizontal_normalization_can_be_undone() {
    for px in 0..=1280i64 {
        let ndc = x_ndc(px);
        assert_eq!(ndc.den, HALF_WIDTH);
        assert_eq!(ndc.num + ndc.den, px);
        assert_eq!(((value(ndc) + 1.0) * 640.0).round() as i64, px);
    }
}

#[test]
fn vertical_normalization_can_be_undone() {
    for py in 0..=720i64 {
        let ndc = y_ndc(py);
        assert_eq!(ndc.den, HALF_HEIGHT);
        assert_eq!(ndc.den - ndc.num, py);
    }
}

#[test]
fn normalization_is_linear() {
    assert_eq!(x_ndc(900).num - x_ndc(250).num, 650);
    assert_eq!(y_ndc(250).num - y_ndc(700).num, 450);
}

#[test]
fn normalization_at_the_ends_of_the_range() {
    assert_eq!(x_ndc(i64::MAX).num, i64::MAX - 640);
    assert_eq!(x_ndc(i64::MIN + 640).num, i64::MIN);
    assert_eq!(y_ndc(i64::MIN + 361).num, i64::MAX);
    assert_eq!(y_ndc(i64::MAX).num, 360 - i64::MAX);
}

#[test]
fn hundred_pixel_square_at_the_origin() {
    let (_, vertices) = build(0, 0, 100, 100);
    assert_eq!(value(vertices[0].position[0]), -1.0);
    assert_eq!(value(vertices[0].position[1]), 1.0);
    assert_eq!(value(vertices[2].position[0]), (100.0f32 - 640.0) / 640.0);
    assert_eq!(value(vertices[2].position[1]), (-100.0f32 + 360.0) / 360.0);
    assert!((value(vertices[2].position[0]) - (-1.0 + 100.0 / 640.0)).abs() < 1e-6);
    assert!((value(vertices[2].position[1]) - (1.0 - 100.0 / 360.0)).abs() < 1e-6);
    assert_eq!(vertices[2].position[0], Ratio { num: -540, den: 640 });
    assert_eq!(vertices[2].position[1], Ratio { num: 260, den: 360 });
    assert_eq!(value(vertices[2].position[2]), 0.0);
}

#[test]
fn extreme_rectangle_does_not_overflow() {
    let (_, vertices) = build(i32::MAX, i32::MIN, u32::MAX, u32::MAX);
    assert_eq!(vertices[0].position[0].num, i32::MAX as i64 - 640);
    assert_eq!(vertices[0].position[1].num, 360 - i32::MIN as i64);
    assert_eq!(vertices[2].position[0].num, i32::MAX as i64 + u32::MAX as i64 - 640);
    assert_eq!(vertices[2].position[1].num, 360 - (i32::MIN as i64 + u32::MAX as i64));
}

#[test]
fn rectangle_asks_for_vertex_buffer_then_index_buffer() {
    let mut allocator = ResourceAllocator::new();
    let rect = Rectangle::new(&mut allocator, Point { x: 0, y: 0 }, 1, 1, None);
    assert_eq!(rect.vertex_buffer, BufferId(0));
    assert_eq!(rect.index_buffer, BufferId(1));
    let pending = allocator.pending();
    assert_eq!(pending.len(), 2);
    assert_eq!(pending[0].label, "Vertex Buffer");
    assert_eq!(pending[0].usage, BufferUsages::Vertex);
    assert!(matches!(pending[0].contents, BufferContents::Vertices(_)));
    assert_eq!(pending[1].label, "Index Buffer");
    assert_eq!(pending[1].usage, BufferUsages::Index);
    assert!(matches!(pending[1].contents, BufferContents::Bytes(_)));
}

#[test]
fn second_rectangle_leaves_the_first_buffers_alone() {
    let mut allocator = ResourceAllocator::new();
    let first = Rectangle::new(&mut allocator, Point { x: 0, y: 360 }, 1280, 1, None);
    let before = allocator.pending().clone();
    let second = Rectangle::new(&mut allocator, Point { x: 640, y: 0 }, 1, 720, None);
    assert_eq!(first.vertex_buffer, BufferId(0));
    assert_eq!(first.index_buffer, BufferId(1));
    assert_eq!(second.vertex_buffer, BufferId(2));
    assert_eq!(second.index_buffer, BufferId(3));
    assert_eq!(allocator.pending().len(), 4);
    assert_eq!(allocator.pending()[..2], before[..]);
}

#[test]
fn index_buffer_holds_the_indices_in_native_byte_order() {
    let mut allocator = ResourceAllocator::new();
    let rect = Rectangle::new(&mut allocator, Point { x: 0, y: 0 }, 2, 2, None);
    let expected: Vec<u8> = RECT_INDICES.iter().flat_map(|index| index.to_ne_bytes()).collect();
    assert_eq!(expected.len(), 12);
    match &allocator.pending()[rect.index_buffer.0].contents {
        BufferContents::Bytes(bytes) => {
            assert_eq!(bytes, &expected);
            let little: Vec<u8> =
                RECT_INDICES.iter().flat_map(|index| index.to_le_bytes()).collect();
            let big: Vec<u8> =
                RECT_INDICES.iter().flat_map(|index| index.to_be_bytes()).collect();
            assert!(*bytes == little || *bytes == big);
        }
        BufferContents::Vertices(_) => panic!("the index buffer holds vertices"),
    }
}

#[test]
fn new_allocator_is_empty() {
    let allocator = ResourceAllocator::new();
    assert!(allocator.pending().is_empty());
}
