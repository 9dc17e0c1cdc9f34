use qrgl::geometry::gen_indices;
use qrgl::geometry::GenBufferArrays;
use qrgl::math::color::Color;
use qrgl::math::color::Format;
use qrgl::shapes::Circle;
use qrgl::shapes::Shape;
use qrgl::shapes::Square;
use qrgl::shapes::Triangle;
use qrgl::math::vector::Vec2i;

fn flat(v: &[Vec<i32>]) -> Vec<i32> {
    let mut out = Vec::new();
    for chunk in v {
        out.extend_from_slice(chunk);
    }
    out
}

#[test]
fn dedup_concrete_case() {
    // CHUNK = 2 on a stream with two repeated vertices: the table keeps
    // the four unique vertices in first-seen order, the indices replay
    // the six inputs.
    let data = vec![0, 0, 1, 0, 0, 1, 1, 0, 1, 1, 0, 1];
    let GenBufferArrays { vertex_buffer, index_buffer } = gen_indices(&data, 2);
    assert_eq!(
        vertex_buffer,
        vec![vec![0, 0], vec![1, 0], vec![0, 1], vec![1, 1]]
    );
    assert_eq!(index_buffer, vec![0, 1, 2, 1, 3, 2]);
}

#[test]
fn dedup_round_trip() {
    // Replaying the index buffer against the vertex buffer rebuilds the
    // input stream exactly.
    let data = vec![5, 6, 7, 5, 6, 7, 9, 9, 5, 6];
    let r = gen_indices(&data, 2);
    let mut replayed: Vec<i32> = Vec::new();
    for &i in &r.index_buffer {
        replayed.extend_from_slice(&r.vertex_buffer[i]);
    }
    assert_eq!(replayed, data);
}

#[test]
fn dedup_all_distinct_keeps_every_vertex() {
    let data = vec![1, 2, 3, 4, 5, 6];
    let r = gen_indices(&data, 3);
    assert_eq!(r.vertex_buffer.len(), 2);
    assert_eq!(r.index_buffer, vec![0, 1]);
}

#[test]
fn dedup_repeat_shrinks() {
    let data = vec![8, 8, 8, 8, 8, 8];
    let r = gen_indices(&data, 2);
    assert_eq!(r.vertex_buffer, vec![vec![8, 8]]);
    assert_eq!(r.index_buffer, vec![0, 0, 0]);
    assert!(r.vertex_buffer.len() < 3);
}

#[test]
fn dedup_drops_trailing_partial_vertex() {
    // A stream whose length is not a multiple of the chunk size loses
    // its trailing partial vertex silently.
    let data = vec![1, 2, 3, 4, 5];
    let r = gen_indices(&data, 2);
    assert_eq!(r.vertex_buffer, vec![vec![1, 2], vec![3, 4]]);
    assert_eq!(r.index_buffer, vec![0, 1]);
}

#[test]
fn dedup_chunk_one() {
    let data = vec![4, 4, 2, 4];
    let r = gen_indices(&data, 1);
    assert_eq!(r.vertex_buffer, vec![vec![4], vec![2]]);
    assert_eq!(r.index_buffer, vec![0, 0, 1, 0]);
}

#[test]
fn dedup_empty_stream() {
    let data: Vec<i32> = Vec::new();
    let r = gen_indices(&data, 2);
    assert!(r.vertex_buffer.is_empty());
    assert!(r.index_buffer.is_empty());
}

#[test]
fn square_stream_and_dedup() {
    // Square(origin = (0,0), size = (1,1)): six raw vertices; after
    // dedup exactly the four corners remain, with six indices for the
    // two triangles.
    let sq = Square::new(Vec2i::from([0, 0]), Vec2i::from([1, 1]));
    let stream = sq.get_arrays();
    assert_eq!(stream, vec![0, 0, 1, 0, 0, 1, 1, 0, 1, 1, 0, 1]);
    assert_eq!(stream.len(), 12);
    assert_eq!(sq.components_per_vertex(), 2);

    let r = gen_indices(&stream, sq.components_per_vertex());
    assert_eq!(r.vertex_buffer.len(), 4);
    assert_eq!(
        r.vertex_buffer,
        vec![vec![0, 0], vec![1, 0], vec![0, 1], vec![1, 1]]
    );
    assert_eq!(r.index_buffer, vec![0, 1, 2, 1, 3, 2]);
}

#[test]
fn square_offset_origin() {
    let sq = Square::new(Vec2i::from([2, 3]), Vec2i::from([10, 20]));
    let stream = sq.get_arrays();
    assert_eq!(stream, vec![2, 3, 12, 3, 2, 23, 12, 3, 12, 23, 2, 23]);
}

#[test]
fn triangle_stream_is_its_points() {
    let tri = Triangle::new(
        Vec2i::from([0, 9]),
        Vec2i::from([-5, 4]),
        Vec2i::from([5, 4]),
    );
    let stream = tri.get_arrays();
    assert_eq!(stream, vec![0, 9, -5, 4, 5, 4]);
    assert_eq!(tri.components_per_vertex(), 2);
}

#[test]
fn circle_fan_four_triangles() {
    // Resolution 4: four fan triangles, each opening at the center, and
    // each arc point a quarter turn (90 degrees) past the previous one:
    // rotating (x, y) by a quarter turn gives (-y, x).
    let arc = vec![
        Vec2i::from([2, 0]),
        Vec2i::from([0, 2]),
        Vec2i::from([-2, 0]),
        Vec2i::from([0, -2]),
    ];
    let ci = Circle::new(Vec2i::from([0, 0]), 2, arc);
    assert_eq!(ci.resolution(), 4);

    let stream = ci.get_arrays();
    assert_eq!(stream.len(), 24);
    for t in 0..4 {
        // every triangle shares the center vertex
        assert_eq!(stream[6 * t], 0);
        assert_eq!(stream[6 * t + 1], 0);
        // its closing arc point is its opening one turned a quarter
        let (x, y) = (stream[6 * t + 2], stream[6 * t + 3]);
        assert_eq!(stream[6 * t + 4], -y);
        assert_eq!(stream[6 * t + 5], x);
    }

    let r = gen_indices(&stream, ci.components_per_vertex());
    // one center plus four arc points survive dedup
    assert_eq!(r.vertex_buffer.len(), 5);
    assert_eq!(r.index_buffer.len(), 12);
    // the shared center opens every triangle
    assert_eq!(r.index_buffer[0], 0);
    assert_eq!(r.index_buffer[3], 0);
    assert_eq!(r.index_buffer[6], 0);
    assert_eq!(r.index_buffer[9], 0);
}

#[test]
fn circle_stream_closes_the_fan() {
    let arc = vec![Vec2i::from([3, 0]), Vec2i::from([-3, 1]), Vec2i::from([0, -3])];
    let ci = Circle::new(Vec2i::from([1, 1]), 3, arc);
    let stream = ci.get_arrays();
    assert_eq!(
        stream,
        vec![1, 1, 3, 0, -3, 1, 1, 1, -3, 1, 0, -3, 1, 1, 0, -3, 3, 0]
    );
}

#[test]
fn color_constructors() {
    let c = Color::rgb(100, 149, 237);
    assert_eq!(c.format, Format::RGB { r: 100, g: 149, b: 237 });
    let c = Color::rgba(1, 2, 3, 4);
    assert_eq!(c.format, Format::RGBA { r: 1, g: 2, b: 3, a: 4 });
    assert_eq!(Color::white().format, Format::RGB { r: 255, g: 255, b: 255 });
    assert_eq!(Color::black().format, Format::RGB { r: 0, g: 0, b: 0 });
    assert_eq!(Color::red().format, Format::RGB { r: 255, g: 0, b: 0 });
    assert_eq!(Color::green().format, Format::RGB { r: 0, g: 255, b: 0 });
    assert_eq!(Color::blue().format, Format::RGB { r: 0, g: 0, b: 255 });
}

#[test]
fn shape_streams_feed_the_builder() {
    // the flat vertex chunks of any shape replay through the builder
    for data in [
        Square::new(Vec2i::from([-1, -1]), Vec2i::from([2, 2])).get_arrays(),
        Triangle::new(
            Vec2i::from([0, 1]),
            Vec2i::from([-1, 0]),
            Vec2i::from([1, 0]),
        )
        .get_arrays(),
    ] {
        let r = gen_indices(&data, 2);
        assert_eq!(flat(&r.index_buffer.iter().map(|&i| r.vertex_buffer[i].clone()).collect::<Vec<_>>()), data);
    }
}
