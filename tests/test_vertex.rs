use dragonfly::vertex::{Figure, Mesh, VertexSource, CATALOG_CIRCLE_SEGMENTS, FIGURE_COUNT};

#[test]
fn test_triangle_vertices_and_indices() {
    let figure = Figure::Triangle;
    let vertices = figure.get_vertices();
    let indices = figure.get_indices();
    assert_eq!(vertices.len(), 3);
    assert_eq!(indices.len(), 3);
}

#[test]
fn test_pentagon_vertices_and_indices() {
    let figure = Figure::Pentagon;
    let vertices = figure.get_vertices();
    let indices = figure.get_indices();
    assert_eq!(vertices.len(), 5);
    assert_eq!(indices.len(), 9);
}

#[test]
fn test_rectangle_vertices_and_indices() {
    let figure = Figure::Rectangle;
    let vertices = figure.get_vertices();
    let indices = figure.get_indices();
    assert_eq!(vertices.len(), 4);
    assert_eq!(indices.len(), 6);
}

#[test]
fn test_trapezoid_vertices_and_indices() {
    let figure = Figure::Trapezoid;
    let vertices = figure.get_vertices();
    let indices = figure.get_indices();
    assert_eq!(vertices.len(), 4);
    assert_eq!(indices.len(), 6);
}

#[test]
fn test_parallelogram_vertices_and_indices() {
    let figure = Figure::Parallelogram;
    let vertices = figure.get_vertices();
    let indices = figure.get_indices();
    assert_eq!(vertices.len(), 4);
    assert_eq!(indices.len(), 6);
}

#[test]
fn test_circle_vertices_and_indices() {
    let figure = Figure::Circle(64);
    let vertices = figure.get_vertices();
    let indices = figure.get_indices();
    assert_eq!(vertices.len(), 66);
    assert_eq!(indices.len(), 192);
}

#[test]
fn fixed_polygon_indices_name_their_vertices() {
    let figures = [
        Figure::Triangle,
        Figure::Pentagon,
        Figure::Rectangle,
        Figure::Trapezoid,
        Figure::Parallelogram,
    ];
    for figure in figures {
        let count = figure.get_vertices().len();
        let indices = figure.get_indices();
        assert_eq!(indices.len() % 3, 0);
        assert!(indices.iter().all(|&i| (i as usize) < count));
    }
}

#[test]
fn fixed_polygon_triangle_lists() {
    assert_eq!(Figure::Triangle.get_indices(), vec![0, 1, 2]);
    assert_eq!(Figure::Pentagon.get_indices(), vec![0, 1, 4, 1, 2, 4, 2, 3, 4]);
    assert_eq!(Figure::Rectangle.get_indices(), vec![0, 1, 2, 0, 2, 3]);
    assert_eq!(Figure::Trapezoid.get_indices(), vec![0, 1, 2, 0, 2, 3]);
    assert_eq!(Figure::Parallelogram.get_indices(), vec![0, 1, 2, 0, 2, 3]);
}

#[test]
fn fixed_polygon_vertices_are_table_entries_in_order() {
    assert_eq!(
        Figure::Pentagon.get_vertices(),
        vec![
            VertexSource::Corner(0),
            VertexSource::Corner(1),
            VertexSource::Corner(2),
            VertexSource::Corner(3),
            VertexSource::Corner(4),
        ]
    );
}

#[test]
fn circle_counts_follow_segments() {
    for n in [1u32, 2, 3, 7, 64, 100, 300] {
        let figure = Figure::Circle(n);
        assert_eq!(figure.get_vertices().len(), n as usize + 2);
        assert_eq!(figure.get_indices().len(), 3 * n as usize);
    }
}

#[test]
fn circle_of_largest_segment_count() {
    let figure = Figure::Circle(65534);
    let vertices = figure.get_vertices();
    let indices = figure.get_indices();
    assert_eq!(vertices.len(), 65536);
    assert_eq!(indices.len(), 3 * 65534);
    assert_eq!(indices[indices.len() - 1], 65535);
}

#[test]
fn circle_fan_triangles() {
    assert_eq!(Figure::Circle(1).get_indices(), vec![0, 1, 2]);
    assert_eq!(Figure::Circle(3).get_indices(), vec![0, 1, 2, 0, 2, 3, 0, 3, 4]);
    let indices = Figure::Circle(64).get_indices();
    let count = Figure::Circle(64).get_vertices().len();
    assert!(indices.iter().all(|&i| (i as usize) < count));
    assert_eq!(&indices[189..192], &[0, 64, 65]);
}

#[test]
fn circle_layout_centre_then_rim() {
    let vertices = Figure::Circle(4).get_vertices();
    assert_eq!(
        vertices,
        vec![
            VertexSource::Center,
            VertexSource::Rim { step: 0, segments: 4 },
            VertexSource::Rim { step: 1, segments: 4 },
            VertexSource::Rim { step: 2, segments: 4 },
            VertexSource::Rim { step: 3, segments: 4 },
            VertexSource::Rim { step: 4, segments: 4 },
        ]
    );
    let big = Figure::Circle(64).get_vertices();
    assert_eq!(big[0], VertexSource::Center);
    assert_eq!(big[65], VertexSource::Rim { step: 64, segments: 64 });
}

#[test]
fn circle_without_segments_is_its_centre() {
    let figure = Figure::Circle(0);
    assert_eq!(figure.get_vertices(), vec![VertexSource::Center]);
    assert!(figure.get_indices().is_empty());
}

#[test]
fn lookup_twice_is_identical() {
    for i in 0..FIGURE_COUNT {
        let a = Figure::get_figure(i).get_vertices_and_indices();
        let b = Figure::get_figure(i).get_vertices_and_indices();
        assert_eq!(a, b);
    }
}

#[test]
fn vertices_and_indices_together() {
    let (vertices, indices) = Figure::Rectangle.get_vertices_and_indices();
    assert_eq!(vertices, Figure::Rectangle.get_vertices());
    assert_eq!(indices, vec![0, 1, 2, 0, 2, 3]);
}

#[test]
fn catalog_ordinals() {
    assert_eq!(Figure::get_figure(0), Figure::Triangle);
    assert_eq!(Figure::get_figure(1), Figure::Pentagon);
    assert_eq!(Figure::get_figure(2), Figure::Rectangle);
    assert_eq!(Figure::get_figure(3), Figure::Trapezoid);
    assert_eq!(Figure::get_figure(4), Figure::Parallelogram);
    assert_eq!(Figure::get_figure(5), Figure::Circle(CATALOG_CIRCLE_SEGMENTS));
    assert_eq!(Figure::get_figure(5), Figure::Circle(64));
    assert_eq!(Figure::get_figure(6), Figure::Triangle);
    assert_eq!(Figure::get_figure(255), Figure::Triangle);
    assert_eq!(Figure::default(), Figure::Triangle);
}
