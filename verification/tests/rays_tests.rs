use raycaster::map::{cell_at, MAP, MAP_HEIGHT};
use raycaster::rays::{
    next_line, wall_face_axis, Axis, AxisPoint, GridPoint, Heading, Ray, RayGenerator,
};

fn inside(cell: usize) -> AxisPoint {
    AxisPoint { cell, on_line: false }
}

fn on_line(cell: usize) -> AxisPoint {
    AxisPoint { cell, on_line: true }
}

fn ray(x: Heading, y: Heading) -> Ray {
    Ray { x, y, column_index: 0 }
}

const HEADINGS: [Heading; 3] = [Heading::Falling, Heading::Level, Heading::Rising];

/// A coordinate as the grid reads it.
fn read(pos: f32) -> AxisPoint {
    AxisPoint { cell: pos as usize, on_line: pos == pos.trunc() }
}

/// The way a ray heads along one axis.
fn heading(dir: f32) -> Heading {
    if dir < 0.0 {
        Heading::Falling
    } else if dir > 0.0 {
        Heading::Rising
    } else {
        Heading::Level
    }
}

/// The distance from `pos` to the grid line that a ray with the given
/// direction is measured against.
fn distance(dir: f32, pos: f32) -> f32 {
    (pos.trunc() - pos) + next_line(heading(dir), &read(pos)) as f32
}

#[test]
fn a_rising_ray_meets_the_line_above() {
    assert_eq!(next_line(Heading::Rising, &inside(3)), 1);
    assert_eq!(next_line(Heading::Rising, &on_line(3)), 1);
    assert_eq!(next_line(Heading::Rising, &inside(0)), 1);
    assert_eq!(next_line(Heading::Rising, &on_line(usize::MAX)), 1);
}

#[test]
fn a_falling_ray_meets_the_line_below() {
    assert_eq!(next_line(Heading::Falling, &inside(3)), 0);
    assert_eq!(next_line(Heading::Falling, &on_line(3)), -1);
    assert_eq!(next_line(Heading::Falling, &inside(0)), 0);
    assert_eq!(next_line(Heading::Falling, &on_line(0)), -1);
}

#[test]
fn a_level_ray_is_measured_to_the_line_below_or_a_whole_cell() {
    assert_eq!(next_line(Heading::Level, &inside(3)), 0);
    assert_eq!(next_line(Heading::Level, &on_line(3)), 1);
    assert_eq!(next_line(Heading::Level, &inside(0)), 0);
    assert_eq!(next_line(Heading::Level, &on_line(0)), 1);
}

#[test]
fn on_a_line_the_next_line_is_a_whole_cell_away() {
    // At x = 2 and y = 3.5: heading right, the next line of x is a whole
    // cell away, and the next line of y is half a cell away.
    assert_eq!(distance(1.0, 2.0), 1.0);
    assert_eq!(distance(-1.0, 2.0), -1.0);
    assert_eq!(distance(0.0, 2.0), 1.0);
    assert_eq!(distance(1.0, 3.5), 0.5);
    assert_eq!(distance(-1.0, 3.5), -0.5);
    assert_eq!(distance(0.0, 3.5), -0.5);
    assert_eq!(distance(0.0, 3.5).abs(), 0.5);
}

#[test]
fn a_level_ray_never_decides_a_step() {
    // Along (1, 0) from (2, 3.5): the line of x lies one step ahead, the
    // line of y is never come to.
    let along_x = distance(1.0, 2.0) / 1.0;
    let along_y = distance(0.0, 3.5) / 0.0;
    assert_eq!(along_x, 1.0);
    assert!(along_y.is_infinite());
    assert!(along_x.abs() <= along_y.abs());
    let on_a_line = distance(0.0, 3.0) / 0.0;
    assert!(on_a_line.is_infinite());
}

#[test]
fn the_nearer_line_is_met_first() {
    // From (2, 3.5) along (1, 1), the line of y lies half a step ahead and
    // the line of x a whole step: the ray meets y = 4 first, at x = 2.5.
    let along_x = distance(1.0, 2.0) / 1.0;
    let along_y = distance(1.0, 3.5) / 1.0;
    assert_eq!((along_x, along_y), (1.0, 0.5));
    let step = if along_x.abs() <= along_y.abs() { along_x.abs() } else { along_y.abs() };
    assert_eq!((2.0 + 1.0 * step, 3.5 + 1.0 * step), (2.5, 4.0));
}

#[test]
fn the_face_of_a_wall_runs_along_the_other_axis() {
    assert_eq!(wall_face_axis(&GridPoint { x: on_line(5), y: inside(2) }), Axis::Y);
    assert_eq!(wall_face_axis(&GridPoint { x: inside(5), y: on_line(2) }), Axis::X);
    assert_eq!(wall_face_axis(&GridPoint { x: inside(5), y: inside(2) }), Axis::X);
}

#[test]
fn a_corner_counts_as_a_face_along_y() {
    assert_eq!(wall_face_axis(&GridPoint { x: on_line(5), y: on_line(2) }), Axis::Y);
    assert_eq!(wall_face_axis(&GridPoint { x: on_line(0), y: on_line(0) }), Axis::Y);
}

#[test]
fn a_point_inside_a_cell_belongs_to_it_whatever_the_heading() {
    let pos = GridPoint { x: inside(6), y: inside(5) };
    for x in HEADINGS {
        for y in HEADINGS {
            assert_eq!(ray(x, y).to_map_index(&pos, 20), 6 + 5 * 20);
        }
    }
}

#[test]
fn a_point_on_a_line_belongs_to_the_cell_ahead() {
    let pos = GridPoint { x: on_line(6), y: inside(5) };
    assert_eq!(ray(Heading::Rising, Heading::Level).to_map_index(&pos, 20), 6 + 5 * 20);
    assert_eq!(ray(Heading::Falling, Heading::Level).to_map_index(&pos, 20), 5 + 5 * 20);
    assert_eq!(ray(Heading::Level, Heading::Level).to_map_index(&pos, 20), 6 + 5 * 20);

    let pos = GridPoint { x: inside(6), y: on_line(5) };
    assert_eq!(ray(Heading::Level, Heading::Rising).to_map_index(&pos, 20), 6 + 5 * 20);
    assert_eq!(ray(Heading::Level, Heading::Falling).to_map_index(&pos, 20), 6 + 4 * 20);
    assert_eq!(ray(Heading::Level, Heading::Level).to_map_index(&pos, 20), 6 + 5 * 20);
}

#[test]
fn a_corner_is_settled_on_each_axis_by_itself() {
    let pos = GridPoint { x: on_line(3), y: on_line(4) };
    assert_eq!(ray(Heading::Rising, Heading::Rising).to_map_index(&pos, 20), 3 + 4 * 20);
    assert_eq!(ray(Heading::Falling, Heading::Rising).to_map_index(&pos, 20), 2 + 4 * 20);
    assert_eq!(ray(Heading::Rising, Heading::Falling).to_map_index(&pos, 20), 3 + 3 * 20);
    assert_eq!(ray(Heading::Falling, Heading::Falling).to_map_index(&pos, 20), 2 + 3 * 20);
}

#[test]
fn a_ray_on_a_line_heading_right_is_in_the_cell_at_the_line() {
    // At x = 2 and y = 3.5, heading right: the cell is column 2 of row 3.
    let pos = GridPoint { x: on_line(2), y: inside(3) };
    assert_eq!(ray(Heading::Rising, Heading::Level).to_map_index(&pos, 20), 2 + 3 * 20);
}

#[test]
fn before_the_first_cell_the_first_cell_is_taken() {
    let pos = GridPoint { x: on_line(0), y: on_line(0) };
    assert_eq!(ray(Heading::Falling, Heading::Falling).to_map_index(&pos, 20), 0);
    let pos = GridPoint { x: on_line(0), y: inside(2) };
    assert_eq!(ray(Heading::Falling, Heading::Rising).to_map_index(&pos, 20), 40);
}

#[test]
fn rows_are_as_far_apart_as_the_grid_is_high() {
    let pos = GridPoint { x: inside(2), y: inside(3) };
    assert_eq!(ray(Heading::Rising, Heading::Rising).to_map_index(&pos, 7), 2 + 3 * 7);
    assert_eq!(ray(Heading::Rising, Heading::Rising).to_map_index(&pos, 1), 5);
    assert_eq!(ray(Heading::Rising, Heading::Rising).to_map_index(&pos, 0), 2);
}

#[test]
fn a_place_too_large_is_the_largest() {
    let far = GridPoint { x: inside(usize::MAX), y: inside(usize::MAX) };
    let any = ray(Heading::Rising, Heading::Rising);
    assert_eq!(any.to_map_index(&far, usize::MAX), usize::MAX);
    assert_eq!(any.to_map_index(&far, 1), usize::MAX);
    assert_eq!(any.to_map_index(&far, 0), usize::MAX);
    let edge = GridPoint { x: inside(usize::MAX - 20), y: inside(1) };
    assert_eq!(any.to_map_index(&edge, 20), usize::MAX);
    assert_eq!(any.to_map_index(&edge, 19), usize::MAX - 1);
    assert_eq!(any.to_map_index(&edge, 21), usize::MAX);
}

#[test]
fn the_ring_of_walls_is_struck_from_the_centre() {
    // Three by three cells, walls all around the empty centre. A viewer in
    // the middle of the centre cell looks toward smaller x: the ray meets the
    // line x = 1 at y = 1.5, and the cell ahead is a wall of material 1.
    let ring = [1u16, 1, 1, 1, 0, 1, 1, 1, 1];
    let start = GridPoint { x: inside(1), y: inside(1) };
    let met = GridPoint { x: on_line(1), y: inside(1) };
    let toward_left = ray(Heading::Falling, Heading::Level);
    assert_eq!(cell_at(&ring, toward_left.to_map_index(&start, 3)), 0);
    assert_eq!(toward_left.to_map_index(&met, 3), 3);
    assert_eq!(cell_at(&ring, toward_left.to_map_index(&met, 3)), 1);

    // Toward larger x the ray meets the line x = 2.
    let met = GridPoint { x: on_line(2), y: inside(1) };
    let toward_right = ray(Heading::Rising, Heading::Level);
    assert_eq!(toward_right.to_map_index(&met, 3), 5);
    assert_eq!(cell_at(&ring, toward_right.to_map_index(&met, 3)), 1);

    // The wall is met half a cell from the viewer: from x = 1.5 toward
    // smaller x the next line lies at the whole part of x.
    let to_line = distance(-1.0, 1.5);
    assert_eq!(to_line, -0.5);
    let along_ray = to_line / -1.0;
    assert_eq!(along_ray, 0.5);
    let reached = (1.5 + -1.0 * along_ray, 1.5 + 0.0 * along_ray);
    assert_eq!(reached, (1.0, 1.5));
    let met = GridPoint { x: read(reached.0), y: read(reached.1) };
    assert_eq!(met, GridPoint { x: on_line(1), y: inside(1) });
    assert_eq!(cell_at(&ring, toward_left.to_map_index(&met, 3)), 1);
    assert_eq!(wall_face_axis(&met), Axis::Y);

    // Up and down alike.
    let met = GridPoint { x: inside(1), y: on_line(1) };
    assert_eq!(cell_at(&ring, ray(Heading::Level, Heading::Falling).to_map_index(&met, 3)), 1);
    let met = GridPoint { x: inside(1), y: on_line(2) };
    assert_eq!(cell_at(&ring, ray(Heading::Level, Heading::Rising).to_map_index(&met, 3)), 1);
}

#[test]
fn a_ray_in_the_world_meets_its_walls() {
    // From the cell in column 6 of row 5, toward smaller x, the ray crosses
    // the empty cell at x = 6 and meets the wall of material 2 at x = 5.
    let toward_left = ray(Heading::Falling, Heading::Level);
    let first = GridPoint { x: on_line(6), y: inside(5) };
    assert_eq!(cell_at(&MAP, toward_left.to_map_index(&first, MAP_HEIGHT)), 2);
    let toward_right = ray(Heading::Rising, Heading::Level);
    assert_eq!(cell_at(&MAP, toward_right.to_map_index(&first, MAP_HEIGHT)), 0);
    let second = GridPoint { x: on_line(7), y: inside(5) };
    assert_eq!(cell_at(&MAP, toward_right.to_map_index(&second, MAP_HEIGHT)), 2);
}

fn columns_of(screen_width: u32) -> Vec<u32> {
    let mut generator = RayGenerator::new(screen_width);
    let mut columns = Vec::new();
    while let Some(column) = generator.next_column() {
        columns.push(column);
    }
    assert_eq!(generator.next_column(), None);
    columns
}

#[test]
fn every_column_is_given_once_from_left_to_right() {
    assert_eq!(columns_of(1), vec![0]);
    assert_eq!(columns_of(2), vec![0, 1]);
    assert_eq!(columns_of(5), vec![0, 1, 2, 3, 4]);
    assert_eq!(columns_of(640), (0..640).collect::<Vec<u32>>());
}

#[test]
fn a_screen_without_columns_gives_none() {
    assert_eq!(columns_of(0), Vec::<u32>::new());
}

#[test]
fn a_spent_generator_stays_spent() {
    let mut generator = RayGenerator::new(2);
    assert_eq!(generator.next_column(), Some(0));
    assert_eq!(generator.next_column(), Some(1));
    for _ in 0..10 {
        assert_eq!(generator.next_column(), None);
    }
}
