use physics_sim::{PhysicsObject, PhysicsSolver, NUM_UNITS};

fn falling() -> PhysicsSolver<f64> {
    PhysicsSolver::new([0.0, 9.8], 1200.0)
}

fn body(current: [f64; 2], old: [f64; 2], acceleration: [f64; 2]) -> PhysicsObject<f64> {
    PhysicsObject {
        position_current: current,
        position_old: old,
        acceleration,
        points: vec![[0.0, 0.0], [1.0, 0.0], [0.5, 1.0]],
    }
}

fn close(a: f64, b: f64) -> bool {
    (a - b).abs() < 1e-12
}

#[test]
fn ten_units_span_the_window() {
    assert_eq!(NUM_UNITS, 10);
    let solver = falling();
    assert_eq!(solver.unit_size, 120.0);
    assert_eq!(solver.gravity, [0.0, 9.8]);
}

#[test]
fn starts_with_one_pentagon_at_rest() {
    let solver = falling();
    assert_eq!(solver.objects.len(), 1);
    let seed = &solver.objects[0];
    assert_eq!(seed.position_current, [5.0, 0.0]);
    assert_eq!(seed.position_old, [5.0, 0.0]);
    assert_eq!(seed.acceleration, [0.0, 0.0]);
    assert_eq!(
        seed.points,
        vec![[0.0, 0.0], [1.0, 0.0], [0.5, 1.0], [1.0, 2.0], [0.0, 2.0]]
    );
}

#[test]
fn first_tick_of_the_fall() {
    let mut solver = falling();
    solver.update(0.1);
    let seed = &solver.objects[0];
    assert_eq!(seed.position_current, [5.0, 9.8 * (0.1 * 0.1)]);
    assert!(close(seed.position_current[1], 0.098));
    assert_eq!(seed.position_old, [5.0, 0.0]);
    assert_eq!(seed.acceleration, [0.0, 0.0]);
    let on_screen = seed.get_pos(solver.unit_size);
    assert_eq!(on_screen[0], 600.0);
    assert_eq!(on_screen[1], 9.8 * (0.1 * 0.1) * 120.0);
    assert!(close(on_screen[1], 11.76));
}

#[test]
fn second_tick_of_the_fall() {
    let mut solver = falling();
    solver.update(0.1);
    solver.update(0.1);
    let first = 9.8 * (0.1 * 0.1);
    let seed = &solver.objects[0];
    assert_eq!(seed.position_current, [5.0, (first + (first - 0.0)) + 9.8 * (0.1 * 0.1)]);
    assert!(close(seed.position_current[1], 0.294));
    assert_eq!(seed.position_old, [5.0, first]);
    assert!(close(seed.position_old[1], 0.098));
    assert_eq!(seed.acceleration, [0.0, 0.0]);
}

#[test]
fn a_body_at_rest_moves_by_gravity_times_dt_squared() {
    for dt in [0.0, 0.001, 0.1, 0.5, 1.0, 16.0] {
        let mut solver = PhysicsSolver::new([-1.5, 9.8], 800.0);
        solver.objects[0] = body([3.0, -4.0], [3.0, -4.0], [0.0, 0.0]);
        solver.update(dt);
        let moved = &solver.objects[0];
        assert_eq!(
            moved.position_current,
            [3.0 + -1.5 * (dt * dt), -4.0 + 9.8 * (dt * dt)]
        );
        assert_eq!(moved.position_old, [3.0, -4.0]);
    }
}

#[test]
fn a_tick_of_no_length_leaves_a_resting_body_in_place() {
    let mut solver = falling();
    solver.update(0.0);
    assert_eq!(solver.objects[0].position_current, [5.0, 0.0]);
    assert_eq!(solver.objects[0].position_old, [5.0, 0.0]);
    assert_eq!(solver.objects[0].acceleration, [0.0, 0.0]);
}

#[test]
fn acceleration_is_zero_after_every_tick() {
    let mut solver = falling();
    solver.objects.push(body([1.0, 1.0], [0.5, 2.0], [7.0, -3.0]));
    for dt in [0.1, 0.25, 0.0, 2.0] {
        solver.update(dt);
        for object in solver.objects.iter() {
            assert_eq!(object.acceleration, [0.0, 0.0]);
        }
    }
}

#[test]
fn accelerate_accumulates() {
    let mut object = body([0.0, 0.0], [0.0, 0.0], [1.0, 2.0]);
    object.accelerate([0.5, 0.25]);
    assert_eq!(object.acceleration, [1.5, 2.25]);
    object.accelerate([0.5, 0.25]);
    assert_eq!(object.acceleration, [2.0, 2.5]);
    assert_eq!(object.position_current, [0.0, 0.0]);
    assert_eq!(object.position_old, [0.0, 0.0]);
}

#[test]
fn update_position_is_a_verlet_step() {
    let mut object = body([1.5, -2.25], [1.0, -2.0], [0.5, 4.0]);
    object.update_position(0.5);
    assert_eq!(object.position_current, [2.125, -1.5]);
    assert_eq!(object.position_old, [1.5, -2.25]);
    assert_eq!(object.acceleration, [0.0, 0.0]);
    assert_eq!(object.points, vec![[0.0, 0.0], [1.0, 0.0], [0.5, 1.0]]);
}

#[test]
fn a_moving_body_keeps_moving_without_acceleration() {
    let mut object = body([2.0, 3.0], [1.0, 5.0], [0.0, 0.0]);
    object.update_position(0.1);
    assert_eq!(object.position_current, [3.0, 1.0]);
    assert_eq!(object.position_old, [2.0, 3.0]);
}

#[test]
fn apply_gravity_only_accumulates() {
    let mut solver = falling();
    solver.objects.push(body([1.0, 1.0], [0.5, 2.0], [7.0, -3.0]));
    solver.apply_gravity();
    assert_eq!(solver.objects[0].acceleration, [0.0, 9.8]);
    assert_eq!(solver.objects[1].acceleration, [7.0, -3.0 + 9.8]);
    assert_eq!(solver.objects[0].position_current, [5.0, 0.0]);
    assert_eq!(solver.objects[1].position_current, [1.0, 1.0]);
    assert_eq!(solver.objects[1].position_old, [0.5, 2.0]);
}

#[test]
fn update_positions_steps_every_body_in_order() {
    let mut solver = falling();
    solver.objects.push(body([1.0, 1.0], [0.5, 2.0], [8.0, -4.0]));
    solver.update_positions(0.5);
    assert_eq!(solver.objects[0].position_current, [5.0, 0.0]);
    assert_eq!(solver.objects[0].position_old, [5.0, 0.0]);
    assert_eq!(solver.objects[1].position_current, [3.5, -1.0]);
    assert_eq!(solver.objects[1].position_old, [1.0, 1.0]);
    assert_eq!(solver.objects[1].acceleration, [0.0, 0.0]);
    assert_eq!(solver.gravity, [0.0, 9.8]);
    assert_eq!(solver.unit_size, 120.0);
}

#[test]
fn update_is_gravity_then_positions() {
    let mut whole = falling();
    whole.objects.push(body([1.0, 1.0], [0.5, 2.0], [8.0, -4.0]));
    let mut parts = falling();
    parts.objects.push(body([1.0, 1.0], [0.5, 2.0], [8.0, -4.0]));
    whole.update(0.25);
    parts.apply_gravity();
    parts.update_positions(0.25);
    for i in 0..2 {
        assert_eq!(whole.objects[i].position_current, parts.objects[i].position_current);
        assert_eq!(whole.objects[i].position_old, parts.objects[i].position_old);
        assert_eq!(whole.objects[i].acceleration, parts.objects[i].acceleration);
    }
    assert_eq!(
        whole.objects[1].position_current,
        [
            (1.0 + (1.0 - 0.5)) + (8.0 + 0.0) * (0.25 * 0.25),
            (1.0 + (1.0 - 2.0)) + (-4.0 + 9.8) * (0.25 * 0.25)
        ]
    );
}

#[test]
fn screen_position_scales_the_position() {
    let object = body([5.0, 0.25], [0.0, 0.0], [0.0, 0.0]);
    assert_eq!(object.get_pos(120.0), [600.0, 30.0]);
    assert_eq!(object.get_pos(1.0), [5.0, 0.25]);
    assert_eq!(object.get_pos(-2.0), [-10.0, -0.5]);
}

#[test]
fn screen_shape_scales_every_vertex_in_order() {
    let solver = falling();
    let shape = solver.objects[0].get_points(solver.unit_size);
    assert_eq!(
        shape,
        vec![[0.0, 0.0], [120.0, 0.0], [60.0, 120.0], [120.0, 240.0], [0.0, 240.0]]
    );
    assert_eq!(solver.objects[0].points.len(), 5);
}

#[test]
fn a_body_without_vertices_has_an_empty_shape() {
    let object = PhysicsObject {
        position_current: [1.0, 1.0],
        position_old: [1.0, 1.0],
        acceleration: [0.0, 0.0],
        points: Vec::new(),
    };
    assert_eq!(object.get_points(120.0), Vec::<[f64; 2]>::new());
}

#[test]
fn doubling_the_unit_size_doubles_every_coordinate() {
    let mut solver = falling();
    solver.update(0.1);
    solver.update(0.3);
    let object = &solver.objects[0];
    for unit_size in [120.0, 0.1, 77.7, 1e-3, 3.0e10] {
        let once = object.get_pos(unit_size);
        let twice = object.get_pos(2.0 * unit_size);
        assert_eq!(twice, [2.0 * once[0], 2.0 * once[1]]);
        let shape = object.get_points(unit_size);
        let doubled = object.get_points(2.0 * unit_size);
        assert_eq!(shape.len(), doubled.len());
        for i in 0..shape.len() {
            assert_eq!(doubled[i], [2.0 * shape[i][0], 2.0 * shape[i][1]]);
        }
    }
}

#[test]
fn resize_takes_a_tenth_of_the_width() {
    let mut solver = falling();
    solver.update(0.1);
    let before = solver.objects[0].position_current;
    solver.resize(800.0);
    assert_eq!(solver.unit_size, 80.0);
    solver.resize(1.0);
    assert_eq!(solver.unit_size, 0.1);
    assert_eq!(solver.gravity, [0.0, 9.8]);
    assert_eq!(solver.objects.len(), 1);
    assert_eq!(solver.objects[0].position_current, before);
}

#[test]
fn a_positive_width_gives_a_positive_unit_size() {
    let mut solver = falling();
    assert!(solver.unit_size > 0.0);
    for width in [1.0, 0.5, 320.0, 1200.0, 7680.0, 1e-300, 1e300] {
        solver.resize(width);
        assert!(solver.unit_size > 0.0);
    }
}

#[test]
fn resizing_twice_to_one_width_changes_nothing_more() {
    for width in [1200.0, 0.0, 1.0, 333.3, 1e300] {
        let mut solver = falling();
        solver.resize(width);
        let once = solver.unit_size;
        solver.resize(width);
        assert_eq!(solver.unit_size, once);
        assert_eq!(solver.unit_size, width / 10.0);
    }
}

#[test]
fn a_window_of_no_width_collapses_every_body_to_the_origin() {
    let mut solver = falling();
    solver.objects.push(body([1.0, 1.0], [0.5, 2.0], [8.0, -4.0]));
    solver.update(0.1);
    solver.resize(0.0);
    assert_eq!(solver.unit_size, 0.0);
    for object in solver.objects.iter() {
        assert_eq!(object.get_pos(solver.unit_size), [0.0, 0.0]);
        for vertex in object.get_points(solver.unit_size) {
            assert_eq!(vertex, [0.0, 0.0]);
        }
    }
}

#[test]
fn single_precision_runs_the_same_step() {
    let mut solver: PhysicsSolver<f32> = PhysicsSolver::new([0.0, 2.0], 1200.0);
    assert_eq!(solver.unit_size, 120.0);
    solver.update(0.5);
    assert_eq!(solver.objects[0].position_current, [5.0, 0.5]);
    assert_eq!(solver.objects[0].get_pos(solver.unit_size), [600.0, 60.0]);
}

#[test]
fn whole_numbers_run_the_same_step() {
    let mut solver: PhysicsSolver<u64> = PhysicsSolver::new([0, 10], 1200);
    assert_eq!(solver.unit_size, 120);
    solver.update(2);
    assert_eq!(solver.objects[0].position_current, [5, 40]);
    solver.update(2);
    assert_eq!(solver.objects[0].position_current, [5, 120]);
    assert_eq!(solver.objects[0].position_old, [5, 40]);
    assert_eq!(solver.objects[0].get_pos(solver.unit_size), [600, 14400]);
}
