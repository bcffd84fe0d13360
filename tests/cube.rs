use arcade::cube::{Cube, CubeKey, HALF_SIDE};

#[test]
fn new_cube_is_at_rest() {
    let c = Cube::new();
    assert_eq!((c.theta, c.theta_speed, c.sigma, c.sigma_speed), (0, 0, 0, 0));
    assert_eq!(c.vertices.len(), 8);
    assert_eq!(c.edges.len(), 12);
    let s = HALF_SIDE;
    assert_eq!(c.vertices[0], (-s, -s, -s));
    assert_eq!(c.vertices[6], (s, s, s));
    assert_eq!(c.edges[3], (3, 0));
    assert_eq!(c.edges[11], (3, 7));
}

#[test]
fn still_cube_does_not_turn() {
    let mut c = Cube::new();
    for _ in 0..10 {
        c.step();
    }
    assert_eq!((c.theta, c.sigma), (0, 0));
}

#[test]
fn speeds_accumulate() {
    let mut c = Cube::new();
    c.handle_key(CubeKey::Up);
    c.handle_key(CubeKey::Up);
    c.handle_key(CubeKey::Right);
    assert_eq!((c.theta_speed, c.sigma_speed), (2, -1));
    c.step();
    c.step();
    c.step();
    assert_eq!((c.theta, c.sigma), (6, -3));
    c.handle_key(CubeKey::Down);
    c.handle_key(CubeKey::Left);
    c.handle_key(CubeKey::Left);
    c.step();
    assert_eq!((c.theta, c.sigma), (7, -2));
}

#[test]
fn reset_keeps_geometry() {
    let mut c = Cube::new();
    let vertices = c.vertices.clone();
    let edges = c.edges.clone();
    c.accelerate_theta(5);
    c.accelerate_sigma(-3);
    c.step();
    assert!(!c.handle_key(CubeKey::Reset));
    assert_eq!((c.theta, c.theta_speed, c.sigma, c.sigma_speed), (0, 0, 0, 0));
    assert_eq!(c.vertices, vertices);
    assert_eq!(c.edges, edges);
    assert!(c.handle_key(CubeKey::Quit));
}
