use vstd::prelude::*;

verus! {

/// Half the length of an edge of the cube.
pub const HALF_SIDE: i64 = 30;

/// Change of an angular speed per key press, in quarter degrees per tick.
pub const SPEED_STEP: i64 = 1;

/// The corners of the cube, centered on the origin.
pub open spec fn model_vertices() -> Seq<(i64, i64, i64)> {
    let s: i64 = HALF_SIDE;
    let n: i64 = (-HALF_SIDE) as i64;
    seq![
        (n, n, n),
        (s, n, n),
        (s, s, n),
        (n, s, n),
        (n, n, s),
        (s, n, s),
        (s, s, s),
        (n, s, s),
    ]
}

/// The edges of the cube, as pairs of indices into `model_vertices()`.
pub open spec fn model_edges() -> Seq<(usize, usize)> {
    seq![
        (0, 1),
        (1, 2),
        (2, 3),
        (3, 0),
        (4, 5),
        (5, 6),
        (6, 7),
        (7, 4),
        (0, 4),
        (1, 5),
        (2, 6),
        (3, 7),
    ]
}

/// What a key asks of the rotating cube.
#[derive(Debug, Clone, Copy, PartialEq, Eq, Structural)]
pub enum CubeKey {
    Quit,
    Reset,
    Left,
    Right,
    Up,
    Down,
}

/// A wireframe cube turning about two axes. Angles are counted in quarter degrees and
/// accumulate without wrapping; speeds are in quarter degrees per tick.
pub struct Cube {
    pub theta: i64,
    pub theta_speed: i64,
    pub sigma: i64,
    pub sigma_speed: i64,
    pub vertices: Vec<(i64, i64, i64)>,
    pub edges: Vec<(usize, usize)>,
}

impl Cube {
    /// The geometry is the cube's own.
    pub open spec fn wf(&self) -> bool {
        &&& self.vertices@ == model_vertices()
        &&& self.edges@ == model_edges()
    }

    /// A cube at rest, all angles and speeds zero.
    pub fn new() -> (c: Cube)
        ensures
            c.wf(),
            c.theta == 0,
            c.theta_speed == 0,
            c.sigma == 0,
            c.sigma_speed == 0,
    {
        let s = HALF_SIDE;
        let n = -HALF_SIDE;
        let vertices = vec![
            (n, n, n),
            (s, n, n),
            (s, s, n),
            (n, s, n),
            (n, n, s),
            (s, n, s),
            (s, s, s),
            (n, s, s),
        ];
        let edges = vec![
            (0, 1),
            (1, 2),
            (2, 3),
            (3, 0),
            (4, 5),
            (5, 6),
            (6, 7),
            (7, 4),
            (0, 4),
            (1, 5),
            (2, 6),
            (3, 7),
        ];
        assert(vertices@ =~= model_vertices());
        assert(edges@ =~= model_edges());
        Cube { theta: 0, theta_speed: 0, sigma: 0, sigma_speed: 0, vertices, edges }
    }

    /// One tick: each angle grows by its speed.
    pub fn step(&mut self)
        requires
            i64::MIN <= old(self).theta + old(self).theta_speed <= i64::MAX,
            i64::MIN <= old(self).sigma + old(self).sigma_speed <= i64::MAX,
        ensures
            *final(self) == (Cube {
                theta: (old(self).theta + old(self).theta_speed) as i64,
                sigma: (old(self).sigma + old(self).sigma_speed) as i64,
                ..*old(self)
            }),
    {
        self.theta = self.theta + self.theta_speed;
        self.sigma = self.sigma + self.sigma_speed;
    }

    /// Adds `delta` to the speed of `theta`.
    pub fn accelerate_theta(&mut self, delta: i64)
        requires
            i64::MIN <= old(self).theta_speed + delta <= i64::MAX,
        ensures
            *final(self) == (Cube {
                theta_speed: (old(self).theta_speed + delta) as i64,
                ..*old(self)
            }),
    {
        self.theta_speed = self.theta_speed + delta;
    }

    /// Adds `delta` to the speed of `sigma`.
    pub fn accelerate_sigma(&mut self, delta: i64)
        requires
            i64::MIN <= old(self).sigma_speed + delta <= i64::MAX,
        ensures
            *final(self) == (Cube {
                sigma_speed: (old(self).sigma_speed + delta) as i64,
                ..*old(self)
            }),
    {
        self.sigma_speed = self.sigma_speed + delta;
    }

    /// Puts both angles and both speeds back to zero; the geometry is left as it is.
    pub fn reset(&mut self)
        ensures
            *final(self) == (Cube {
                theta: 0,
                theta_speed: 0,
                sigma: 0,
                sigma_speed: 0,
                ..*old(self)
            }),
    {
        self.theta = 0;
        self.theta_speed = 0;
        self.sigma = 0;
        self.sigma_speed = 0;
    }

    /// Applies a key; returns whether the key asks to leave. Left and right speed up and slow
    /// down `sigma`, up and down do so for `theta`, by one step each.
    pub fn handle_key(&mut self, key: CubeKey) -> (quit: bool)
        requires
            i64::MIN + SPEED_STEP <= old(self).theta_speed <= i64::MAX - SPEED_STEP,
            i64::MIN + SPEED_STEP <= old(self).sigma_speed <= i64::MAX - SPEED_STEP,
        ensures
            quit <==> key == CubeKey::Quit,
            key == CubeKey::Quit ==> *final(self) == *old(self),
            key == CubeKey::Reset ==> *final(self) == (Cube {
                theta: 0,
                theta_speed: 0,
                sigma: 0,
                sigma_speed: 0,
                ..*old(self)
            }),
            key == CubeKey::Left ==> *final(self) == (Cube {
                sigma_speed: (old(self).sigma_speed + SPEED_STEP) as i64,
                ..*old(self)
            }),
            key == CubeKey::Right ==> *final(self) == (Cube {
                sigma_speed: (old(self).sigma_speed - SPEED_STEP) as i64,
                ..*old(self)
            }),
            key == CubeKey::Up ==> *final(self) == (Cube {
                theta_speed: (old(self).theta_speed + SPEED_STEP) as i64,
                ..*old(self)
            }),
            key == CubeKey::Down ==> *final(self) == (Cube {
                theta_speed: (old(self).theta_speed - SPEED_STEP) as i64,
                ..*old(self)
            }),
    {
        match key {
            CubeKey::Quit => {
                return true;
            },
            CubeKey::Reset => self.reset(),
            CubeKey::Left => self.accelerate_sigma(SPEED_STEP),
            CubeKey::Right => self.accelerate_sigma(-SPEED_STEP),
            CubeKey::Up => self.accelerate_theta(SPEED_STEP),
            CubeKey::Down => self.accelerate_theta(-SPEED_STEP),
        }
        false
    }
}

} // verus!
