use vstd::prelude::*;

use crate::grid::IMAGE_SIZE;

verus! {

// The floating-point parameters are carried as IEEE-754 binary32 bit
// patterns: this crate copies and compares them, and never computes with
// them. `f32::to_bits` / `f32::from_bits` convert at the edges.
/// 100.0
pub const DEFAULT_ALIGN_RANGE: u32 = 0x42c8_0000;
/// 50.0
pub const DEFAULT_AVOID_RANGE: u32 = 0x4248_0000;
/// 50.0
pub const DEFAULT_CENTERING_RANGE: u32 = 0x4248_0000;
/// 5.0
pub const DEFAULT_ALIGN_FACTOR: u32 = 0x40a0_0000;
/// 5.0
pub const DEFAULT_AVOID_FACTOR: u32 = 0x40a0_0000;
/// 8.0
pub const DEFAULT_CENTERING_FACTOR: u32 = 0x4100_0000;
/// 10.0
pub const DEFAULT_BOUNDS_MARGIN: u32 = 0x4120_0000;
/// 0.25
pub const DEFAULT_BOUNDS_TURN_FACTOR: u32 = 0x3e80_0000;
/// 1.0
pub const DEFAULT_MAX_SPEED: u32 = 0x3f80_0000;

/// The smallest flock the simulation runs.
pub const MIN_BOIDS_COUNT: u32 = 1;

/// The user-tunable simulation parameters. All but `boids_count` are the
/// bit patterns of single-precision floats.
#[derive(Clone, Copy, Debug, PartialEq, Eq, Structural)]
pub struct BoidsConfig {
    pub boids_count: u32,
    pub align_range: u32,
    pub avoid_range: u32,
    pub centering_range: u32,
    pub align_factor: u32,
    pub avoid_factor: u32,
    pub centering_factor: u32,
    pub bounds_margin: u32,
    pub bounds_turn_factor: u32,
    pub max_speed: u32,
}

/// The defaults: a full texture of boids, ranges 100/50/50, factors 5/5/8,
/// bounds margin 10, bounds turn factor 0.25, max speed 1.
pub open spec fn default_config() -> BoidsConfig {
    BoidsConfig {
        boids_count: (IMAGE_SIZE * IMAGE_SIZE) as u32,
        align_range: DEFAULT_ALIGN_RANGE,
        avoid_range: DEFAULT_AVOID_RANGE,
        centering_range: DEFAULT_CENTERING_RANGE,
        align_factor: DEFAULT_ALIGN_FACTOR,
        avoid_factor: DEFAULT_AVOID_FACTOR,
        centering_factor: DEFAULT_CENTERING_FACTOR,
        bounds_margin: DEFAULT_BOUNDS_MARGIN,
        bounds_turn_factor: DEFAULT_BOUNDS_TURN_FACTOR,
        max_speed: DEFAULT_MAX_SPEED,
    }
}

/// `c` with every parameter but the speed cap back at its default.
pub open spec fn reset_config(c: BoidsConfig) -> BoidsConfig {
    BoidsConfig { max_speed: c.max_speed, ..default_config() }
}

/// `n` brought into `[MIN_BOIDS_COUNT, IMAGE_SIZE²]`.
pub open spec fn clamped_count(n: u32) -> u32 {
    if n < MIN_BOIDS_COUNT {
        MIN_BOIDS_COUNT
    } else if n > IMAGE_SIZE * IMAGE_SIZE {
        (IMAGE_SIZE * IMAGE_SIZE) as u32
    } else {
        n
    }
}

impl Default for BoidsConfig {
    fn default() -> (r: Self)
        ensures
            r == default_config(),
    {
        BoidsConfig {
            boids_count: IMAGE_SIZE * IMAGE_SIZE,
            align_range: DEFAULT_ALIGN_RANGE,
            avoid_range: DEFAULT_AVOID_RANGE,
            centering_range: DEFAULT_CENTERING_RANGE,
            align_factor: DEFAULT_ALIGN_FACTOR,
            avoid_factor: DEFAULT_AVOID_FACTOR,
            centering_factor: DEFAULT_CENTERING_FACTOR,
            bounds_margin: DEFAULT_BOUNDS_MARGIN,
            bounds_turn_factor: DEFAULT_BOUNDS_TURN_FACTOR,
            max_speed: DEFAULT_MAX_SPEED,
        }
    }
}

/// A boid count the textures can hold: at least one, at most one per texel.
pub fn clamp_boids_count(n: u32) -> (r: u32)
    ensures
        r == clamped_count(n),
        MIN_BOIDS_COUNT <= r <= IMAGE_SIZE * IMAGE_SIZE,
        MIN_BOIDS_COUNT <= n <= IMAGE_SIZE * IMAGE_SIZE ==> r == n,
{
    if n < MIN_BOIDS_COUNT {
        MIN_BOIDS_COUNT
    } else if n > IMAGE_SIZE * IMAGE_SIZE {
        IMAGE_SIZE * IMAGE_SIZE
    } else {
        n
    }
}

/// Whether the boid drawn for texel `index` is shown: only the first
/// `boids_count` boids are.
pub fn is_boid_visible(index: u32, boids_count: u32) -> (r: bool)
    ensures
        r == (index < boids_count),
{
    index < boids_count
}

impl BoidsConfig {
    /// Put every parameter but the speed cap back at its default.
    pub fn reset_to_defaults(&mut self)
        ensures
            *final(self) == reset_config(*old(self)),
    {
        let d = BoidsConfig::default();
        self.boids_count = d.boids_count;
        self.align_range = d.align_range;
        self.avoid_range = d.avoid_range;
        self.centering_range = d.centering_range;
        self.align_factor = d.align_factor;
        self.avoid_factor = d.avoid_factor;
        self.centering_factor = d.centering_factor;
        self.bounds_margin = d.bounds_margin;
        self.bounds_turn_factor = d.bounds_turn_factor;
    }

    /// Set the boid count, clamped to what the textures hold.
    pub fn set_boids_count(&mut self, n: u32)
        ensures
            *final(self) == (BoidsConfig { boids_count: clamped_count(n), ..*old(self) }),
    {
        self.boids_count = clamp_boids_count(n);
    }
}

/// The GPU-visible parameter block: the ten fields of the configuration in
/// the order the compute program reads them.
#[derive(Clone, Copy, Debug, PartialEq, Eq, Structural)]
pub struct BoidsUniform {
    pub boids_count: u32,
    pub align_range: u32,
    pub avoid_range: u32,
    pub centering_range: u32,
    pub align_factor: u32,
    pub avoid_factor: u32,
    pub centering_factor: u32,
    pub bounds_margin: u32,
    pub bounds_turn_factor: u32,
    pub max_speed: u32,
}

/// The block that mirrors `c`, field for field.
pub open spec fn uniform_of(c: BoidsConfig) -> BoidsUniform {
    BoidsUniform {
        boids_count: c.boids_count,
        align_range: c.align_range,
        avoid_range: c.avoid_range,
        centering_range: c.centering_range,
        align_factor: c.align_factor,
        avoid_factor: c.avoid_factor,
        centering_factor: c.centering_factor,
        bounds_margin: c.bounds_margin,
        bounds_turn_factor: c.bounds_turn_factor,
        max_speed: c.max_speed,
    }
}

/// The block before the first write: 2000 boids, ranges 100/50/50, factors
/// 5/5/5, bounds margin 2, bounds turn factor 0.5, max speed 1.
pub open spec fn default_uniform() -> BoidsUniform {
    BoidsUniform {
        boids_count: 2000,
        align_range: 0x42c8_0000,
        avoid_range: 0x4248_0000,
        centering_range: 0x4248_0000,
        align_factor: 0x40a0_0000,
        avoid_factor: 0x40a0_0000,
        centering_factor: 0x40a0_0000,
        bounds_margin: 0x4000_0000,
        bounds_turn_factor: 0x3f00_0000,
        max_speed: 0x3f80_0000,
    }
}

impl Default for BoidsUniform {
    fn default() -> (r: Self)
        ensures
            r == default_uniform(),
    {
        BoidsUniform {
            boids_count: 2000,
            align_range: 0x42c8_0000,
            avoid_range: 0x4248_0000,
            centering_range: 0x4248_0000,
            align_factor: 0x40a0_0000,
            avoid_factor: 0x40a0_0000,
            centering_factor: 0x40a0_0000,
            bounds_margin: 0x4000_0000,
            bounds_turn_factor: 0x3f00_0000,
            max_speed: 0x3f80_0000,
        }
    }
}

impl BoidsUniform {
    /// Copy all ten parameters of `config` into the block, unchanged and
    /// unchecked (clamping the boid count is the caller's part).
    pub fn write_config(&mut self, config: &BoidsConfig)
        ensures
            *final(self) == uniform_of(*config),
    {
        self.boids_count = config.boids_count;
        self.align_range = config.align_range;
        self.avoid_range = config.avoid_range;
        self.centering_range = config.centering_range;
        self.align_factor = config.align_factor;
        self.avoid_factor = config.avoid_factor;
        self.centering_factor = config.centering_factor;
        self.bounds_margin = config.bounds_margin;
        self.bounds_turn_factor = config.bounds_turn_factor;
        self.max_speed = config.max_speed;
    }
}

} // verus!
