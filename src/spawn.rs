use crate::geometry::{dist_sq, heading, is_isqrt, toward, Point};
use crate::movement::ASTEROID_SPEED;
use crate::timer::RepeatTimer;
use crate::world::{Asteroid, World, WorldView};
use vstd::prelude::*;

verus! {

/// Spawn candidates are drawn from `[-SPAWN_RANGE_X, SPAWN_RANGE_X)`.
pub const SPAWN_RANGE_X: i64 = 600_000;

/// Spawn candidates are drawn from `[-SPAWN_RANGE_Y, SPAWN_RANGE_Y)`.
pub const SPAWN_RANGE_Y: i64 = 350_000;

/// Half-width of the box around the player where nothing spawns.
pub const EXCLUSION_HALF_X: i64 = 200_000;

/// Half-height of the box around the player where nothing spawns.
pub const EXCLUSION_HALF_Y: i64 = 150_000;

/// Spin is drawn from `[-SPIN_LIMIT, SPIN_LIMIT)` milliradians per second.
pub const SPIN_LIMIT: i64 = 2_000;

/// Coordinate `c` pushed out of the band of half-width `half` around `p`:
/// away from `p` by `half`, on the side of `p` it already lies on.
pub open spec fn pushed_out(c: int, p: int, half: int) -> int {
    if -half < c - p < half {
        if c - p >= 0 {
            c + half
        } else {
            c - half
        }
    } else {
        c
    }
}

/// Whether `q` lies in the exclusion box around `p`.
pub open spec fn in_exclusion_box(q: Point, p: Point) -> bool {
    -EXCLUSION_HALF_X < q.x - p.x < EXCLUSION_HALF_X && -EXCLUSION_HALF_Y < q.y - p.y
        < EXCLUSION_HALF_Y
}

/// `a` is the asteroid made from the draws `x`, `y` and `spin` for a player
/// at `p`: placed out of the exclusion box, heading for `p` at asteroid speed.
pub open spec fn spawned_from(a: Asteroid, p: Point, x: int, y: int, spin: int) -> bool {
    &&& a.position.x == pushed_out(x, p.x as int, EXCLUSION_HALF_X as int)
    &&& a.position.y == pushed_out(y, p.y as int, EXCLUSION_HALF_Y as int)
    &&& a.angular_velocity == spin
    &&& exists|len: int|
        #[trigger] is_isqrt(dist_sq(a.position, p), len) && a.vel == toward(
            p.x - a.position.x,
            p.y - a.position.y,
            ASTEROID_SPEED as int,
            len,
        )
}

/// Whether `a` could come of one spawn for a player at `p`: made from draws
/// in the spawn ranges.
pub open spec fn spawn_outcome(a: Asteroid, p: Point) -> bool {
    exists|x: int, y: int, spin: int|
        -SPAWN_RANGE_X <= x < SPAWN_RANGE_X && -SPAWN_RANGE_Y <= y < SPAWN_RANGE_Y && -SPIN_LIMIT
            <= spin < SPIN_LIMIT && #[trigger] spawned_from(a, p, x, y, spin)
}

/// Relies on `rand::Rng::random_range` over the thread-local generator of
/// `rand::rng`: a uniformly drawn value of `lo..hi`; it panics on an empty
/// range, which `requires` rules out.
#[verifier::external_body]
fn draw_between(lo: i64, hi: i64) -> (r: i64)
    requires
        lo < hi,
    ensures
        lo <= r < hi,
{
    rand::Rng::random_range(&mut rand::rng(), lo..hi)
}

/// Coordinate `c` pushed out of the band of half-width `half` around `p`.
pub fn spawn_coordinate(c: i64, p: i64, half: i64) -> (r: i64)
    requires
        -1_000_000_000 <= c <= 1_000_000_000,
        -1_000_000_000 <= p <= 1_000_000_000,
        0 <= half <= 1_000_000_000,
    ensures
        r == pushed_out(c as int, p as int, half as int),
        r - p >= half || r - p <= -half,
{
    let d: i64 = c - p;
    if -half < d && d < half {
        if d >= 0 {
            c + half
        } else {
            c - half
        }
    } else {
        c
    }
}

/// The asteroid made from the draws `x`, `y` and `spin` for a player at
/// `player`; it never lies in the exclusion box.
pub fn asteroid_from_draws(player: Point, x: i64, y: i64, spin: i64) -> (a: Asteroid)
    requires
        player.in_field(),
        -SPAWN_RANGE_X <= x <= SPAWN_RANGE_X,
        -SPAWN_RANGE_Y <= y <= SPAWN_RANGE_Y,
    ensures
        spawned_from(a, player, x as int, y as int, spin as int),
        !in_exclusion_box(a.position, player),
        a.wf(),
{
    let sx = spawn_coordinate(x, player.x, EXCLUSION_HALF_X);
    let sy = spawn_coordinate(y, player.y, EXCLUSION_HALF_Y);
    let position = Point { x: sx, y: sy };
    let vel = heading(position, player, ASTEROID_SPEED);
    Asteroid { position, vel, angular_velocity: spin }
}

/// Whether the spawn rule adds an asteroid to `v` after `dt` microseconds:
/// the spawn timer finishes and a player is there.
pub open spec fn spawns(v: WorldView, dt: u64) -> bool {
    v.spawn_timer.elapsed_us + dt >= v.spawn_timer.period_us && v.player is Some
}

/// `v2` is `v` after the spawn rule: the spawn timer took `dt`, and when it
/// finished with a player there, one asteroid drawn at random joined the
/// end, out of the player's exclusion box.
pub open spec fn spawn_step(v: WorldView, v2: WorldView, dt: u64) -> bool {
    let t = v.spawn_timer;
    &&& v2 == (WorldView {
        spawn_timer: RepeatTimer {
            elapsed_us: ((t.elapsed_us + dt) % (t.period_us as int)) as u64,
            ..t
        },
        asteroids: v2.asteroids,
        ..v
    })
    &&& (!spawns(v, dt) ==> v2.asteroids == v.asteroids)
    &&& (spawns(v, dt) ==> {
        let p = v.player->Some_0.position;
        let a = v2.asteroids.last();
        &&& v2.asteroids == v.asteroids.push(a)
        &&& spawn_outcome(a, p)
        &&& !in_exclusion_box(a.position, p)
    })
}

impl World {
    /// Feeds `dt_us` to the spawn timer; when it finishes and a player is
    /// there, adds one asteroid made from fresh random draws. Returns whether
    /// one was added.
    pub fn spawn_asteroids(&mut self, dt_us: u64) -> (spawned: bool)
        requires
            old(self)@.wf(),
        ensures
            final(self)@.wf(),
            spawned == spawns(old(self)@, dt_us),
            spawn_step(old(self)@, final(self)@, dt_us),
    {
        let finished = self.spawn_timer.0.tick(dt_us);
        assert(self@.bullets == old(self)@.bullets);
        assert(self@.asteroids == old(self)@.asteroids);
        if !finished {
            return false;
        }
        let p = match self.player {
            Some(p) => p,
            None => {
                return false;
            },
        };
        let x = draw_between(-SPAWN_RANGE_X, SPAWN_RANGE_X);
        let y = draw_between(-SPAWN_RANGE_Y, SPAWN_RANGE_Y);
        let spin = draw_between(-SPIN_LIMIT, SPIN_LIMIT);
        let a = asteroid_from_draws(p.position, x, y, spin);
        self.asteroids.push(a);
        proof {
            assert(spawned_from(a, p.position, x as int, y as int, spin as int));
            assert forall|i: int| 0 <= i < self.asteroids@.len() implies (
            #[trigger] self.asteroids@[i]).wf() by {
                if i < old(self)@.asteroids.len() {
                    assert(old(self)@.asteroids[i].wf());
                }
            }
        }
        true
    }
}

} // verus!
