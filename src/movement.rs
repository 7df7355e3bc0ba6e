use crate::geometry::{
    clamp_coord, dist_sq, heading, is_isqrt, scale_toward_zero, toward, Point, COORD_LIMIT, MILLI,
};
use crate::timer::RepeatTimer;
use crate::world::{Asteroid, Bullet, Player, World, WorldView};
use vstd::prelude::*;

verus! {

/// Thousandths of a unit the ship moves per tick for each thousandth of
/// stick deflection: three units per tick at full deflection.
pub const STICK_STEP: i64 = 3;

/// Squared stick deflection, in thousandths, below which aiming is ignored.
pub const AIM_DEADZONE_SQ: i64 = 10_000;

/// Bullet speed in units per second.
pub const BULLET_SPEED: i64 = 500;

/// Asteroid speed in thousandths of a unit per second.
pub const ASTEROID_SPEED: i64 = 100_000;

/// Microseconds in a second.
pub const MICROS_PER_SECOND: i64 = 1_000_000;

/// One reading of the player's gamepad. Sticks are in thousandths of full
/// deflection; `fire_held` is the right trigger, `restart_pressed` a press of
/// the east face button in this frame.
#[derive(Clone, Copy, Debug, PartialEq, Eq, Structural)]
pub struct PlayerController {
    pub right_x: i64,
    pub right_y: i64,
    pub left_x: i64,
    pub left_y: i64,
    pub fire_held: bool,
    pub restart_pressed: bool,
}

impl PlayerController {
    /// Every stick axis lies within full deflection.
    pub open spec fn wf(&self) -> bool {
        -MILLI <= self.right_x <= MILLI && -MILLI <= self.right_y <= MILLI && -MILLI
            <= self.left_x <= MILLI && -MILLI <= self.left_y <= MILLI
    }
}

/// Coordinate `c` moved for `dt` microseconds at `v` thousandths per second,
/// rounded toward zero and kept in the field.
pub open spec fn advance(c: int, v: int, dt: int) -> int {
    clamp_coord(c + scale_toward_zero(v, dt, MICROS_PER_SECOND as int))
}

/// Bullet `b` after flying `dt` microseconds.
pub open spec fn moved_bullet(b: Bullet, dt: int) -> Bullet {
    Bullet {
        position: Point {
            x: advance(b.position.x as int, b.facing.x * b.speed, dt) as i64,
            y: advance(b.position.y as int, b.facing.y * b.speed, dt) as i64,
        },
        ..b
    }
}

/// `a2` is asteroid `a` after `dt` microseconds heading for `target` at
/// asteroid speed.
pub open spec fn chased(a: Asteroid, target: Point, dt: int, a2: Asteroid) -> bool {
    exists|len: int|
        {
            let v = toward(
                target.x - a.position.x,
                target.y - a.position.y,
                ASTEROID_SPEED as int,
                len,
            );
            &&& #[trigger] is_isqrt(dist_sq(a.position, target), len)
            &&& a2 == Asteroid {
                position: Point {
                    x: advance(a.position.x as int, v.x as int, dt) as i64,
                    y: advance(a.position.y as int, v.y as int, dt) as i64,
                },
                ..a
            }
        }
}

/// `v` after every bullet flew for `dt` microseconds.
pub open spec fn bullets_flown(v: WorldView, dt: int) -> WorldView {
    WorldView { bullets: Seq::new(v.bullets.len(), |i: int| moved_bullet(v.bullets[i], dt)), ..v }
}

/// `v2` is `v` after every asteroid headed for the player for `dt`
/// microseconds; with no player nothing changes.
pub open spec fn asteroids_chased(v: WorldView, v2: WorldView, dt: int) -> bool {
    &&& (v.player is None ==> v2 == v)
    &&& (v.player matches Some(p) ==> {
        &&& v2 == (WorldView { asteroids: v2.asteroids, ..v })
        &&& v2.asteroids.len() == v.asteroids.len()
        &&& forall|i: int|
            0 <= i < v.asteroids.len() ==> chased(
                v.asteroids[i],
                p.position,
                dt,
                #[trigger] v2.asteroids[i],
            )
    })
}

/// The bullet that `shoot` fires from player `p`.
pub open spec fn bullet_from(p: Player) -> Bullet {
    Bullet { position: p.position, facing: p.facing, speed: BULLET_SPEED }
}

/// `v2` is `v` after the right stick of `pad` moved the ship by three
/// units per full deflection, whatever the frame time; with no ship or no
/// gamepad nothing changes.
pub open spec fn player_moved(v: WorldView, v2: WorldView, pad: Option<PlayerController>) -> bool {
    &&& (v.player matches Some(p) ==> (pad matches Some(c) ==> v2 == (WorldView {
        player: Some(
            Player {
                position: Point {
                    x: clamp_coord(p.position.x + c.right_x * STICK_STEP) as i64,
                    y: clamp_coord(p.position.y + c.right_y * STICK_STEP) as i64,
                },
                ..p
            },
        ),
        ..v
    })))
    &&& ((v.player is None || pad is None) ==> v2 == v)
}

/// `v2` is `v` after the left stick of `pad`, if deflected past the dead
/// zone, turned the ship to face it.
pub open spec fn player_aimed(v: WorldView, v2: WorldView, pad: Option<PlayerController>) -> bool {
    &&& (v.player matches Some(p) ==> (pad matches Some(c) ==> (c.left_x * c.left_x + c.left_y
        * c.left_y > AIM_DEADZONE_SQ ==> exists|len: int|
        #[trigger] is_isqrt(c.left_x * c.left_x + c.left_y * c.left_y, len) && v2 == (WorldView {
            player: Some(
                Player { facing: toward(c.left_x as int, c.left_y as int, MILLI as int, len), ..p },
            ),
            ..v
        }))))
    &&& ((v.player is None || pad is None || stick_at_rest(pad)) ==> v2 == v)
}

/// Whether `shoot` fires a bullet in world `v`.
pub open spec fn fires(v: WorldView, pad: Option<PlayerController>, dt: u64, ready: bool) -> bool {
    &&& ready
    &&& v.player is Some
    &&& pad matches Some(c) && c.fire_held
    &&& v.fire_rate.elapsed_us + dt >= v.fire_rate.period_us
}

/// `v2` is `v` after the firing rule: with the bullet sprite ready, a ship
/// and a gamepad, the fire-rate timer takes `dt` and a bullet leaves the
/// ship when it fires; otherwise nothing changes.
pub open spec fn shot(v: WorldView, v2: WorldView, pad: Option<PlayerController>, dt: u64, ready: bool) -> bool {
    &&& ((!ready || v.player is None || pad is None) ==> v2 == v)
    &&& (ready ==> (v.player matches Some(p) ==> (pad is Some ==> {
        let t = v.fire_rate;
        v2 == (WorldView {
            fire_rate: RepeatTimer {
                elapsed_us: ((t.elapsed_us + dt) % (t.period_us as int)) as u64,
                ..t
            },
            bullets: if fires(v, pad, dt, ready) {
                v.bullets.push(bullet_from(p))
            } else {
                v.bullets
            },
            ..v
        })
    })))
}

/// Moves coordinate `c` for `dt_us` microseconds at `v` thousandths of a unit
/// per second.
fn advance_coord(c: i64, v: i64, dt_us: u64) -> (r: i64)
    requires
        -COORD_LIMIT <= c <= COORD_LIMIT,
        -MILLI * MILLI <= v <= MILLI * MILLI,
    ensures
        r == advance(c as int, v as int, dt_us as int),
        -COORD_LIMIT <= r <= COORD_LIMIT,
{
    let speed: u128 = if v >= 0 { v as u128 } else { (-v) as u128 };
    proof {
        assert(speed * dt_us <= 1_000_000 * 0xffff_ffff_ffff_ffff) by (nonlinear_arith)
            requires
                speed <= 1_000_000,
                dt_us <= 0xffff_ffff_ffff_ffff,
        ;
        assert(speed * dt_us >= 0) by (nonlinear_arith);
    }
    let q: u128 = speed * (dt_us as u128) / (MICROS_PER_SECOND as u128);
    proof {
        assert(q <= speed * dt_us) by (nonlinear_arith)
            requires
                q == speed * dt_us / 1_000_000,
                speed * dt_us >= 0,
        ;
    }
    let moved: i128 = if v >= 0 { c as i128 + q as i128 } else { c as i128 - q as i128 };
    if moved < -(COORD_LIMIT as i128) {
        -COORD_LIMIT
    } else if moved > COORD_LIMIT as i128 {
        COORD_LIMIT
    } else {
        moved as i64
    }
}

impl World {
    /// The right stick moves the ship by three units per full deflection each
    /// tick, whatever the frame time; with no ship or no gamepad nothing
    /// changes.
    pub fn move_player(&mut self, pad: Option<PlayerController>)
        requires
            old(self)@.wf(),
            pad matches Some(c) ==> c.wf(),
        ensures
            final(self)@.wf(),
            player_moved(old(self)@, final(self)@, pad),
    {
        if let Some(p) = self.player {
            if let Some(c) = pad {
                let x: i64 = clamp(p.position.x + c.right_x * STICK_STEP);
                let y: i64 = clamp(p.position.y + c.right_y * STICK_STEP);
                self.player = Some(Player { position: Point { x, y }, ..p });
                assert(self@.bullets == old(self)@.bullets);
                assert(self@.asteroids == old(self)@.asteroids);
            }
        }
    }

    /// A left-stick deflection past the dead zone turns the ship to face it.
    pub fn aim(&mut self, pad: Option<PlayerController>)
        requires
            old(self)@.wf(),
            pad matches Some(c) ==> c.wf(),
        ensures
            final(self)@.wf(),
            player_aimed(old(self)@, final(self)@, pad),
    {
        if let Some(p) = self.player {
            if let Some(c) = pad {
                proof {
                    assert(c.left_x * c.left_x <= MILLI * MILLI && c.left_y * c.left_y <= MILLI
                        * MILLI) by (nonlinear_arith)
                        requires
                            c.wf(),
                    ;
                    assert(c.left_x * c.left_x >= 0 && c.left_y * c.left_y >= 0) by (nonlinear_arith);
                }
                if c.left_x * c.left_x + c.left_y * c.left_y > AIM_DEADZONE_SQ {
                    let stick = Point { x: c.left_x, y: c.left_y };
                    let origin = Point { x: 0, y: 0 };
                    let facing = heading(origin, stick, MILLI);
                    proof {
                        assert(dist_sq(origin, stick) == c.left_x * c.left_x + c.left_y * c.left_y)
                            by (nonlinear_arith)
                            requires
                                origin.x == 0 && origin.y == 0,
                                stick.x == c.left_x && stick.y == c.left_y,
                        ;
                    }
                    self.player = Some(Player { facing, ..p });
                    assert(self@.bullets == old(self)@.bullets);
                    assert(self@.asteroids == old(self)@.asteroids);
                }
            }
        }
    }

    /// Bullets fly along their facing at their speed for `dt_us` microseconds.
    pub fn move_bullet(&mut self, dt_us: u64)
        requires
            old(self)@.wf(),
        ensures
            final(self)@.wf(),
            final(self)@ == bullets_flown(old(self)@, dt_us as int),
    {
        let ghost old_bullets = self.bullets@;
        let mut moved: Vec<Bullet> = Vec::new();
        let mut i: usize = 0;
        while i < self.bullets.len()
            invariant
                self@ == old(self)@,
                old(self)@.wf(),
                old_bullets == self.bullets@,
                0 <= i <= old_bullets.len(),
                moved@.len() == i,
                forall|k: int| 0 <= k < i ==> #[trigger] moved@[k] == moved_bullet(old_bullets[k], dt_us as int),
                forall|k: int| 0 <= k < i ==> (#[trigger] moved@[k]).wf(),
            decreases old_bullets.len() - i,
        {
            let b = self.bullets[i];
            assert(old(self)@.bullets[i as int].wf());
            proof {
                lemma_velocity_bound(b.facing.x as int, b.speed as int);
                lemma_velocity_bound(b.facing.y as int, b.speed as int);
            }
            let x = advance_coord(b.position.x, b.facing.x * b.speed, dt_us);
            let y = advance_coord(b.position.y, b.facing.y * b.speed, dt_us);
            moved.push(Bullet { position: Point { x, y }, ..b });
            i += 1;
        }
        proof {
            assert(moved@ =~= Seq::new(
                old_bullets.len(),
                |i: int| moved_bullet(old_bullets[i], dt_us as int),
            ));
        }
        self.bullets = moved;
    }

    /// With a player, every asteroid heads straight for the player's current
    /// position at asteroid speed for `dt_us` microseconds.
    pub fn move_asteroids(&mut self, dt_us: u64)
        requires
            old(self)@.wf(),
        ensures
            final(self)@.wf(),
            asteroids_chased(old(self)@, final(self)@, dt_us as int),
    {
        let p = match self.player {
            Some(p) => p,
            None => {
                return;
            },
        };
        let ghost old_asts = self.asteroids@;
        let mut moved: Vec<Asteroid> = Vec::new();
        let mut i: usize = 0;
        while i < self.asteroids.len()
            invariant
                self@ == old(self)@,
                old(self)@.wf(),
                self.player == Some(p),
                p.wf(),
                old_asts == self.asteroids@,
                0 <= i <= old_asts.len(),
                moved@.len() == i,
                forall|k: int|
                    0 <= k < i ==> chased(old_asts[k], p.position, dt_us as int, #[trigger] moved@[k]),
                forall|k: int| 0 <= k < i ==> (#[trigger] moved@[k]).wf(),
            decreases old_asts.len() - i,
        {
            let a = self.asteroids[i];
            assert(old(self)@.asteroids[i as int].wf());
            let v = heading(a.position, p.position, ASTEROID_SPEED);
            let x = advance_coord(a.position.x, v.x, dt_us);
            let y = advance_coord(a.position.y, v.y, dt_us);
            let a2 = Asteroid { position: Point { x, y }, ..a };
            proof {
                let len = choose|len: int|
                    is_isqrt(dist_sq(a.position, p.position), len) && v == toward(
                        p.position.x - a.position.x,
                        p.position.y - a.position.y,
                        ASTEROID_SPEED as int,
                        len,
                    );
                assert(is_isqrt(dist_sq(a.position, p.position), len));
            }
            moved.push(a2);
            i += 1;
        }
        self.asteroids = moved;
        assert(self@.bullets == old(self)@.bullets);
        assert(forall|k: int| 0 <= k < self@.asteroids.len() ==> (#[trigger] self@.asteroids[k]).wf());
    }

    /// While the bullet sprite is ready and a ship and a gamepad are there,
    /// feeds `dt_us` to the fire-rate timer, and fires a bullet from the ship
    /// when the timer finishes while the trigger is held. Returns whether a
    /// bullet was fired.
    pub fn shoot(&mut self, pad: Option<PlayerController>, dt_us: u64, bullet_image_ready: bool) -> (fired: bool)
        requires
            old(self)@.wf(),
        ensures
            final(self)@.wf(),
            fired == fires(old(self)@, pad, dt_us, bullet_image_ready),
            shot(old(self)@, final(self)@, pad, dt_us, bullet_image_ready),
    {
        if !bullet_image_ready {
            return false;
        }
        let p = match self.player {
            Some(p) => p,
            None => {
                return false;
            },
        };
        let c = match pad {
            Some(c) => c,
            None => {
                return false;
            },
        };
        let finished = self.fire_rate.0.tick(dt_us);
        if finished && c.fire_held {
            self.bullets.push(Bullet { position: p.position, facing: p.facing, speed: BULLET_SPEED });
            proof {
                assert forall|i: int| 0 <= i < self.bullets@.len() implies (
                #[trigger] self.bullets@[i]).wf() by {
                    if i < old(self)@.bullets.len() {
                        assert(old(self)@.bullets[i].wf());
                    }
                }
            }
            true
        } else {
            assert(self@.bullets == old(self)@.bullets);
            assert(self@.asteroids == old(self)@.asteroids);
            false
        }
    }
}

/// The gamepad is there but its left stick rests inside the dead zone.
pub open spec fn stick_at_rest(pad: Option<PlayerController>) -> bool {
    pad matches Some(c) && c.left_x * c.left_x + c.left_y * c.left_y <= AIM_DEADZONE_SQ
}

/// A facing component times a speed stays within a million thousandths.
proof fn lemma_velocity_bound(f: int, s: int)
    requires
        -MILLI <= f <= MILLI,
        0 <= s <= MILLI,
    ensures
        -MILLI * MILLI <= f * s <= MILLI * MILLI,
{
    assert(-MILLI * MILLI <= f * s <= MILLI * MILLI) by (nonlinear_arith)
        requires
            -MILLI <= f <= MILLI,
            0 <= s <= MILLI,
    ;
}

/// `v` clamped into the field.
fn clamp(v: i64) -> (r: i64)
    ensures
        r == clamp_coord(v as int),
{
    if v < -COORD_LIMIT {
        -COORD_LIMIT
    } else if v > COORD_LIMIT {
        COORD_LIMIT
    } else {
        v
    }
}

} // verus!
