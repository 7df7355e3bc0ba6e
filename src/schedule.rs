use crate::collision::{player_hit, traded_fire};
use crate::movement::{
    asteroids_chased, bullets_flown, player_aimed, player_moved, shot, PlayerController,
};
use crate::spawn::spawn_step;
use crate::state::GameState;
use crate::world::{restarted, World, WorldView};
use vstd::prelude::*;

verus! {

/// `v2` is `v` after the rules of `Playing` ran once in order: the ship
/// moves, fires, bullets fly, the ship aims, an asteroid may spawn,
/// asteroids home in, and bullets and asteroids in reach destroy each other.
pub open spec fn playing_rules(
    v: WorldView,
    v2: WorldView,
    pad: Option<PlayerController>,
    dt: u64,
    ready: bool,
) -> bool {
    exists|w1: WorldView, w2: WorldView, w3: WorldView, w4: WorldView, w5: WorldView|
        #![trigger player_moved(v, w1, pad), shot(w1, w2, pad, dt, ready), player_aimed(bullets_flown(w2, dt as int), w3, pad), spawn_step(w3, w4, dt), asteroids_chased(w4, w5, dt as int)]
        {
            &&& player_moved(v, w1, pad)
            &&& shot(w1, w2, pad, dt, ready)
            &&& player_aimed(bullets_flown(w2, dt as int), w3, pad)
            &&& spawn_step(w3, w4, dt)
            &&& asteroids_chased(w4, w5, dt as int)
            &&& v2 == traded_fire(w5)
        }
}

/// `v2` is `v` after the rules that a frame runs in `v`'s state: those of
/// `Playing`, or in `GameOver` the restart rule; in every state the
/// player-collision rule ends the frame.
pub open spec fn frame_step(
    v: WorldView,
    v2: WorldView,
    pad: Option<PlayerController>,
    dt: u64,
    ready: bool,
) -> bool {
    exists|mid: WorldView, r: Option<usize>|
        #![trigger player_hit(mid, v2, r)]
        {
            &&& (v.state == GameState::Playing ==> playing_rules(v, mid, pad, dt, ready))
            &&& (v.state == GameState::GameOver ==> mid == restarted(
                v,
                pad matches Some(c) && c.restart_pressed,
            ))
            &&& (v.state != GameState::Playing && v.state != GameState::GameOver ==> mid == v)
            &&& player_hit(mid, v2, r)
        }
}

impl World {
    /// Runs one frame of `dt_us` microseconds with the gamepad reading `pad`;
    /// `bullet_image_ready` tells whether the bullet sprite can be drawn yet.
    pub fn frame(&mut self, pad: Option<PlayerController>, dt_us: u64, bullet_image_ready: bool)
        requires
            old(self)@.wf(),
            pad matches Some(c) ==> c.wf(),
        ensures
            final(self)@.wf(),
            frame_step(old(self)@, final(self)@, pad, dt_us, bullet_image_ready),
    {
        let ghost v = self@;
        let ghost mid: WorldView;
        if self.state == GameState::Playing {
            self.move_player(pad);
            let ghost w1 = self@;
            self.shoot(pad, dt_us, bullet_image_ready);
            let ghost w2 = self@;
            self.move_bullet(dt_us);
            self.aim(pad);
            let ghost w3 = self@;
            self.spawn_asteroids(dt_us);
            let ghost w4 = self@;
            self.move_asteroids(dt_us);
            let ghost w5 = self@;
            self.bullet_hits_asteroid();
            proof {
                mid = self@;
                assert(player_moved(v, w1, pad) && shot(w1, w2, pad, dt_us, bullet_image_ready)
                    && player_aimed(bullets_flown(w2, dt_us as int), w3, pad) && spawn_step(
                    w3,
                    w4,
                    dt_us,
                ) && asteroids_chased(w4, w5, dt_us as int) && mid == traded_fire(w5));
            }
        } else if self.state == GameState::GameOver {
            let pressed = match pad {
                Some(c) => c.restart_pressed,
                None => false,
            };
            self.restart_on_o(pressed);
            proof {
                mid = self@;
            }
        } else {
            proof {
                mid = self@;
            }
        }
        let r = self.despawn_asteroid();
        proof {
            assert(player_hit(mid, self@, r));
        }
    }
}

} // verus!
