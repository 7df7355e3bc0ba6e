use crate::geometry::{dist_sq, within, Point};
use crate::state::GameState;
use crate::world::{
    hit_by_asteroid, hit_by_bullet, missed_by_asteroids, missed_by_bullets, touches_player,
    Asteroid, Bullet, Player, World, WorldView, HIT_RADIUS,
};
use vstd::prelude::*;

verus! {

/// Whether some bullet lies within the hit radius of `p`.
fn bullet_near(p: Point, bullets: &Vec<Bullet>) -> (r: bool)
    ensures
        r == hit_by_bullet(p, bullets@),
{
    let mut j: usize = 0;
    while j < bullets.len()
        invariant
            0 <= j <= bullets@.len(),
            forall|k: int|
                0 <= k < j ==> !(dist_sq(p, #[trigger] bullets@[k].position) < HIT_RADIUS
                    * HIT_RADIUS),
        decreases bullets@.len() - j,
    {
        if within(p, bullets[j].position, HIT_RADIUS) {
            return true;
        }
        j += 1;
    }
    false
}

/// Whether some asteroid lies within the hit radius of `p`.
fn asteroid_near(p: Point, asteroids: &Vec<Asteroid>) -> (r: bool)
    ensures
        r == hit_by_asteroid(p, asteroids@),
{
    let mut j: usize = 0;
    while j < asteroids.len()
        invariant
            0 <= j <= asteroids@.len(),
            forall|k: int|
                0 <= k < j ==> !(dist_sq(#[trigger] asteroids@[k].position, p) < HIT_RADIUS
                    * HIT_RADIUS),
        decreases asteroids@.len() - j,
    {
        if within(asteroids[j].position, p, HIT_RADIUS) {
            return true;
        }
        j += 1;
    }
    false
}

/// `v2` is `v` after the player-collision rule, which destroyed the asteroid
/// at index `r`, if any: the first that touches the player. It costs the
/// player one hit point; at none left the player is destroyed, the game
/// enters `GameOver` and the game-over banner goes up.
pub open spec fn player_hit(v: WorldView, v2: WorldView, r: Option<usize>) -> bool {
    &&& v.player is None ==> r is None
    &&& r is None ==> v2 == v
    &&& v.player matches Some(p) ==> (r is None <==> forall|k: int|
        0 <= k < v.asteroids.len() ==> !touches_player(#[trigger] v.asteroids[k], p.position))
    &&& r matches Some(k) ==> {
        let p = v.player->Some_0;
        &&& v.player is Some
        &&& 0 <= k < v.asteroids.len()
        &&& touches_player(v.asteroids[k as int], p.position)
        &&& forall|j: int| 0 <= j < k ==> !touches_player(#[trigger] v.asteroids[j], p.position)
        &&& v2 == if p.hp - 1 <= 0 {
            WorldView {
                asteroids: v.asteroids.remove(k as int),
                player: None,
                state: GameState::GameOver,
                game_over_text: true,
                ..v
            }
        } else {
            WorldView {
                asteroids: v.asteroids.remove(k as int),
                player: Some(Player { hp: (p.hp - 1) as i32, ..p }),
                ..v
            }
        }
    }
}

/// A collision with the player costs exactly one hit point: the game goes
/// on while points remain and ends, with the player gone, on the hit that
/// takes the last one.
pub proof fn lemma_hit_costs_one_point(v: WorldView, v2: WorldView, k: usize)
    requires
        v.wf(),
        v.state == GameState::Playing,
        player_hit(v, v2, Some(k)),
    ensures
        v.player is Some,
        v.player->Some_0.hp > 1 ==> v2.state == GameState::Playing && v2.player is Some
            && v2.player->Some_0.hp == v.player->Some_0.hp - 1,
        v.player->Some_0.hp == 1 ==> v2.state == GameState::GameOver && v2.player is None,
        v2.asteroids.len() == v.asteroids.len() - 1,
{
}

/// `v` after every asteroid and every bullet closer than the hit radius to
/// one of the other kind is destroyed, all pairs judged on the positions
/// before any removal.
pub open spec fn traded_fire(v: WorldView) -> WorldView {
    WorldView {
        asteroids: v.asteroids.filter(missed_by_bullets(v.bullets)),
        bullets: v.bullets.filter(missed_by_asteroids(v.asteroids)),
        ..v
    }
}

impl World {
    /// Every asteroid and every bullet closer than the hit radius to one of
    /// the other kind is destroyed; all pairs are judged on the positions
    /// before any removal.
    pub fn bullet_hits_asteroid(&mut self)
        ensures
            final(self)@ == traded_fire(old(self)@),
            old(self)@.wf() ==> final(self)@.wf(),
    {
        let ghost old_asts = self.asteroids@;
        let ghost old_bullets = self.bullets@;
        let ghost keep_a = missed_by_bullets(old_bullets);
        let ghost keep_b = missed_by_asteroids(old_asts);
        let mut kept_asteroids: Vec<Asteroid> = Vec::new();
        let mut i: usize = 0;
        while i < self.asteroids.len()
            invariant
                self.asteroids@ == old_asts,
                self.bullets@ == old_bullets,
                keep_a == missed_by_bullets(old_bullets),
                0 <= i <= old_asts.len(),
                kept_asteroids@ == old_asts.subrange(0, i as int).filter(keep_a),
            decreases old_asts.len() - i,
        {
            let a = self.asteroids[i];
            let hit = bullet_near(a.position, &self.bullets);
            proof {
                assert(old_asts.subrange(0, i as int + 1) =~= old_asts.subrange(0, i as int).push(a));
                old_asts.subrange(0, i as int).lemma_filter_push(a, keep_a);
            }
            if !hit {
                kept_asteroids.push(a);
            }
            i += 1;
        }
        let mut kept_bullets: Vec<Bullet> = Vec::new();
        let mut i: usize = 0;
        while i < self.bullets.len()
            invariant
                self.asteroids@ == old_asts,
                self.bullets@ == old_bullets,
                keep_b == missed_by_asteroids(old_asts),
                0 <= i <= old_bullets.len(),
                kept_bullets@ == old_bullets.subrange(0, i as int).filter(keep_b),
            decreases old_bullets.len() - i,
        {
            let b = self.bullets[i];
            let hit = asteroid_near(b.position, &self.asteroids);
            proof {
                assert(old_bullets.subrange(0, i as int + 1) =~= old_bullets.subrange(0, i as int).push(b));
                old_bullets.subrange(0, i as int).lemma_filter_push(b, keep_b);
            }
            if !hit {
                kept_bullets.push(b);
            }
            i += 1;
        }
        proof {
            assert(old_asts.subrange(0, old_asts.len() as int) =~= old_asts);
            assert(old_bullets.subrange(0, old_bullets.len() as int) =~= old_bullets);
            let fa = old_asts.filter(keep_a);
            let fb = old_bullets.filter(keep_b);
            if old(self)@.wf() {
                assert forall|i: int| 0 <= i < fa.len() implies (#[trigger] fa[i]).wf() by {
                    assert(fa.contains(fa[i]));
                    old_asts.lemma_filter_contains_rev(keep_a, fa[i]);
                    let j = choose|j: int| 0 <= j < old_asts.len() && old_asts[j] == fa[i];
                    assert(old_asts[j].wf());
                }
                assert forall|i: int| 0 <= i < fb.len() implies (#[trigger] fb[i]).wf() by {
                    assert(fb.contains(fb[i]));
                    old_bullets.lemma_filter_contains_rev(keep_b, fb[i]);
                    let j = choose|j: int| 0 <= j < old_bullets.len() && old_bullets[j] == fb[i];
                    assert(old_bullets[j].wf());
                }
            }
        }
        self.asteroids = kept_asteroids;
        self.bullets = kept_bullets;
    }

    /// The first asteroid, in order, that touches the player is destroyed and
    /// costs the player one hit point; at none left the player is destroyed,
    /// the game enters `GameOver` and the game-over banner goes up. Returns
    /// the index the destroyed asteroid had; with no player, or no asteroid
    /// in reach, nothing changes.
    pub fn despawn_asteroid(&mut self) -> (r: Option<usize>)
        requires
            old(self)@.wf(),
        ensures
            final(self)@.wf(),
            player_hit(old(self)@, final(self)@, r),
    {
        let p = match self.player {
            Some(p) => p,
            None => {
                return None;
            },
        };
        let mut k: usize = 0;
        while k < self.asteroids.len()
            invariant
                self@ == old(self)@,
                self.player == Some(p),
                old(self)@.wf(),
                p.wf(),
                0 <= k <= self.asteroids@.len(),
                forall|j: int|
                    0 <= j < k ==> !touches_player(#[trigger] self.asteroids@[j], p.position),
            decreases self.asteroids@.len() - k,
        {
            if within(self.asteroids[k].position, p.position, HIT_RADIUS) {
                self.asteroids.remove(k);
                let hp = p.hp - 1;
                if hp <= 0 {
                    self.player = None;
                    self.state = GameState::GameOver;
                    self.show_game_over();
                } else {
                    self.player = Some(Player { hp, ..p });
                }
                proof {
                    assert forall|i: int| 0 <= i < self.asteroids@.len() implies (
                    #[trigger] self.asteroids@[i]).wf() by {
                        if i >= k {
                            assert(self.asteroids@[i] == old(self)@.asteroids[i + 1]);
                            assert(old(self)@.asteroids[i + 1].wf());
                        } else {
                            assert(old(self)@.asteroids[i].wf());
                        }
                    }
                    assert(self@.bullets == old(self)@.bullets);
                }
                return Some(k);
            }
            k += 1;
        }
        None
    }
}

} // verus!
