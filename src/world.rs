use crate::geometry::{dist_sq, Point, MILLI};
use crate::state::GameState;
use crate::timer::RepeatTimer;
use vstd::prelude::*;

verus! {

/// Hit points of a fresh player ship.
pub const PLAYER_HP: i32 = 4;

/// Centres closer than this collide: thirty units.
pub const HIT_RADIUS: i64 = 30_000;

/// Period of the asteroid spawn timer: one second.
pub const SPAWN_PERIOD_US: u64 = 1_000_000;

/// Period of the fire-rate timer: 0.15 seconds.
pub const FIRE_PERIOD_US: u64 = 150_000;

/// The player's ship.
#[derive(Clone, Copy, Debug, PartialEq, Eq, Structural)]
pub struct Player {
    pub position: Point,
    /// The way the nose points, a vector of length about `MILLI`.
    pub facing: Point,
    pub hp: i32,
}

/// A bullet flying along `facing` at `speed` units per second.
#[derive(Clone, Copy, Debug, PartialEq, Eq, Structural)]
pub struct Bullet {
    pub position: Point,
    pub facing: Point,
    pub speed: i64,
}

/// An asteroid; `vel` is its velocity when spawned in thousandths of a unit
/// per second, `angular_velocity` its spin in milliradians per second.
#[derive(Clone, Copy, Debug, PartialEq, Eq, Structural)]
pub struct Asteroid {
    pub position: Point,
    pub vel: Point,
    pub angular_velocity: i64,
}

/// The fire-rate timer: at most one bullet per period.
#[derive(Clone, Copy, Debug, PartialEq, Eq, Structural)]
pub struct FireRate(pub RepeatTimer);

/// The asteroid spawn timer: at most one asteroid per period.
#[derive(Clone, Copy, Debug, PartialEq, Eq, Structural)]
pub struct SpawnTimer(pub RepeatTimer);

/// A direction of length at most `MILLI` on each axis.
pub open spec fn unit_bounded(v: Point) -> bool {
    -MILLI <= v.x <= MILLI && -MILLI <= v.y <= MILLI
}

impl Player {
    pub open spec fn wf(&self) -> bool {
        self.position.in_field() && unit_bounded(self.facing) && self.hp >= 1
    }
}

impl Bullet {
    pub open spec fn wf(&self) -> bool {
        self.position.in_field() && unit_bounded(self.facing) && 0 <= self.speed <= MILLI
    }
}

impl Asteroid {
    pub open spec fn wf(&self) -> bool {
        self.position.in_field()
    }
}

/// Everything the rules read and change: the mode, the entities that a
/// cleanup removes (player, bullets, asteroids, the game-over banner) and the
/// two timers.
pub struct World {
    pub state: GameState,
    pub player: Option<Player>,
    pub bullets: Vec<Bullet>,
    pub asteroids: Vec<Asteroid>,
    pub game_over_text: bool,
    pub spawn_timer: SpawnTimer,
    pub fire_rate: FireRate,
}

/// An entity that a cleanup removes, named by its kind and its index in
/// the world.
#[derive(Clone, Copy, Debug, PartialEq, Eq, Structural)]
pub enum GameEntity {
    Player,
    Bullet(usize),
    Asteroid(usize),
    GameOverText,
}

/// The world as values.
pub struct WorldView {
    pub state: GameState,
    pub player: Option<Player>,
    pub bullets: Seq<Bullet>,
    pub asteroids: Seq<Asteroid>,
    pub game_over_text: bool,
    pub spawn_timer: RepeatTimer,
    pub fire_rate: RepeatTimer,
}

impl View for World {
    type V = WorldView;

    open spec fn view(&self) -> WorldView {
        WorldView {
            state: self.state,
            player: self.player,
            bullets: self.bullets@,
            asteroids: self.asteroids@,
            game_over_text: self.game_over_text,
            spawn_timer: self.spawn_timer.0,
            fire_rate: self.fire_rate.0,
        }
    }
}

impl WorldView {
    /// Every entity valid, a live player with at least one hit point, and
    /// both timers running with their fixed periods.
    pub open spec fn wf(&self) -> bool {
        &&& (self.player matches Some(p) ==> p.wf())
        &&& forall|i: int| 0 <= i < self.bullets.len() ==> (#[trigger] self.bullets[i]).wf()
        &&& forall|i: int| 0 <= i < self.asteroids.len() ==> (#[trigger] self.asteroids[i]).wf()
        &&& self.spawn_timer.wf() && self.spawn_timer.period_us == SPAWN_PERIOD_US
        &&& self.fire_rate.wf() && self.fire_rate.period_us == FIRE_PERIOD_US
    }

    /// How many entities a cleanup has to remove.
    pub open spec fn entity_count(&self) -> nat {
        (if self.player is Some { 1nat } else { 0nat }) + self.bullets.len()
            + self.asteroids.len() + (if self.game_over_text { 1nat } else { 0nat })
    }
}

/// Every entity of `v` that a cleanup removes: the player, the bullets and
/// the asteroids in order, then the game-over banner.
pub open spec fn tagged_entities(v: WorldView) -> Seq<GameEntity> {
    (if v.player is Some {
        seq![GameEntity::Player]
    } else {
        Seq::empty()
    }) + Seq::new(v.bullets.len(), |i: int| GameEntity::Bullet(i as usize)) + Seq::new(
        v.asteroids.len(),
        |i: int| GameEntity::Asteroid(i as usize),
    ) + (if v.game_over_text {
        seq![GameEntity::GameOverText]
    } else {
        Seq::empty()
    })
}

/// The ship a game starts with: at the centre, nose up, full hit points.
pub open spec fn fresh_player() -> Player {
    Player { position: Point { x: 0, y: 0 }, facing: Point { x: 0, y: MILLI }, hp: PLAYER_HP }
}

/// `v` with every entity removed and both timers back at zero.
pub open spec fn cleaned(v: WorldView) -> WorldView {
    WorldView {
        player: None,
        bullets: Seq::empty(),
        asteroids: Seq::empty(),
        game_over_text: false,
        spawn_timer: RepeatTimer { elapsed_us: 0, ..v.spawn_timer },
        fire_rate: RepeatTimer { elapsed_us: 0, ..v.fire_rate },
        ..v
    }
}

/// What entering `Playing` makes of `v`: a cleanup, then a fresh player.
pub open spec fn entered_playing(v: WorldView) -> WorldView {
    WorldView { state: GameState::Playing, player: Some(fresh_player()), ..cleaned(v) }
}

/// `v` after the restart rule: in `GameOver` a press of the restart button
/// enters `Playing`; otherwise nothing changes.
pub open spec fn restarted(v: WorldView, pressed: bool) -> WorldView {
    if v.state == GameState::GameOver && pressed {
        entered_playing(v)
    } else {
        v
    }
}

/// Whether some bullet of `bs` is within the hit radius of the point `q`.
pub open spec fn hit_by_bullet(q: Point, bs: Seq<Bullet>) -> bool {
    exists|j: int|
        0 <= j < bs.len() && dist_sq(q, #[trigger] bs[j].position) < HIT_RADIUS * HIT_RADIUS
}

/// Whether some asteroid of `asts` is within the hit radius of the point `q`.
pub open spec fn hit_by_asteroid(q: Point, asts: Seq<Asteroid>) -> bool {
    exists|j: int|
        0 <= j < asts.len() && dist_sq(#[trigger] asts[j].position, q) < HIT_RADIUS * HIT_RADIUS
}

/// The asteroids that no bullet of `bs` touches.
pub open spec fn missed_by_bullets(bs: Seq<Bullet>) -> spec_fn(Asteroid) -> bool {
    |a: Asteroid| !hit_by_bullet(a.position, bs)
}

/// The bullets that no asteroid of `asts` touches.
pub open spec fn missed_by_asteroids(asts: Seq<Asteroid>) -> spec_fn(Bullet) -> bool {
    |b: Bullet| !hit_by_asteroid(b.position, asts)
}

/// Whether asteroid `a` touches the player at `p`.
pub open spec fn touches_player(a: Asteroid, p: Point) -> bool {
    dist_sq(a.position, p) < HIT_RADIUS * HIT_RADIUS
}

/// Cleaning up twice removes no more than cleaning up once, and leaves no
/// entity either time.
pub proof fn lemma_cleanup_idempotent(v: WorldView)
    ensures
        cleaned(cleaned(v)) == cleaned(v),
        cleaned(v).entity_count() == 0,
        cleaned(cleaned(v)).entity_count() == 0,
        tagged_entities(cleaned(v)).len() == 0,
        tagged_entities(cleaned(cleaned(v))).len() == 0,
{
    assert(tagged_entities(cleaned(v)) =~= Seq::empty());
}

impl World {
    /// A world that has just entered `Playing`.
    pub fn new() -> (r: World)
        ensures
            r@.wf(),
            r@.state == GameState::Playing,
            r@.player == Some(fresh_player()),
            r@.bullets.len() == 0,
            r@.asteroids.len() == 0,
            !r@.game_over_text,
            r@.spawn_timer == (RepeatTimer { period_us: SPAWN_PERIOD_US, elapsed_us: 0 }),
            r@.fire_rate == (RepeatTimer { period_us: FIRE_PERIOD_US, elapsed_us: 0 }),
    {
        let mut w = World {
            state: GameState::Playing,
            player: None,
            bullets: Vec::new(),
            asteroids: Vec::new(),
            game_over_text: false,
            spawn_timer: SpawnTimer(RepeatTimer::from_micros(SPAWN_PERIOD_US)),
            fire_rate: FireRate(RepeatTimer::from_micros(FIRE_PERIOD_US)),
        };
        w.setup_system();
        w
    }

    /// Lists every entity that a cleanup removes.
    pub fn game_entities(&self) -> (r: Vec<GameEntity>)
        ensures
            r@ == tagged_entities(self@),
            r@.len() == self@.entity_count(),
    {
        let mut r: Vec<GameEntity> = Vec::new();
        if self.player.is_some() {
            r.push(GameEntity::Player);
        }
        let ghost head = r@;
        let mut i: usize = 0;
        while i < self.bullets.len()
            invariant
                0 <= i <= self.bullets@.len(),
                r@ == head + Seq::new(i as nat, |k: int| GameEntity::Bullet(k as usize)),
            decreases self.bullets@.len() - i,
        {
            r.push(GameEntity::Bullet(i));
            i += 1;
            proof {
                assert(r@ =~= head + Seq::new(i as nat, |k: int| GameEntity::Bullet(k as usize)));
            }
        }
        let ghost middle = r@;
        let mut j: usize = 0;
        while j < self.asteroids.len()
            invariant
                0 <= j <= self.asteroids@.len(),
                r@ == middle + Seq::new(j as nat, |k: int| GameEntity::Asteroid(k as usize)),
            decreases self.asteroids@.len() - j,
        {
            r.push(GameEntity::Asteroid(j));
            j += 1;
            proof {
                assert(r@ =~= middle + Seq::new(
                    j as nat,
                    |k: int| GameEntity::Asteroid(k as usize),
                ));
            }
        }
        let ghost tail = r@;
        if self.game_over_text {
            r.push(GameEntity::GameOverText);
        }
        proof {
            let v = self@;
            let pl = if v.player is Some {
                seq![GameEntity::Player]
            } else {
                Seq::<GameEntity>::empty()
            };
            let tx = if v.game_over_text {
                seq![GameEntity::GameOverText]
            } else {
                Seq::<GameEntity>::empty()
            };
            assert(head =~= pl);
            assert(r@ =~= tail + tx);
            assert(r@ =~= tagged_entities(v));
        }
        r
    }

    /// Removes every entity and sets both timers back to zero.
    pub fn cleanup_game(&mut self)
        ensures
            final(self)@ == cleaned(old(self)@),
            old(self)@.wf() ==> final(self)@.wf(),
    {
        self.player = None;
        self.bullets = Vec::new();
        self.asteroids = Vec::new();
        self.game_over_text = false;
        self.spawn_timer.0.reset();
        self.fire_rate.0.reset();
        proof {
            assert(self.bullets@ =~= Seq::<Bullet>::empty());
            assert(self.asteroids@ =~= Seq::<Asteroid>::empty());
        }
    }

    /// Places a fresh player ship.
    pub fn setup_system(&mut self)
        ensures
            final(self)@ == (WorldView { player: Some(fresh_player()), ..old(self)@ }),
    {
        self.player = Some(
            Player { position: Point { x: 0, y: 0 }, facing: Point { x: 0, y: MILLI }, hp: PLAYER_HP },
        );
    }

    /// Enters `Playing`: a cleanup, then a fresh player.
    pub fn enter_playing(&mut self)
        ensures
            final(self)@ == entered_playing(old(self)@),
            old(self)@.wf() ==> final(self)@.wf(),
    {
        self.state = GameState::Playing;
        self.cleanup_game();
        self.setup_system();
    }

    /// Puts up the game-over banner.
    pub fn show_game_over(&mut self)
        ensures
            final(self)@ == (WorldView { game_over_text: true, ..old(self)@ }),
    {
        self.game_over_text = true;
    }

    /// In `GameOver`, a press of the restart button on the gamepad starts a
    /// new game; otherwise nothing changes.
    pub fn restart_on_o(&mut self, restart_pressed: bool)
        ensures
            final(self)@ == restarted(old(self)@, restart_pressed),
            old(self)@.wf() ==> final(self)@.wf(),
    {
        if self.state == GameState::GameOver && restart_pressed {
            self.enter_playing();
        }
    }
}

} // verus!
