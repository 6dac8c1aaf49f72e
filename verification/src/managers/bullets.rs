use vstd::prelude::*;

use crate::draw::{white, Position};
use crate::managers::enemies::{first_hit_index, lemma_first_hit_index, EnemyManager};
use crate::objects::bullet::{advanced_y, Bullet, BulletConfig};
use crate::objects::enemy::Enemy;
use crate::objects::starship::Starship;

verus! {

/// Where a bullet spawns: horizontally centered on the starship, at
/// the starship's top edge.
pub open spec fn bullet_start_x(starship: Starship, config: BulletConfig) -> int {
    starship.position.x + starship.size.width as int / 2 - config.size.width as int / 2
}

/// A bullet after one frame of upward travel.
pub open spec fn stepped_bullet(b: Bullet) -> Bullet {
    Bullet {
        position: Position {
            x: b.position.x,
            y: advanced_y(b.position.y as int, b.config.speed as int) as u32,
        },
        color: b.color,
        config: b.config,
    }
}

/// The live bullets after one frame: every bullet advanced by its
/// speed, and the ones past the screen top (`y < 1`) pruned, order
/// kept.
pub open spec fn advance_prune(bullets: Seq<Bullet>) -> Seq<Bullet>
    decreases bullets.len(),
{
    if bullets.len() == 0 {
        Seq::empty()
    } else {
        let rest = advance_prune(bullets.drop_last());
        let b = stepped_bullet(bullets.last());
        if b.position.y >= 1 {
            rest.push(b)
        } else {
            rest
        }
    }
}

/// One collision pass over the bullets in order: each bullet destroys
/// the first live enemy it overlaps, if any, and is itself removed;
/// each enemy falls to at most one bullet. Yields the surviving
/// bullets, the surviving enemies, and the number of hits scored.
pub open spec fn collide(bullets: Seq<Bullet>, enemies: Seq<Enemy>) -> (Seq<Bullet>, Seq<Enemy>, int)
    decreases bullets.len(),
{
    if bullets.len() == 0 {
        (Seq::<Bullet>::empty(), enemies, 0int)
    } else {
        let b = bullets[0];
        match first_hit_index(b.config.size, b.position, enemies) {
            Some(j) => {
                let r = collide(bullets.drop_first(), enemies.remove(j));
                (r.0, r.1, r.2 + 1)
            },
            None => {
                let r = collide(bullets.drop_first(), enemies);
                (seq![b] + r.0, r.1, r.2)
            },
        }
    }
}

/// Pruning is final within a frame: every bullet a frame leaves alive
/// stands strictly inside the screen, so a pruned bullet can never
/// reappear — only firing adds bullets.
pub proof fn lemma_advance_prune_live(bullets: Seq<Bullet>)
    ensures
        forall|i: int|
            0 <= i < advance_prune(bullets).len() ==> (#[trigger] advance_prune(
                bullets,
            )[i]).position.y >= 1,
    decreases bullets.len(),
{
    if bullets.len() > 0 {
        lemma_advance_prune_live(bullets.drop_last());
        let rest = advance_prune(bullets.drop_last());
        let b = stepped_bullet(bullets.last());
        assert forall|i: int|
            0 <= i < advance_prune(bullets).len() implies (#[trigger] advance_prune(
            bullets,
        )[i]).position.y >= 1 by {
            if b.position.y >= 1 {
                if i < rest.len() {
                    assert(rest[i].position.y >= 1);
                }
            } else {
                assert(rest[i].position.y >= 1);
            }
        }
    }
}

/// A collision pass scores at most one hit per bullet, destroys one
/// enemy per hit, and never adds bullets.
pub proof fn lemma_collide_len(bullets: Seq<Bullet>, enemies: Seq<Enemy>)
    ensures
        ({
            let r = collide(bullets, enemies);
            &&& 0 <= r.2 <= bullets.len()
            &&& r.2 <= enemies.len()
            &&& r.1.len() == enemies.len() - r.2
            &&& r.0.len() + r.2 == bullets.len()
        }),
    decreases bullets.len(),
{
    if bullets.len() > 0 {
        let b = bullets[0];
        lemma_first_hit_index(b.config.size, b.position, enemies);
        match first_hit_index(b.config.size, b.position, enemies) {
            Some(j) => {
                lemma_collide_len(bullets.drop_first(), enemies.remove(j));
            },
            None => {
                lemma_collide_len(bullets.drop_first(), enemies);
            },
        }
    }
}

/// A single bullet that overlaps exactly one enemy removes exactly
/// that enemy and itself, and scores exactly one hit, in one
/// collision pass.
pub proof fn lemma_single_bullet_scoring(bullets: Seq<Bullet>, enemies: Seq<Enemy>, j: int)
    requires
        bullets.len() == 1,
        0 <= j < enemies.len(),
        enemies[j].spec_is_hit(bullets[0].config.size, bullets[0].position),
        forall|k: int|
            0 <= k < enemies.len() && k != j ==> !enemies[k].spec_is_hit(
                bullets[0].config.size,
                bullets[0].position,
            ),
    ensures
        collide(bullets, enemies).0 == Seq::<Bullet>::empty(),
        collide(bullets, enemies).1 == enemies.remove(j),
        collide(bullets, enemies).2 == 1,
{
    let b = bullets[0];
    lemma_first_hit_index(b.config.size, b.position, enemies);
    match first_hit_index(b.config.size, b.position, enemies) {
        None => {
            assert(false);
        },
        Some(j0) => {
            assert(j0 == j);
            assert(bullets.drop_first().len() == 0);
            assert(collide(bullets.drop_first(), enemies.remove(j)) == (
                Seq::<Bullet>::empty(),
                enemies.remove(j),
                0int,
            ));
        },
    }
}

/// Owns the live bullets and their shared configuration.
pub struct BulletManager {
    pub bullets: Vec<Bullet>,
    pub config: BulletConfig,
}

impl BulletManager {
    pub fn new(config: BulletConfig) -> (m: BulletManager)
        ensures
            m.bullets@.len() == 0,
            m.config == config,
    {
        BulletManager { bullets: Vec::new(), config }
    }

    fn get_bullet_start_position(&self, starship: &Starship) -> (p: Position)
        requires
            0 <= bullet_start_x(*starship, self.config) <= u32::MAX,
        ensures
            p.x == bullet_start_x(*starship, self.config),
            p.y == starship.position.y,
    {
        let half_ship: u64 = (starship.size.width / 2) as u64;
        let half_bullet: u64 = (self.config.size.width / 2) as u64;
        let x: u64 = starship.position.x as u64 + half_ship - half_bullet;
        Position::set(x as u32, starship.position.y)
    }

    /// Appends one bullet, spawned centered on the starship's top
    /// edge; nothing limits how many may coexist.
    pub fn fire(&mut self, starship: &Starship)
        requires
            0 <= bullet_start_x(*starship, old(self).config) <= u32::MAX,
        ensures
            final(self).bullets@ == old(self).bullets@.push(
                Bullet {
                    position: (Position {
                        x: bullet_start_x(*starship, old(self).config) as u32,
                        y: starship.position.y,
                    }),
                    color: white(),
                    config: old(self).config,
                },
            ),
            final(self).config == old(self).config,
    {
        let bullet_position = self.get_bullet_start_position(starship);
        let bullet = Bullet::new(bullet_position, self.config);
        self.bullets.push(bullet);
    }

    /// Advances every bullet one frame and prunes the ones that left
    /// the top of the screen, in the same pass.
    pub fn update(&mut self)
        ensures
            final(self).bullets@ == advance_prune(old(self).bullets@),
            final(self).config == old(self).config,
    {
        let ghost bs = self.bullets@;
        let mut out: Vec<Bullet> = Vec::new();
        let mut i: usize = 0;
        while i < self.bullets.len()
            invariant
                self.bullets@ == bs,
                i <= bs.len(),
                out@ == advance_prune(bs.take(i as int)),
            decreases bs.len() - i,
        {
            let mut b = self.bullets[i];
            b.update();
            proof {
                assert(b == stepped_bullet(bs[i as int]));
                assert(bs.take(i as int + 1).drop_last() =~= bs.take(i as int));
                assert(bs.take(i as int + 1).last() == bs[i as int]);
            }
            if !b.is_off_screen() {
                out.push(b);
            }
            i = i + 1;
        }
        proof {
            assert(bs.take(bs.len() as int) =~= bs);
        }
        self.bullets = out;
    }

    /// Runs one bullet/enemy collision pass: walking the bullets in
    /// order, each bullet removes the first live enemy it overlaps and
    /// is removed itself; returns how many hits were scored.
    pub fn check_collisions(&mut self, enemies: &mut EnemyManager) -> (hits: usize)
        ensures
            final(self).bullets@ == collide(old(self).bullets@, old(enemies).enemies@).0,
            final(enemies).enemies@ == collide(old(self).bullets@, old(enemies).enemies@).1,
            hits == collide(old(self).bullets@, old(enemies).enemies@).2,
            final(self).config == old(self).config,
            final(enemies).direction == old(enemies).direction,
    {
        let ghost bs = self.bullets@;
        let ghost es0 = enemies.enemies@;
        let ghost full = collide(bs, es0);
        let mut kept: Vec<Bullet> = Vec::new();
        let mut hits: usize = 0;
        let mut i: usize = 0;
        proof {
            assert(bs.skip(0) =~= bs);
            assert(kept@ + full.0 =~= full.0);
        }
        while i < self.bullets.len()
            invariant
                self.bullets@ == bs,
                i <= bs.len(),
                hits <= i,
                full == collide(bs, es0),
                enemies.direction == old(enemies).direction,
                ({
                    let r = collide(bs.skip(i as int), enemies.enemies@);
                    full.0 == kept@ + r.0 && full.1 == r.1 && full.2 == hits + r.2
                }),
            decreases bs.len() - i,
        {
            let ghost es = enemies.enemies@;
            let ghost r = collide(bs.skip(i as int), es);
            let b = self.bullets[i];
            proof {
                assert(bs.skip(i as int)[0] == bs[i as int]);
                assert(bs.skip(i as int).drop_first() =~= bs.skip(i as int + 1));
            }
            match enemies.first_hit(&b.config.size, &b.position) {
                Some(j) => {
                    proof {
                        lemma_first_hit_index(b.config.size, b.position, es);
                    }
                    enemies.remove_enemy(j);
                    hits = hits + 1;
                },
                None => {
                    let ghost kept0 = kept@;
                    kept.push(b);
                    proof {
                        let r1 = collide(bs.skip(i as int + 1), es);
                        assert(r.0 == seq![bs[i as int]] + r1.0);
                        assert(kept0 + r.0 =~= kept@ + r1.0);
                    }
                },
            }
            i = i + 1;
        }
        proof {
            assert(bs.skip(bs.len() as int) =~= Seq::<Bullet>::empty());
            let r = collide(bs.skip(bs.len() as int), enemies.enemies@);
            assert(r.0 =~= Seq::<Bullet>::empty());
            assert(full.0 == kept@ + Seq::<Bullet>::empty());
            assert(kept@ + Seq::<Bullet>::empty() =~= kept@);
        }
        self.bullets = kept;
        hits
    }
}

} // verus!
