//! The collision engine.
//!
//! Two passes per tick, kept separate so that the pairwise scan reads a
//! consistent snapshot and a later pass applies the results:
//! detection-plus-physics emits [`CollisionEvent`]s and
//! [`DamageEvent`]s, resolution writes them back.
//!
//! The impulse physics of a colliding pair: decompose each velocity
//! into its component along the line of impact and the perpendicular
//! remainder, put the along-line components through the standard 1D
//! momentum-with-restitution formula, recombine, nudge the bodies
//! apart, and cap each resulting speed at the pre-collision combined
//! speed of the pair (plus a tiny epsilon so that two stationary
//! overlapping bodies can still separate).  The kinetic energy the
//! collision absorbed — taken before the nudge and the cap, which are
//! stabilisation fudges — converts to damage once it passes the
//! materiality threshold.

use vstd::prelude::*;
use crate::config::SimConfig;
use crate::entity::{AiRole, CollisionClass, DAMAGE_LIMIT, DamageType, Entity, MASS_LIMIT,
    MASS_MIN, POS_LIMIT, Projectile, ProjectileType, VEL_LIMIT};
use crate::events::{CollisionEvent, DamageEvent, MissileDetonationEvent};
use crate::fixed::{FP, clamp_s, div_t, mag, sq, sqrt_floor, div128, lemma_div_t_mag,
    lemma_mag_mul, lemma_mul_mag_le, lemma_muldiv_mag, lemma_scale_le, lemma_sq_monotone,
    lemma_unit_comp, muldiv64};
use crate::store::EntityStore;
use crate::vec2::{Vec2, clamp_len_s, norm_sq_s};

verus! {

/// The line of impact: the vector from the first body's centre to the
/// second's, normalised to fixed-point unit length against the
/// rounded-down distance; an arbitrary unit vector where the two
/// centres coincide, so the formulas never see a zero direction.
pub open spec fn impact_normal_s(p1: Vec2, p2: Vec2) -> (int, int) {
    let dx = p2.x - p1.x;
    let dy = p2.y - p1.y;
    let dl = sqrt_floor(norm_sq_s(dx, dy) as nat) as int;
    if dl == 0 {
        (FP as int, 0)
    } else {
        (div_t(dx * FP, dl), div_t(dy * FP, dl))
    }
}

/// The component of `v` along the unit direction `(nx, ny)`.
pub open spec fn along_s(v: Vec2, nx: int, ny: int) -> int {
    div_t(v.x * nx + v.y * ny, FP as int)
}

/// The standard 1D elastic-collision-with-restitution update of this
/// body's along-line speed: momentum is conserved and a fraction
/// `e / FP` of the relative approach speed is restored as separation
/// speed.
pub open spec fn impulse_s(m_self: int, m_other: int, u_self: int, u_other: int, e: int) -> int {
    div_t(
        m_self * u_self + m_other * u_other + div_t(
            (m_other * (u_other - u_self)) * e,
            FP as int,
        ),
        m_self + m_other,
    )
}

/// One coordinate of the recombined velocity: the perpendicular part
/// is untouched, the along-line part is replaced.
pub open spec fn post_comp_s(vc: int, nc: int, u_old: int, u_new: int) -> int {
    vc - div_t(nc * u_old, FP as int) + div_t(nc * u_new, FP as int)
}

/// Total kinetic energy of the pair, in fixed-point joules:
/// `(m1 |v1|^2 + m2 |v2|^2) / 2`, with the fixed-point scales of the
/// squared speed divided back out.
pub open spec fn ke_pair_s(m1: int, ns1: int, m2: int, ns2: int) -> int {
    div_t(m1 * ns1 + m2 * ns2, 2 * (FP as int) * (FP as int))
}

/// One coordinate of a body's velocity after the separating nudge:
/// `away` is `-1` for the first body (pushed against the normal) and
/// `1` for the second.
pub open spec fn nudged_comp_s(wc: int, nc: int, rep: int, away: int) -> int {
    wc + away * div_t(nc * rep, FP as int)
}

/// The damage each participant takes from `ke_abs` of absorbed energy:
/// half of it, converted by `ke_to_dmg / FP`, saturated into the
/// representable damage range.
pub open spec fn collision_damage_s(ke_abs: int, cfg: SimConfig) -> int {
    clamp_s(div_t(ke_abs * cfg.ke_to_dmg, 2 * (FP as int)), 0, DAMAGE_LIMIT as int)
}

/// Everything the collision of one pair produces.
pub struct PairOutcome {
    /// Post-collision velocity of the first body.
    pub v1: Vec2,
    /// Post-collision velocity of the second body.
    pub v2: Vec2,
    /// The pre-collision combined speed of the pair: the speed cap.
    pub cap: i64,
    /// Kinetic energy the collision absorbed, before nudge and cap.
    pub ke_absorbed: i128,
    /// Whether the absorbed energy passed the materiality threshold.
    pub damaging: bool,
    /// Damage per participant, meaningful when `damaging`.
    pub damage: i64,
}

/// The along-line impulse stays within three times the bound of the
/// along-line speeds.
proof fn lemma_impulse_bound(m_self: int, m_other: int, u_self: int, u_other: int, e: int, ub: int)
    requires
        MASS_MIN <= m_self,
        MASS_MIN <= m_other,
        0 < e <= FP,
        mag(u_self) <= ub,
        mag(u_other) <= ub,
    ensures
        mag(impulse_s(m_self, m_other, u_self, u_other, e)) <= 3 * ub,
{
    let pre = m_other * (u_other - u_self);
    lemma_mul_mag_le(m_other, u_other - u_self, m_other, 2 * ub);
    crate::fixed::lemma_damp_shrinks(pre, e, FP as int);
    let imp = div_t(pre * e, FP as int);
    lemma_mul_mag_le(m_self, u_self, m_self, ub);
    lemma_mul_mag_le(m_other, u_other, m_other, ub);
    let num = m_self * u_self + m_other * u_other + imp;
    assert(mag(num) <= m_self * ub + m_other * ub + m_other * (2 * ub));
    assert(m_self * ub + m_other * ub + m_other * (2 * ub) <= (3 * ub) * (m_self + m_other))
        by (nonlinear_arith)
        requires
            m_self >= 1 && m_other >= 1 && ub >= 0,
    ;
    lemma_div_t_mag(num, m_self + m_other);
    vstd::arithmetic::div_mod::lemma_div_is_ordered(
        mag(num),
        (3 * ub) * (m_self + m_other),
        m_self + m_other,
    );
    vstd::arithmetic::div_mod::lemma_div_multiples_vanish(3 * ub, m_self + m_other);
}

/// Compute the impact normal of a pair of positions.
fn impact_normal(p1: Vec2, p2: Vec2) -> (n: Vec2)
    requires
        p1.in_bounds(POS_LIMIT as int),
        p2.in_bounds(POS_LIMIT as int),
    ensures
        (n.x as int, n.y as int) == impact_normal_s(p1, p2),
        n.in_bounds(FP as int),
{
    let d = p2.sub(p1);
    let dl = d.norm_exec();
    if dl == 0 {
        Vec2 { x: FP, y: 0 }
    } else {
        proof {
            if mag(d.x as int) > dl {
                lemma_sq_monotone(dl as int + 1, mag(d.x as int));
                assert(sq(mag(d.x as int)) == sq(d.x as int)) by (nonlinear_arith);
                assert(sq(d.x as int) <= d.norm_sq()) by (nonlinear_arith);
                assert(false);
            }
            if mag(d.y as int) > dl {
                lemma_sq_monotone(dl as int + 1, mag(d.y as int));
                assert(sq(mag(d.y as int)) == sq(d.y as int)) by (nonlinear_arith);
                assert(sq(d.y as int) <= d.norm_sq()) by (nonlinear_arith);
                assert(false);
            }
            lemma_unit_comp(d.x as int, dl as int, FP as int);
            lemma_unit_comp(d.y as int, dl as int, FP as int);
        }
        Vec2 { x: muldiv64(d.x, FP, dl), y: muldiv64(d.y, FP, dl) }
    }
}

/// The full impulse physics of one colliding pair.
///
/// The contract mirrors the computation exactly, and states the two
/// headline guarantees outright: neither post-collision speed exceeds
/// the pre-collision combined speed of the pair by more than the
/// configured epsilon, and damage is emitted exactly when the absorbed
/// kinetic energy passes the threshold, at half the converted energy
/// per participant.
pub fn collide_pair(
    p1: Vec2,
    v1: Vec2,
    m1: i64,
    p2: Vec2,
    v2: Vec2,
    m2: i64,
    cfg: &SimConfig,
) -> (out: PairOutcome)
    requires
        cfg.wf(),
        p1.in_bounds(POS_LIMIT as int),
        p2.in_bounds(POS_LIMIT as int),
        v1.in_bounds(VEL_LIMIT as int),
        v2.in_bounds(VEL_LIMIT as int),
        MASS_MIN <= m1 <= MASS_LIMIT,
        MASS_MIN <= m2 <= MASS_LIMIT,
    ensures
        out.cap == sqrt_floor(v1.norm_sq() as nat) + sqrt_floor(v2.norm_sq() as nat),
        out.v1.norm_sq() <= sq(out.cap + cfg.cap_epsilon),
        out.v2.norm_sq() <= sq(out.cap + cfg.cap_epsilon),
        out.v1.in_bounds(VEL_LIMIT as int),
        out.v2.in_bounds(VEL_LIMIT as int),
        out.ke_absorbed == collide_ke_abs_s(p1, v1, m1 as int, p2, v2, m2 as int, *cfg),
        out.damaging == (out.ke_absorbed > cfg.damage_threshold),
        out.damage == collision_damage_s(out.ke_absorbed as int, *cfg),
        (out.v1.x as int, out.v1.y as int) == collide_v1_s(p1, v1, m1 as int, p2, v2, m2 as int, *cfg),
        (out.v2.x as int, out.v2.y as int) == collide_v2_s(p1, v1, m1 as int, p2, v2, m2 as int, *cfg),
{
    let n = impact_normal(p1, p2);

    // Along-line speed components.
    let d1: i128 = v1.dot(n);
    let d2: i128 = v2.dot(n);
    proof {
        lemma_mul_mag_le(v1.x as int, n.x as int, VEL_LIMIT as int, FP as int);
        lemma_mul_mag_le(v1.y as int, n.y as int, VEL_LIMIT as int, FP as int);
        lemma_mul_mag_le(v2.x as int, n.x as int, VEL_LIMIT as int, FP as int);
        lemma_mul_mag_le(v2.y as int, n.y as int, VEL_LIMIT as int, FP as int);
        lemma_div_t_mag(d1 as int, FP as int);
        lemma_div_t_mag(d2 as int, FP as int);
        vstd::arithmetic::div_mod::lemma_div_is_ordered(
            mag(d1 as int),
            2_000_000_000_000,
            FP as int,
        );
        vstd::arithmetic::div_mod::lemma_div_is_ordered(
            mag(d2 as int),
            2_000_000_000_000,
            FP as int,
        );
    }
    let u1: i64 = div128(d1, FP as i128) as i64;
    let u2: i64 = div128(d2, FP as i128) as i64;

    // 1D momentum-and-restitution update along the line of impact.
    let u1p: i64 = impulse(m1, m2, u1, u2, cfg.restitution);
    let u2p: i64 = impulse(m2, m1, u2, u1, cfg.restitution);

    // Recombine with the unchanged perpendicular components.
    let w1 = post_velocity(v1, n, u1, u1p);
    let w2 = post_velocity(v2, n, u2, u2p);

    // Energy bookkeeping, before the stabilisation fudges below.
    let ke_i: i128 = ke_pair(m1, v1, m2, v2, 1_000_000_000);
    let ke_f: i128 = ke_pair(m1, w1, m2, w2, 9_000_000_000);
    let ke_abs: i128 = ke_i - ke_f;

    // A slight repulsion apart, against persistent tangling.
    proof {
        lemma_unit_comp(n.x as int, FP as int, cfg.repulsion as int);
        lemma_unit_comp(n.y as int, FP as int, cfg.repulsion as int);
    }
    let nudge_x: i64 = muldiv64(n.x, cfg.repulsion, FP);
    let nudge_y: i64 = muldiv64(n.y, cfg.repulsion, FP);
    let w1n = Vec2 { x: w1.x - nudge_x, y: w1.y - nudge_y };
    let w2n = Vec2 { x: w2.x + nudge_x, y: w2.y + nudge_y };

    // Cap each post-collision speed at the combined pre-collision
    // speed, with a tiny epsilon of slack.
    let s1: i64 = v1.norm_exec();
    let s2: i64 = v2.norm_exec();
    proof {
        lemma_mul_mag_le(v1.x as int, v1.x as int, 1_000_000_000, 1_000_000_000);
        lemma_mul_mag_le(v1.y as int, v1.y as int, 1_000_000_000, 1_000_000_000);
        lemma_mul_mag_le(v2.x as int, v2.x as int, 1_000_000_000, 1_000_000_000);
        lemma_mul_mag_le(v2.y as int, v2.y as int, 1_000_000_000, 1_000_000_000);
        assert(v1.norm_sq() <= 2_000_000_000_000_000_000);
        assert(v2.norm_sq() <= 2_000_000_000_000_000_000);
        if s1 > 1_500_000_000 {
            lemma_sq_monotone(1_500_000_000, s1 as int);
            assert(false);
        }
        if s2 > 1_500_000_000 {
            lemma_sq_monotone(1_500_000_000, s2 as int);
            assert(false);
        }
    }
    let cap: i64 = s1 + s2;
    let f1 = w1n.clamp_len(cap + cfg.cap_epsilon).clamp_box(VEL_LIMIT);
    let f2 = w2n.clamp_len(cap + cfg.cap_epsilon).clamp_box(VEL_LIMIT);

    // Damage once the absorbed energy is material.
    let damaging = ke_abs > cfg.damage_threshold as i128;
    proof {
        lemma_mul_mag_le(ke_abs as int, cfg.ke_to_dmg as int, mag(ke_abs as int), FP as int);
        lemma_div_t_mag(ke_abs as int * cfg.ke_to_dmg as int, 2 * (FP as int));
    }
    let scaled: i128 = div128((ke_abs) * (cfg.ke_to_dmg as i128), 2 * (FP as i128));
    let damage: i64 = if scaled < 0 {
        0
    } else if scaled > DAMAGE_LIMIT as i128 {
        DAMAGE_LIMIT
    } else {
        scaled as i64
    };

    PairOutcome { v1: f1, v2: f2, cap, ke_absorbed: ke_abs, damaging, damage }
}

/// The absorbed kinetic energy of a colliding pair: initial energy
/// minus the energy of the recombined velocities, before nudge and cap.
pub open spec fn collide_ke_abs_s(
    p1: Vec2,
    v1: Vec2,
    m1: int,
    p2: Vec2,
    v2: Vec2,
    m2: int,
    cfg: SimConfig,
) -> int {
    let n = impact_normal_s(p1, p2);
    let u1 = along_s(v1, n.0, n.1);
    let u2 = along_s(v2, n.0, n.1);
    let u1p = impulse_s(m1 as int, m2 as int, u1, u2, cfg.restitution as int);
    let u2p = impulse_s(m2 as int, m1 as int, u2, u1, cfg.restitution as int);
    let w1x = post_comp_s(v1.x as int, n.0, u1, u1p);
    let w1y = post_comp_s(v1.y as int, n.1, u1, u1p);
    let w2x = post_comp_s(v2.x as int, n.0, u2, u2p);
    let w2y = post_comp_s(v2.y as int, n.1, u2, u2p);
    ke_pair_s(m1, v1.norm_sq(), m2, v2.norm_sq()) - ke_pair_s(
        m1,
        norm_sq_s(w1x, w1y),
        m2,
        norm_sq_s(w2x, w2y),
    )
}

/// The first body's final velocity: recombined, nudged against the
/// normal, capped, and kept in the velocity box.
pub open spec fn collide_v1_s(
    p1: Vec2,
    v1: Vec2,
    m1: int,
    p2: Vec2,
    v2: Vec2,
    m2: int,
    cfg: SimConfig,
) -> (int, int) {
    let n = impact_normal_s(p1, p2);
    let u1 = along_s(v1, n.0, n.1);
    let u2 = along_s(v2, n.0, n.1);
    let u1p = impulse_s(m1 as int, m2 as int, u1, u2, cfg.restitution as int);
    let wx = nudged_comp_s(post_comp_s(v1.x as int, n.0, u1, u1p), n.0, cfg.repulsion as int, -1);
    let wy = nudged_comp_s(post_comp_s(v1.y as int, n.1, u1, u1p), n.1, cfg.repulsion as int, -1);
    let capeps = sqrt_floor(v1.norm_sq() as nat) + sqrt_floor(v2.norm_sq() as nat)
        + cfg.cap_epsilon;
    let c = clamp_len_s(wx, wy, capeps as int);
    (
        clamp_s(c.0, -VEL_LIMIT as int, VEL_LIMIT as int),
        clamp_s(c.1, -VEL_LIMIT as int, VEL_LIMIT as int),
    )
}

/// The second body's final velocity: recombined, nudged along the
/// normal, capped, and kept in the velocity box.
pub open spec fn collide_v2_s(
    p1: Vec2,
    v1: Vec2,
    m1: int,
    p2: Vec2,
    v2: Vec2,
    m2: int,
    cfg: SimConfig,
) -> (int, int) {
    let n = impact_normal_s(p1, p2);
    let u1 = along_s(v1, n.0, n.1);
    let u2 = along_s(v2, n.0, n.1);
    let u2p = impulse_s(m2 as int, m1 as int, u2, u1, cfg.restitution as int);
    let wx = nudged_comp_s(post_comp_s(v2.x as int, n.0, u2, u2p), n.0, cfg.repulsion as int, 1);
    let wy = nudged_comp_s(post_comp_s(v2.y as int, n.1, u2, u2p), n.1, cfg.repulsion as int, 1);
    let capeps = sqrt_floor(v1.norm_sq() as nat) + sqrt_floor(v2.norm_sq() as nat)
        + cfg.cap_epsilon;
    let c = clamp_len_s(wx, wy, capeps as int);
    (
        clamp_s(c.0, -VEL_LIMIT as int, VEL_LIMIT as int),
        clamp_s(c.1, -VEL_LIMIT as int, VEL_LIMIT as int),
    )
}

/// The slice of the store the detection pass reads and writes, as
/// mathematical sequences: its functional specification folds over
/// this view.
pub struct CalcView {
    pub entities: Seq<Entity>,
    pub collision_events: Seq<CollisionEvent>,
    pub damage_events: Seq<DamageEvent>,
}

/// The detection pass's view of a store.
pub open spec fn calc_view_of(s: EntityStore) -> CalcView {
    CalcView {
        entities: s.entities@,
        collision_events: s.collision_events@,
        damage_events: s.damage_events@,
    }
}

/// The detection predicate over the view.
pub open spec fn pair_eligible_v(v: CalcView, i: int, j: int) -> bool {
    &&& 0 <= i < v.entities.len()
    &&& 0 <= j < v.entities.len()
    &&& i != j
    &&& v.entities[i].collidable()
    &&& v.entities[j].collidable()
    &&& v.entities[i].collision_cooldown.spec_expired()
    &&& v.entities[j].collision_cooldown.spec_expired()
    &&& overlap_s(v.entities[i], v.entities[j])
}

/// An entity with its collision cooldown rewound to the full window.
pub open spec fn cooldown_reset_s(e: Entity) -> Entity {
    Entity {
        collision_cooldown: crate::timer::CountdownTimer {
            duration: e.collision_cooldown.duration,
            remaining: e.collision_cooldown.duration,
        },
        ..e
    }
}

/// What detecting one pair does to the view: nothing unless the pair
/// is eligible; otherwise the pair physics of [`collide_pair`] is
/// queued — two velocity events always, two half-share damage events
/// exactly when the absorbed energy passes the threshold — and both
/// participants' cooldowns restart.
pub open spec fn process_pair_v(v: CalcView, cfg: SimConfig, i: int, j: int) -> CalcView {
    if !pair_eligible_v(v, i, j) {
        v
    } else {
        let e1 = v.entities[i];
        let e2 = v.entities[j];
        let w1 = collide_v1_s(
            e1.pose.pos,
            e1.vel.unwrap(),
            e1.mass.unwrap() as int,
            e2.pose.pos,
            e2.vel.unwrap(),
            e2.mass.unwrap() as int,
            cfg,
        );
        let w2 = collide_v2_s(
            e1.pose.pos,
            e1.vel.unwrap(),
            e1.mass.unwrap() as int,
            e2.pose.pos,
            e2.vel.unwrap(),
            e2.mass.unwrap() as int,
            cfg,
        );
        let ke = collide_ke_abs_s(
            e1.pose.pos,
            e1.vel.unwrap(),
            e1.mass.unwrap() as int,
            e2.pose.pos,
            e2.vel.unwrap(),
            e2.mass.unwrap() as int,
            cfg,
        );
        CalcView {
            entities: v.entities.update(i, cooldown_reset_s(e1)).update(j, cooldown_reset_s(e2)),
            collision_events: v.collision_events.push(
                CollisionEvent {
                    entity: e1.id,
                    new_velocity: Vec2 { x: w1.0 as i64, y: w1.1 as i64 },
                },
            ).push(
                CollisionEvent {
                    entity: e2.id,
                    new_velocity: Vec2 { x: w2.0 as i64, y: w2.1 as i64 },
                },
            ),
            damage_events: if ke > cfg.damage_threshold {
                v.damage_events.push(
                    DamageEvent {
                        target: e1.id,
                        damage_value: collision_damage_s(ke, cfg) as i64,
                        damage_type: DamageType::Kinetic,
                    },
                ).push(
                    DamageEvent {
                        target: e2.id,
                        damage_value: collision_damage_s(ke, cfg) as i64,
                        damage_type: DamageType::Kinetic,
                    },
                )
            } else {
                v.damage_events
            },
        }
    }
}

/// The whole detection scan from pair `(i, j)` onward: every unordered
/// pair of indices, in the scan's order, folded over the view.
pub open spec fn calc_from(v: CalcView, cfg: SimConfig, i: int, j: int) -> CalcView
    decreases v.entities.len() - i, v.entities.len() - j,
{
    if i < 0 || j <= i || i >= v.entities.len() {
        v
    } else if j >= v.entities.len() {
        calc_from(v, cfg, i + 1, i + 2)
    } else {
        calc_from(process_pair_v(v, cfg, i, j), cfg, i, j + 1)
    }
}

/// Two entities differ at most in their collision cooldown.
pub open spec fn same_but_cooldown(a: Entity, b: Entity) -> bool {
    (Entity { collision_cooldown: a.collision_cooldown, ..b }) == a
}

/// The collision cooldown of `b` is that of `a` either untouched or
/// reset to its full duration.
pub open spec fn cooldown_evolved(a: Entity, b: Entity) -> bool {
    &&& b.collision_cooldown.duration == a.collision_cooldown.duration
    &&& (b.collision_cooldown.remaining == a.collision_cooldown.remaining
        || b.collision_cooldown.remaining == a.collision_cooldown.duration)
}

/// The two circles of a pair of entities overlap: their distance is
/// strictly below the sum of their radii.
pub open spec fn overlap_s(a: Entity, b: Entity) -> bool {
    match (a.collision, b.collision) {
        (Option::Some(ca), Option::Some(cb)) => norm_sq_s(
            b.pose.pos.x - a.pose.pos.x,
            b.pose.pos.y - a.pose.pos.y,
        ) < sq(ca.width_radius + cb.width_radius),
        _ => false,
    }
}

/// The detection predicate of the solid pass: a pair collides this
/// tick exactly when both bodies are collidable solids, both collision
/// cooldowns have expired, and their circles overlap.
pub open spec fn pair_eligible(s: EntityStore, i: int, j: int) -> bool {
    &&& 0 <= i < s.entities.len()
    &&& 0 <= j < s.entities.len()
    &&& i != j
    &&& s.entities[i].collidable()
    &&& s.entities[j].collidable()
    &&& s.entities[i].collision_cooldown.spec_expired()
    &&& s.entities[j].collision_cooldown.spec_expired()
    &&& overlap_s(s.entities[i], s.entities[j])
}

/// An entity whose collision cooldown has not expired takes part in no
/// collision: its attributes stay untouched and no event of this pass
/// names it.
pub open spec fn cooled_entity_untouched(pre: EntityStore, post: EntityStore, idx: int) -> bool {
    (0 <= idx < pre.entities.len() && !pre.entities[idx].collision_cooldown.spec_expired()) ==> {
        &&& post.entities[idx] == pre.entities[idx]
        &&& forall|k: int|
            pre.collision_events.len() <= k < post.collision_events.len() ==> (
            #[trigger] post.collision_events[k]).entity != pre.entities[idx].id
        &&& forall|k: int|
            pre.damage_events.len() <= k < post.damage_events.len() ==> (
            #[trigger] post.damage_events[k]).target != pre.entities[idx].id
    }
}

/// Detection and physics for one ordered pair of entity indices.
fn process_pair(store: &mut EntityStore, i: usize, j: usize)
    requires
        old(store).wf(),
        i < j < old(store).entities.len(),
    ensures
        final(store).wf(),
        final(store).config == old(store).config,
        final(store).next_id == old(store).next_id,
        final(store).entities.len() == old(store).entities.len(),
        final(store).missile_spawn_events == old(store).missile_spawn_events,
        final(store).mine_spawn_events == old(store).mine_spawn_events,
        final(store).detonation_events == old(store).detonation_events,
        forall|k: int|
            0 <= k < old(store).entities.len() ==> same_but_cooldown(
                #[trigger] old(store).entities[k],
                final(store).entities[k],
            ),
        forall|k: int|
            0 <= k < old(store).entities.len() ==> cooldown_evolved(
                #[trigger] old(store).entities[k],
                final(store).entities[k],
            ),
        final(store).collision_events.len() >= old(store).collision_events.len(),
        forall|k: int|
            0 <= k < old(store).collision_events.len()
                ==> #[trigger] final(store).collision_events[k]
                == old(store).collision_events[k],
        final(store).damage_events.len() >= old(store).damage_events.len(),
        forall|k: int|
            0 <= k < old(store).damage_events.len() ==> #[trigger] final(store).damage_events[k]
                == old(store).damage_events[k],
        !pair_eligible(*old(store), i as int, j as int) ==> *final(store) == *old(store),
        forall|idx: int| cooled_entity_untouched(*old(store), *final(store), idx),
        calc_view_of(*final(store)) == process_pair_v(
            calc_view_of(*old(store)),
            old(store).config,
            i as int,
            j as int,
        ),
{
    let e1 = store.entities[i];
    let e2 = store.entities[j];
    let eligible: bool = e1.collision_cooldown.is_expired() && e2.collision_cooldown.is_expired()
        && matches!(e1.collision_class, Option::Some(CollisionClass::Solid))
        && matches!(e2.collision_class, Option::Some(CollisionClass::Solid)) && e1.vel.is_some()
        && e2.vel.is_some() && e1.mass.is_some() && e2.mass.is_some() && e1.collision.is_some()
        && e2.collision.is_some();
    if !eligible {
        return ;
    }
    let b1 = match &e1.collision {
        Option::Some(b) => *b,
        Option::None => {
            return ;
        },
    };
    let b2 = match &e2.collision {
        Option::Some(b) => *b,
        Option::None => {
            return ;
        },
    };
    let d = e2.pose.pos.sub(e1.pose.pos);
    let dist_sq: i128 = d.norm_sq_exec();
    let rsum: i64 = b1.width_radius + b2.width_radius;
    proof {
        lemma_mul_mag_le(rsum as int, rsum as int, 2_000_000_000, 2_000_000_000);
    }
    if dist_sq >= (rsum as i128) * (rsum as i128) {
        return ;
    }
    let v1 = match &e1.vel {
        Option::Some(v) => *v,
        Option::None => {
            return ;
        },
    };
    let v2 = match &e2.vel {
        Option::Some(v) => *v,
        Option::None => {
            return ;
        },
    };
    let m1 = match &e1.mass {
        Option::Some(m) => *m,
        Option::None => {
            return ;
        },
    };
    let m2 = match &e2.mass {
        Option::Some(m) => *m,
        Option::None => {
            return ;
        },
    };
    let cfg = store.config;
    let out = collide_pair(e1.pose.pos, v1, m1, e2.pose.pos, v2, m2, &cfg);
    store.collision_events.push(CollisionEvent { entity: e1.id, new_velocity: out.v1 });
    store.collision_events.push(CollisionEvent { entity: e2.id, new_velocity: out.v2 });
    if out.damaging {
        store.damage_events.push(
            DamageEvent { target: e1.id, damage_value: out.damage, damage_type: DamageType::Kinetic },
        );
        store.damage_events.push(
            DamageEvent { target: e2.id, damage_value: out.damage, damage_type: DamageType::Kinetic },
        );
    }
    let mut c1 = e1;
    c1.collision_cooldown.reset();
    store.entities[i] = c1;
    let mut c2 = e2;
    c2.collision_cooldown.reset();
    store.entities[j] = c2;
}

/// The detection-plus-physics pass: scan every unordered pair of solid
/// entities whose cooldowns have expired, compute the impulse physics
/// of each overlapping pair, queue the resulting velocity and damage
/// events, and reset the colliding entities' cooldowns.  Entities
/// whose cooldown is still running are excluded from detection
/// entirely; only cooldowns change here, the events carry the physics.
pub fn collision_calculation_system(store: &mut EntityStore)
    requires
        old(store).wf(),
    ensures
        final(store).wf(),
        final(store).config == old(store).config,
        final(store).next_id == old(store).next_id,
        final(store).entities.len() == old(store).entities.len(),
        final(store).missile_spawn_events == old(store).missile_spawn_events,
        final(store).mine_spawn_events == old(store).mine_spawn_events,
        final(store).detonation_events == old(store).detonation_events,
        forall|k: int|
            0 <= k < old(store).entities.len() ==> same_but_cooldown(
                #[trigger] old(store).entities[k],
                final(store).entities[k],
            ),
        forall|k: int|
            0 <= k < old(store).collision_events.len()
                ==> #[trigger] final(store).collision_events[k]
                == old(store).collision_events[k],
        final(store).collision_events.len() >= old(store).collision_events.len(),
        forall|k: int|
            0 <= k < old(store).damage_events.len() ==> #[trigger] final(store).damage_events[k]
                == old(store).damage_events[k],
        final(store).damage_events.len() >= old(store).damage_events.len(),
        (forall|a: int, b: int| !pair_eligible(*old(store), a, b)) ==> *final(store) == *old(
            store,
        ),
        forall|idx: int| cooled_entity_untouched(*old(store), *final(store), idx),
        calc_view_of(*final(store)) == calc_from(
            calc_view_of(*old(store)),
            old(store).config,
            0,
            1,
        ),
{
    let n = store.entities.len();
    let ghost cfg0 = old(store).config;
    let mut i: usize = 0;
    while i < n
        invariant
            store.wf(),
            n == store.entities.len(),
            n == old(store).entities.len(),
            i <= n,
            store.config == old(store).config,
            store.next_id == old(store).next_id,
            store.missile_spawn_events == old(store).missile_spawn_events,
            store.mine_spawn_events == old(store).mine_spawn_events,
            store.detonation_events == old(store).detonation_events,
            forall|k: int|
                0 <= k < n ==> same_but_cooldown(
                    #[trigger] old(store).entities[k],
                    store.entities[k],
                ),
            forall|k: int|
                0 <= k < old(store).collision_events.len() ==> #[trigger] store.collision_events[k]
                    == old(store).collision_events[k],
            store.collision_events.len() >= old(store).collision_events.len(),
            forall|k: int|
                0 <= k < old(store).damage_events.len() ==> #[trigger] store.damage_events[k]
                    == old(store).damage_events[k],
            store.damage_events.len() >= old(store).damage_events.len(),
            (forall|a: int, b: int| !pair_eligible(*old(store), a, b)) ==> *store == *old(store),
            forall|idx: int| cooled_entity_untouched(*old(store), *store, idx),
            cfg0 == old(store).config,
            calc_from(calc_view_of(*old(store)), cfg0, 0, 1) == calc_from(
                calc_view_of(*store),
                cfg0,
                i as int,
                i as int + 1,
            ),
        decreases n - i,
    {
        let mut j: usize = i + 1;
        while j < n
            invariant
                store.wf(),
                n == store.entities.len(),
                n == old(store).entities.len(),
                i < n,
                i < j <= n,
                store.config == old(store).config,
                store.next_id == old(store).next_id,
                store.missile_spawn_events == old(store).missile_spawn_events,
                store.mine_spawn_events == old(store).mine_spawn_events,
                store.detonation_events == old(store).detonation_events,
                forall|k: int|
                    0 <= k < n ==> same_but_cooldown(
                        #[trigger] old(store).entities[k],
                        store.entities[k],
                    ),
                forall|k: int|
                    0 <= k < old(store).collision_events.len() ==> #[trigger] store.collision_events[k]
                        == old(store).collision_events[k],
                store.collision_events.len() >= old(store).collision_events.len(),
                forall|k: int|
                    0 <= k < old(store).damage_events.len() ==> #[trigger] store.damage_events[k]
                        == old(store).damage_events[k],
                store.damage_events.len() >= old(store).damage_events.len(),
                (forall|a: int, b: int| !pair_eligible(*old(store), a, b)) ==> *store == *old(
                    store,
                ),
                forall|idx: int| cooled_entity_untouched(*old(store), *store, idx),
                cfg0 == old(store).config,
                calc_from(calc_view_of(*old(store)), cfg0, 0, 1) == calc_from(
                    calc_view_of(*store),
                    cfg0,
                    i as int,
                    j as int,
                ),
            decreases n - j,
        {
            let ghost pre = *store;
            process_pair(store, i, j);
            proof {
                assert(calc_from(calc_view_of(pre), cfg0, i as int, j as int) == calc_from(
                    process_pair_v(calc_view_of(pre), cfg0, i as int, j as int),
                    cfg0,
                    i as int,
                    j as int + 1,
                ));
                assert(process_pair_v(calc_view_of(pre), cfg0, i as int, j as int)
                    == calc_view_of(*store));
            }
            proof {
                assert forall|k: int| 0 <= k < n implies same_but_cooldown(
                    #[trigger] old(store).entities[k],
                    store.entities[k],
                ) by {
                    assert(same_but_cooldown(old(store).entities[k], pre.entities[k]));
                    assert(same_but_cooldown(pre.entities[k], store.entities[k]));
                }
                if forall|a: int, b: int| !pair_eligible(*old(store), a, b) {
                    assert(pre == *old(store));
                    assert(!pair_eligible(pre, i as int, j as int));
                    assert(*store == pre);
                }
                assert forall|idx: int| cooled_entity_untouched(
                    *old(store),
                    *store,
                    idx,
                ) by {
                    if 0 <= idx < n && !old(store).entities[idx].collision_cooldown.spec_expired() {
                        assert(cooled_entity_untouched(*old(store), pre, idx));
                        assert(cooled_entity_untouched(pre, *store, idx));
                        assert(pre.entities[idx] == old(store).entities[idx]);
                    }
                }
            }
            j = j + 1;
        }
        i = i + 1;
    }
}

/// The 1D restitution update, executable.
fn impulse(m_self: i64, m_other: i64, u_self: i64, u_other: i64, e: i64) -> (r: i64)
    requires
        MASS_MIN <= m_self <= MASS_LIMIT,
        MASS_MIN <= m_other <= MASS_LIMIT,
        0 < e <= FP,
        mag(u_self as int) <= 2_000_000_000,
        mag(u_other as int) <= 2_000_000_000,
    ensures
        r == impulse_s(m_self as int, m_other as int, u_self as int, u_other as int, e as int),
        mag(r as int) <= 6_000_000_000,
{
    proof {
        lemma_impulse_bound(
            m_self as int,
            m_other as int,
            u_self as int,
            u_other as int,
            e as int,
            2_000_000_000,
        );
        lemma_mul_mag_le(
            m_other as int,
            u_other as int - u_self as int,
            MASS_LIMIT as int,
            4_000_000_000,
        );
        lemma_mul_mag_le(
            (m_other as int) * (u_other as int - u_self as int),
            e as int,
            4_000_000_000_000_000_000_000,
            FP as int,
        );
        crate::fixed::lemma_damp_shrinks(
            (m_other as int) * (u_other as int - u_self as int),
            e as int,
            FP as int,
        );
        lemma_mul_mag_le(m_self as int, u_self as int, MASS_LIMIT as int, 2_000_000_000);
        lemma_mul_mag_le(m_other as int, u_other as int, MASS_LIMIT as int, 2_000_000_000);
    }
    let pre: i128 = (m_other as i128) * ((u_other as i128) - (u_self as i128));
    let imp: i128 = div128(pre * (e as i128), FP as i128);
    let num: i128 = (m_self as i128) * (u_self as i128) + (m_other as i128) * (u_other as i128)
        + imp;
    div128(num, (m_self as i128) + (m_other as i128)) as i64
}

/// Recombine a velocity with an updated along-line component.
fn post_velocity(v: Vec2, n: Vec2, u_old: i64, u_new: i64) -> (w: Vec2)
    requires
        v.in_bounds(VEL_LIMIT as int),
        n.in_bounds(FP as int),
        mag(u_old as int) <= 2_000_000_000,
        mag(u_new as int) <= 6_000_000_000,
    ensures
        w.x == post_comp_s(v.x as int, n.x as int, u_old as int, u_new as int),
        w.y == post_comp_s(v.y as int, n.y as int, u_old as int, u_new as int),
        w.in_bounds(9_000_000_000),
{
    proof {
        lemma_scale_le(u_old as int, n.x as int, FP as int);
        lemma_scale_le(u_old as int, n.y as int, FP as int);
        lemma_scale_le(u_new as int, n.x as int, FP as int);
        lemma_scale_le(u_new as int, n.y as int, FP as int);
        assert((n.x as int) * (u_old as int) == (u_old as int) * (n.x as int))
            by (nonlinear_arith);
        assert((n.y as int) * (u_old as int) == (u_old as int) * (n.y as int))
            by (nonlinear_arith);
        assert((n.x as int) * (u_new as int) == (u_new as int) * (n.x as int))
            by (nonlinear_arith);
        assert((n.y as int) * (u_new as int) == (u_new as int) * (n.y as int))
            by (nonlinear_arith);
        lemma_mul_mag_le(n.x as int, u_old as int, FP as int, 2_000_000_000);
        lemma_mul_mag_le(n.y as int, u_old as int, FP as int, 2_000_000_000);
        lemma_mul_mag_le(n.x as int, u_new as int, FP as int, 6_000_000_000);
        lemma_mul_mag_le(n.y as int, u_new as int, FP as int, 6_000_000_000);
    }
    let ax: i64 = div128((n.x as i128) * (u_old as i128), FP as i128) as i64;
    let ay: i64 = div128((n.y as i128) * (u_old as i128), FP as i128) as i64;
    let bx: i64 = div128((n.x as i128) * (u_new as i128), FP as i128) as i64;
    let by: i64 = div128((n.y as i128) * (u_new as i128), FP as i128) as i64;
    Vec2 { x: v.x - ax + bx, y: v.y - ay + by }
}

/// Total kinetic energy of a pair of moving masses, exact in `i128`.
/// The ghost bound `vb` is a box bound on both velocities.
fn ke_pair(m1: i64, v1: Vec2, m2: i64, v2: Vec2, vb: i128) -> (r: i128)
    requires
        MASS_MIN <= m1 <= MASS_LIMIT,
        MASS_MIN <= m2 <= MASS_LIMIT,
        v1.in_bounds(vb as int),
        v2.in_bounds(vb as int),
        0 <= vb <= 20_000_000_000,
    ensures
        r == ke_pair_s(m1 as int, v1.norm_sq(), m2 as int, v2.norm_sq()),
        mag(r as int) <= 1_000_000_000_000_000_000_000_000_000,
{
    proof {
        lemma_mul_mag_le(v1.x as int, v1.x as int, vb as int, vb as int);
        lemma_mul_mag_le(v1.y as int, v1.y as int, vb as int, vb as int);
        lemma_mul_mag_le(v2.x as int, v2.x as int, vb as int, vb as int);
        lemma_mul_mag_le(v2.y as int, v2.y as int, vb as int, vb as int);
        assert((vb as int) * (vb as int) <= 400_000_000_000_000_000_000) by (nonlinear_arith)
            requires
                0 <= vb <= 20_000_000_000,
        ;
        lemma_mul_mag_le(m1 as int, v1.norm_sq(), MASS_LIMIT as int, 800_000_000_000_000_000_000);
        lemma_mul_mag_le(m2 as int, v2.norm_sq(), MASS_LIMIT as int, 800_000_000_000_000_000_000);
        lemma_div_t_mag(
            (m1 as int) * v1.norm_sq() + (m2 as int) * v2.norm_sq(),
            2 * (FP as int) * (FP as int),
        );
        vstd::arithmetic::div_mod::lemma_div_is_ordered(
            mag((m1 as int) * v1.norm_sq() + (m2 as int) * v2.norm_sq()),
            1_600_000_000_000_000_000_000_000_000_000_000,
            2 * (FP as int) * (FP as int),
        );
    }
    let n1: i128 = (v1.x as i128) * (v1.x as i128) + (v1.y as i128) * (v1.y as i128);
    let n2: i128 = (v2.x as i128) * (v2.x as i128) + (v2.y as i128) * (v2.y as i128);
    proof {
        assert(mag(n1 as int) <= 800_000_000_000_000_000_000);
        assert(mag((m1 as int) * (n1 as int)) <= 800_000_000_000_000_000_000_000_000_000_000);
        assert(mag((m1 as int) * (n1 as int) + (m2 as int) * (n2 as int))
            <= 1_600_000_000_000_000_000_000_000_000_000_000);
        assert(2 * (FP as int) * (FP as int) == 2_000_000);
        assert(1_600_000_000_000_000_000_000_000_000_000_000int / 2_000_000int
            == 800_000_000_000_000_000_000_000_000);
        assert(mag(div_t(
            (m1 as int) * (n1 as int) + (m2 as int) * (n2 as int),
            2 * (FP as int) * (FP as int),
        )) <= 1_000_000_000_000_000_000_000_000_000);
    }
    div128((m1 as i128) * n1 + (m2 as i128) * n2, 2 * (FP as i128) * (FP as i128))
}

/// An entity the resolution pass may write to: a solid body with a
/// velocity.
pub open spec fn resolvable(e: Entity) -> bool {
    e.vel is Some && e.collision_class == Option::Some(CollisionClass::Solid)
}

/// The meaning of the resolution pass on one entity: each queued
/// event naming its identity writes its velocity and resets the
/// cooldown, in queue order, so the last event wins; entities that are
/// not resolvable solids are untouched.
pub open spec fn resolved_entity_s(e: Entity, evs: Seq<CollisionEvent>) -> Entity
    decreases evs.len(),
{
    if evs.len() == 0 {
        e
    } else {
        let prev = resolved_entity_s(e, evs.drop_last());
        if evs.last().entity == e.id && resolvable(e) {
            Entity {
                vel: Option::Some(evs.last().new_velocity),
                collision_cooldown: crate::timer::CountdownTimer {
                    duration: e.collision_cooldown.duration,
                    remaining: e.collision_cooldown.duration,
                },
                ..prev
            }
        } else {
            prev
        }
    }
}

/// Folding events over an entity never changes its identity, its
/// resolvability, or its cooldown duration.
proof fn lemma_resolved_frame(e: Entity, evs: Seq<CollisionEvent>)
    ensures
        resolved_entity_s(e, evs).id == e.id,
        resolvable(resolved_entity_s(e, evs)) == resolvable(e),
        resolved_entity_s(e, evs).collision_cooldown.duration == e.collision_cooldown.duration,
    decreases evs.len(),
{
    if evs.len() > 0 {
        lemma_resolved_frame(e, evs.drop_last());
    }
}

/// The resolution pass: write each queued post-collision velocity into
/// its target entity and reset the target's cooldown once more (a
/// defensive, idempotent double-reset).  Events whose target has
/// despawned or carries no velocity are silently dropped; the queue is
/// consumed.
pub fn collision_resolution_system(store: &mut EntityStore)
    requires
        old(store).wf(),
    ensures
        final(store).wf(),
        final(store).config == old(store).config,
        final(store).next_id == old(store).next_id,
        final(store).entities.len() == old(store).entities.len(),
        final(store).collision_events.len() == 0,
        final(store).damage_events == old(store).damage_events,
        final(store).missile_spawn_events == old(store).missile_spawn_events,
        final(store).mine_spawn_events == old(store).mine_spawn_events,
        final(store).detonation_events == old(store).detonation_events,
        forall|k: int|
            0 <= k < old(store).entities.len() ==> #[trigger] final(store).entities[k]
                == resolved_entity_s(old(store).entities[k], old(store).collision_events@),
{
    let m = store.collision_events.len();
    let mut q: usize = 0;
    while q < m
        invariant
            old(store).wf(),
            store.wf(),
            store.config == old(store).config,
            store.next_id == old(store).next_id,
            store.entities.len() == old(store).entities.len(),
            store.collision_events == old(store).collision_events,
            store.damage_events == old(store).damage_events,
            store.missile_spawn_events == old(store).missile_spawn_events,
            store.mine_spawn_events == old(store).mine_spawn_events,
            store.detonation_events == old(store).detonation_events,
            m == old(store).collision_events.len(),
            q <= m,
            forall|k: int|
                0 <= k < old(store).entities.len() ==> #[trigger] store.entities[k]
                    == resolved_entity_s(
                    old(store).entities[k],
                    old(store).collision_events@.subrange(0, q as int),
                ),
        decreases m - q,
    {
        let ghost evs = old(store).collision_events@;
        let ghost qi = q as int;
        let ghost pre = *store;
        proof {
            assert(evs.subrange(0, qi + 1).drop_last() =~= evs.subrange(0, qi));
            assert(evs.subrange(0, qi + 1).last() == evs[qi]);
        }
        let ev = store.collision_events[q];
        match store.index_of(ev.entity) {
            Option::Some(i) => {
                let e = store.entities[i];
                let solid = matches!(e.collision_class, Option::Some(CollisionClass::Solid));
                if e.vel.is_some() && solid {
                    let mut e2 = e;
                    e2.vel = Option::Some(ev.new_velocity);
                    e2.collision_cooldown.reset();
                    store.entities[i] = e2;
                }
            },
            Option::None => {},
        }
        proof {
            assert forall|k: int| 0 <= k < old(store).entities.len() implies
                #[trigger] store.entities[k] == resolved_entity_s(
                old(store).entities[k],
                evs.subrange(0, qi + 1),
            ) by {
                let ok = old(store).entities[k];
                assert(pre.entities[k] == resolved_entity_s(ok, evs.subrange(0, qi)));
                lemma_resolved_frame(ok, evs.subrange(0, qi));
            }
        }
        q = q + 1;
    }
    proof {
        assert(old(store).collision_events@.subrange(0, m as int) =~= old(
            store,
        ).collision_events@);
    }
    store.collision_events = Vec::new();
}

/// The per-projectile damage of the ephemeral pass: zero-mass
/// projectile types carry their base damage alone, massed types add
/// the kinetic energy of the shot, converted like collision energy.
pub open spec fn projectile_damage_s(p: Projectile, cfg: SimConfig) -> int {
    if p.projectile_type == ProjectileType::Laser {
        p.damage_value as int
    } else {
        clamp_s(
            p.damage_value + div_t(
                div_t(p.mass * sq(p.speed as int), 2 * (FP as int) * (FP as int)) * cfg.ke_to_dmg,
                FP as int,
            ),
            0,
            DAMAGE_LIMIT as int,
        )
    }
}

/// Compute the damage a projectile inflicts on impact.
pub fn projectile_damage(p: &Projectile, cfg: &SimConfig) -> (r: i64)
    requires
        cfg.wf(),
        crate::entity::projectile_wf(*p),
    ensures
        r == projectile_damage_s(*p, *cfg),
        0 <= r <= DAMAGE_LIMIT,
{
    if matches!(p.projectile_type, ProjectileType::Laser) {
        p.damage_value
    } else {
        proof {
            lemma_mul_mag_le(p.speed as int, p.speed as int, 10_000_000, 10_000_000);
            lemma_mul_mag_le(p.mass as int, sq(p.speed as int), MASS_LIMIT as int,
                100_000_000_000_000);
            lemma_div_t_mag(p.mass * sq(p.speed as int), 2 * (FP as int) * (FP as int));
            assert(2 * (FP as int) * (FP as int) == 2_000_000);
            vstd::arithmetic::div_mod::lemma_div_is_ordered(
                mag(p.mass * sq(p.speed as int)),
                100_000_000_000_000_000_000_000_000_000,
                2 * (FP as int) * (FP as int),
            );
            assert(100_000_000_000_000_000_000_000_000_000int / 2_000_000int
                == 50_000_000_000_000_000_000_000);
            lemma_muldiv_mag(
                div_t(p.mass * sq(p.speed as int), 2 * (FP as int) * (FP as int)),
                cfg.ke_to_dmg as int,
                FP as int,
                50_000_000_000_000_000_000_000,
                FP as int,
            );
        }
        let ke: i128 = div128(
            (p.mass as i128) * ((p.speed as i128) * (p.speed as i128)),
            2 * (FP as i128) * (FP as i128),
        );
        let extra: i128 = div128(ke * (cfg.ke_to_dmg as i128), FP as i128);
        let total: i128 = (p.damage_value as i128) + extra;
        if total < 0 {
            0
        } else if total > DAMAGE_LIMIT as i128 {
            DAMAGE_LIMIT
        } else {
            total as i64
        }
    }
}

/// A solid body's circle overlaps a projectile at the configured
/// projectile radius.
pub open spec fn proj_overlap_s(target: Entity, proj: Entity, cfg: SimConfig) -> bool {
    match target.collision {
        Option::Some(cb) => norm_sq_s(
            proj.pose.pos.x - target.pose.pos.x,
            proj.pose.pos.y - target.pose.pos.y,
        ) < sq(cb.width_radius + cfg.projectile_radius),
        _ => false,
    }
}

/// The first solid body at or after index `t` that overlaps the
/// projectile at index `k`, or the entity count where none does.
pub open spec fn first_solid_from(s: EntityStore, k: int, t: int) -> int
    recommends
        0 <= t <= s.entities.len(),
    decreases s.entities.len() - t,
{
    if t >= s.entities.len() {
        s.entities.len() as int
    } else if s.entities[t].solid_target() && proj_overlap_s(
        s.entities[t],
        s.entities[k],
        s.config,
    ) {
        t
    } else {
        first_solid_from(s, k, t + 1)
    }
}

/// The first-overlap search reads only the entities and the tuning.
proof fn lemma_first_solid_congruent(s1: EntityStore, s2: EntityStore, k: int, t: int)
    requires
        s1.entities == s2.entities,
        s1.config == s2.config,
        0 <= t <= s1.entities.len(),
    ensures
        first_solid_from(s1, k, t) == first_solid_from(s2, k, t),
    decreases s1.entities.len() - t,
{
    if t < s1.entities.len() && !(s1.entities[t].solid_target() && proj_overlap_s(
        s1.entities[t],
        s1.entities[k],
        s1.config,
    )) {
        lemma_first_solid_congruent(s1, s2, k, t + 1);
    }
}

proof fn lemma_first_solid_range(s: EntityStore, k: int, t: int)
    requires
        0 <= t <= s.entities.len(),
    ensures
        t <= first_solid_from(s, k, t) <= s.entities.len(),
    decreases s.entities.len() - t,
{
    if t < s.entities.len() && !(s.entities[t].solid_target() && proj_overlap_s(
        s.entities[t],
        s.entities[k],
        s.config,
    )) {
        lemma_first_solid_range(s, k, t + 1);
    }
}

/// The entity at index `k` is an ephemeral projectile overlapping some
/// solid body this tick.
pub open spec fn projectile_hit_s(s: EntityStore, k: int) -> bool {
    &&& 0 <= k < s.entities.len()
    &&& s.entities[k].collision_class == Option::Some(CollisionClass::Ephemeral)
    &&& s.entities[k].projectile is Some
    &&& exists|t: int|
        0 <= t < s.entities.len() && (#[trigger] s.entities[t]).solid_target() && proj_overlap_s(
            s.entities[t],
            s.entities[k],
            s.config,
        )
}

/// The damage events the projectile pass queues while scanning the
/// first `k` entities: one per hit projectile, targeting the first
/// overlapping solid, carrying the projectile's own damage.
pub open spec fn projectile_damage_events_s(s: EntityStore, k: int) -> Seq<DamageEvent>
    decreases k,
{
    if k <= 0 {
        Seq::empty()
    } else {
        let rest = projectile_damage_events_s(s, k - 1);
        if projectile_hit_s(s, k - 1) {
            match s.entities[k - 1].projectile {
                Option::Some(p) => rest.push(
                    DamageEvent {
                        target: s.entities[first_solid_from(s, k - 1, 0)].id,
                        damage_value: projectile_damage_s(p, s.config) as i64,
                        damage_type: p.damage_type,
                    },
                ),
                Option::None => rest,
            }
        } else {
            rest
        }
    }
}

/// The keep-flags of the projectile pass: hit projectiles despawn.
pub open spec fn projectile_keep_flags(s: EntityStore) -> Seq<bool> {
    Seq::new(s.entities@.len(), |k: int| !projectile_hit_s(s, k))
}

/// The ephemeral-versus-solid pass: every projectile overlapping a
/// solid body despawns and queues a damage event against that body;
/// projectiles never collide with each other.
pub fn check_projectile_collisions(store: &mut EntityStore)
    requires
        old(store).wf(),
    ensures
        final(store).wf(),
        final(store).config == old(store).config,
        final(store).next_id == old(store).next_id,
        final(store).entities@ == crate::store::filter_by_flags(
            old(store).entities@,
            projectile_keep_flags(*old(store)),
        ),
        final(store).collision_events == old(store).collision_events,
        final(store).missile_spawn_events == old(store).missile_spawn_events,
        final(store).mine_spawn_events == old(store).mine_spawn_events,
        final(store).detonation_events == old(store).detonation_events,
        final(store).damage_events@ == old(store).damage_events@ + projectile_damage_events_s(
            *old(store),
            old(store).entities.len() as int,
        ),
{
    let n = store.entities.len();
    let mut keep: Vec<bool> = Vec::new();
    let mut k: usize = 0;
    proof {
        assert(store.damage_events@ =~= old(store).damage_events@ + projectile_damage_events_s(
            *old(store),
            0,
        ));
    }
    while k < n
        invariant
            old(store).wf(),
            store.config == old(store).config,
            store.next_id == old(store).next_id,
            store.entities == old(store).entities,
            store.collision_events == old(store).collision_events,
            store.missile_spawn_events == old(store).missile_spawn_events,
            store.mine_spawn_events == old(store).mine_spawn_events,
            store.detonation_events == old(store).detonation_events,
            store.wf(),
            n == store.entities.len(),
            k <= n,
            keep.len() == k,
            store.damage_events@ == old(store).damage_events@ + projectile_damage_events_s(
                *old(store),
                k as int,
            ),
            forall|j: int|
                0 <= j < k ==> keep@[j] == !projectile_hit_s(*old(store), j),
        decreases n - k,
    {
        let ghost pre_evs = projectile_damage_events_s(*old(store), k as int);
        let e = store.entities[k];
        let ephemeral = matches!(e.collision_class, Option::Some(CollisionClass::Ephemeral));
        if ephemeral && e.projectile.is_some() {
            match first_solid_overlap(store, k) {
                Option::Some(t) => {
                    let target_id = store.entities[t].id;
                    let p = match &e.projectile {
                        Option::Some(p) => *p,
                        Option::None => {
                            proof {
                                assert(false);
                            }
                            Projectile {
                                speed: 0,
                                fuel: 0,
                                projectile_type: ProjectileType::Laser,
                                damage_type: DamageType::Radiant,
                                damage_value: 0,
                                mass: 0,
                            }
                        },
                    };
                    let cfg = store.config;
                    let dmg = projectile_damage(&p, &cfg);
                    proof {
                        lemma_first_solid_congruent(*store, *old(store), k as int, 0);
                        assert(t == first_solid_from(*old(store), k as int, 0));
                    }
                    store.damage_events.push(
                        DamageEvent {
                            target: target_id,
                            damage_value: dmg,
                            damage_type: p.damage_type,
                        },
                    );
                    keep.push(false);
                    proof {
                        assert(projectile_hit_s(*old(store), k as int));
                        assert(projectile_damage_events_s(*old(store), k + 1)
                            == pre_evs.push(
                            DamageEvent {
                                target: old(store).entities[first_solid_from(
                                    *old(store),
                                    k as int,
                                    0,
                                )].id,
                                damage_value: projectile_damage_s(p, old(store).config) as i64,
                                damage_type: p.damage_type,
                            },
                        ));
                        assert(store.damage_events@ =~= old(store).damage_events@
                            + projectile_damage_events_s(*old(store), k + 1));
                    }
                },
                Option::None => {
                    keep.push(true);
                    proof {
                        assert(!projectile_hit_s(*old(store), k as int));
                        assert(projectile_damage_events_s(*old(store), k + 1) == pre_evs);
                    }
                },
            }
        } else {
            keep.push(true);
            proof {
                assert(!projectile_hit_s(*old(store), k as int));
                assert(projectile_damage_events_s(*old(store), k + 1) == pre_evs);
            }
        }
        k = k + 1;
    }
    proof {
        assert(keep@ =~= projectile_keep_flags(*old(store)));
    }
    store.retain_entities(&keep);
}

/// Find the first solid body overlapping the projectile at index `k`.
fn first_solid_overlap(store: &EntityStore, k: usize) -> (r: Option<usize>)
    requires
        store.wf(),
        k < store.entities.len(),
    ensures
        match r {
            Option::Some(t) => t == first_solid_from(*store, k as int, 0) && t
                < store.entities.len() && store.entities[t as int].solid_target()
                && proj_overlap_s(
                store.entities[t as int],
                store.entities[k as int],
                store.config,
            ),
            Option::None => first_solid_from(*store, k as int, 0) == store.entities.len()
                && forall|t: int|
                0 <= t < store.entities.len() ==> !((#[trigger] store.entities[t]).solid_target()
                    && proj_overlap_s(store.entities[t], store.entities[k as int], store.config)),
        },
{
    let n = store.entities.len();
    let e = store.entities[k];
    let mut t: usize = 0;
    while t < n
        invariant
            store.wf(),
            k < n,
            n == store.entities.len(),
            e == store.entities[k as int],
            t <= n,
            first_solid_from(*store, k as int, 0) == first_solid_from(*store, k as int, t as int),
            forall|t2: int|
                0 <= t2 < t ==> !((#[trigger] store.entities[t2]).solid_target() && proj_overlap_s(
                    store.entities[t2],
                    store.entities[k as int],
                    store.config,
                )),
        decreases n - t,
    {
        let c = store.entities[t];
        let solid = matches!(c.collision_class, Option::Some(CollisionClass::Solid));
        if solid {
            match &c.collision {
                Option::Some(cb) => {
                    let d = e.pose.pos.sub(c.pose.pos);
                    let dist_sq: i128 = d.norm_sq_exec();
                    let rsum: i64 = cb.width_radius + store.config.projectile_radius;
                    proof {
                        lemma_mul_mag_le(rsum as int, rsum as int, 2_000_000_000, 2_000_000_000);
                    }
                    if dist_sq < (rsum as i128) * (rsum as i128) {
                        return Option::Some(t);
                    }
                },
                Option::None => {},
            }
        }
        t = t + 1;
    }
    Option::None
}

/// The entity at `k` is a guided missile touching some solid body that
/// is neither a missile itself nor the mine layer that drops mines in
/// its own wake.
pub open spec fn missile_hit_s(s: EntityStore, k: int) -> bool {
    &&& 0 <= k < s.entities.len()
    &&& s.entities[k].missile is Some
    &&& s.entities[k].collision is Some
    &&& exists|t: int|
        0 <= t < s.entities.len() && missile_target_s(#[trigger] s.entities[t])
            && missiles_overlap_s(s.entities[t], s.entities[k])
}

/// A body a missile can detonate against.
pub open spec fn missile_target_s(e: Entity) -> bool {
    &&& e.collision is Some
    &&& e.missile is None
    &&& !(e.ai matches Option::Some(AiRole::MineLayer { .. }))
}

/// The two collision circles of a missile and a target overlap.
pub open spec fn missiles_overlap_s(target: Entity, missile: Entity) -> bool {
    match (target.collision, missile.collision) {
        (Option::Some(cb), Option::Some(mb)) => norm_sq_s(
            missile.pose.pos.x - target.pose.pos.x,
            missile.pose.pos.y - target.pose.pos.y,
        ) < sq(cb.width_radius + mb.width_radius),
        _ => false,
    }
}

/// The event names a missile that was touching a solid body.
pub open spec fn detonation_from_hit(s: EntityStore, ev: MissileDetonationEvent) -> bool {
    exists|j: int|
        0 <= j < s.entities.len() && ev.entity == (#[trigger] s.entities[j]).id && missile_hit_s(
            s,
            j,
        )
}

/// The missile contact pass: a guided missile touching any solid body
/// registers a detonation event; nothing else changes here, the
/// detonation itself is handled by a later pass.
pub fn check_missile_collisions_system(store: &mut EntityStore)
    requires
        old(store).wf(),
    ensures
        final(store).wf(),
        final(store).config == old(store).config,
        final(store).next_id == old(store).next_id,
        final(store).entities == old(store).entities,
        final(store).collision_events == old(store).collision_events,
        final(store).damage_events == old(store).damage_events,
        final(store).missile_spawn_events == old(store).missile_spawn_events,
        final(store).mine_spawn_events == old(store).mine_spawn_events,
        final(store).detonation_events.len() >= old(store).detonation_events.len(),
        forall|q: int|
            0 <= q < old(store).detonation_events.len()
                ==> #[trigger] final(store).detonation_events[q]
                == old(store).detonation_events[q],
        forall|q: int|
            old(store).detonation_events.len() <= q < final(store).detonation_events.len()
                ==> detonation_from_hit(*old(store), #[trigger] final(store).detonation_events[q]),
        forall|k: int|
            0 <= k < old(store).entities.len() && missile_hit_s(*old(store), k) ==> exists|q: int|
                old(store).detonation_events.len() <= q < final(store).detonation_events.len()
                    && (#[trigger] final(store).detonation_events[q]).entity == old(
                store,
                ).entities[k].id,
{
    let n = store.entities.len();
    let mut k: usize = 0;
    while k < n
        invariant
            old(store).wf(),
            store.config == old(store).config,
            store.next_id == old(store).next_id,
            store.entities == old(store).entities,
            store.collision_events == old(store).collision_events,
            store.damage_events == old(store).damage_events,
            store.missile_spawn_events == old(store).missile_spawn_events,
            store.mine_spawn_events == old(store).mine_spawn_events,
            store.wf(),
            n == store.entities.len(),
            k <= n,
            store.detonation_events.len() >= old(store).detonation_events.len(),
            forall|q: int|
                0 <= q < old(store).detonation_events.len()
                    ==> #[trigger] store.detonation_events[q] == old(store).detonation_events[q],
            forall|q: int|
                old(store).detonation_events.len() <= q < store.detonation_events.len()
                    ==> detonation_from_hit(*old(store), #[trigger] store.detonation_events[q]),
            forall|k2: int|
                0 <= k2 < k && missile_hit_s(*old(store), k2) ==> exists|q: int|
                    old(store).detonation_events.len() <= q < store.detonation_events.len() && (
                    #[trigger] store.detonation_events[q]).entity == old(store).entities[k2].id,
        decreases n - k,
    {
        let ghost pre_len = store.detonation_events.len() as int;
        let ghost pre_events = store.detonation_events@;
        let e = store.entities[k];
        let mut fired: bool = false;
        if e.missile.is_some() && e.collision.is_some() {
            if let Option::Some(t) = first_missile_target(store, k) {
                proof {
                    assert(old(store).entities[t as int] == store.entities[t as int]);
                    assert(old(store).entities[k as int] == store.entities[k as int]);
                    assert(missile_hit_s(*old(store), k as int));
                }
                store.detonation_events.push(MissileDetonationEvent { entity: e.id });
                fired = true;
                proof {
                    assert(store.detonation_events[pre_len].entity == old(
                        store,
                    ).entities[k as int].id);
                    assert(detonation_from_hit(*old(store), store.detonation_events[pre_len]));
                }
            }
        }
        proof {
            if !fired && missile_hit_s(*old(store), k as int) {
                let t = choose|t: int|
                    0 <= t < old(store).entities.len() && missile_target_s(
                        #[trigger] old(store).entities[t],
                    ) && missiles_overlap_s(
                        old(store).entities[t],
                        old(store).entities[k as int],
                    );
                assert(store.entities[t] == old(store).entities[t]);
                assert(store.entities[k as int] == old(store).entities[k as int]);
                assert(false);
            }
            let oldlen = old(store).detonation_events.len() as int;
            assert forall|k2: int|
                0 <= k2 < k as int + 1 && missile_hit_s(*old(store), k2) implies exists|q: int|
                oldlen <= q < store.detonation_events.len() && (
                #[trigger] store.detonation_events[q]).entity == old(store).entities[k2].id by {
                if k2 < k as int {
                    let q0 = choose|q: int|
                        oldlen <= q < pre_events.len() && (#[trigger] pre_events[q]).entity == old(
                            store,
                        ).entities[k2].id;
                    assert(store.detonation_events[q0] == pre_events[q0]);
                } else {
                    assert(fired);
                    assert(store.detonation_events[pre_len].entity == old(
                        store,
                    ).entities[k2].id);
                }
            }
        }
        k = k + 1;
    }
}

/// Find a solid body the missile at index `k` touches, if any.
fn first_missile_target(store: &EntityStore, k: usize) -> (r: Option<usize>)
    requires
        store.wf(),
        k < store.entities.len(),
    ensures
        match r {
            Option::Some(t) => t < store.entities.len() && missile_target_s(
                store.entities[t as int],
            ) && missiles_overlap_s(store.entities[t as int], store.entities[k as int]),
            Option::None => forall|t: int|
                0 <= t < store.entities.len() ==> !(missile_target_s(#[trigger] store.entities[t])
                    && missiles_overlap_s(store.entities[t], store.entities[k as int])),
        },
{
    let n = store.entities.len();
    let e = store.entities[k];
    let mut t: usize = 0;
    while t < n
        invariant
            store.wf(),
            k < n,
            n == store.entities.len(),
            e == store.entities[k as int],
            t <= n,
            forall|t2: int|
                0 <= t2 < t ==> !(missile_target_s(#[trigger] store.entities[t2])
                    && missiles_overlap_s(store.entities[t2], store.entities[k as int])),
        decreases n - t,
    {
        let c = store.entities[t];
        let layer = matches!(c.ai, Option::Some(AiRole::MineLayer { .. }));
        if c.collision.is_some() && c.missile.is_none() && !layer {
            match (&c.collision, &e.collision) {
                (Option::Some(cb), Option::Some(mb)) => {
                    let d = e.pose.pos.sub(c.pose.pos);
                    let dist_sq: i128 = d.norm_sq_exec();
                    let rsum: i64 = cb.width_radius + mb.width_radius;
                    proof {
                        lemma_mul_mag_le(rsum as int, rsum as int, 2_000_000_000, 2_000_000_000);
                    }
                    if dist_sq < (rsum as i128) * (rsum as i128) {
                        return Option::Some(t);
                    }
                },
                _ => {},
            }
        }
        t = t + 1;
    }
    Option::None
}

} // verus!
