use vstd::prelude::*;
use crate::direction::IVec2;

verus! {

/// An area, centred on its owner's position plus `offset`, where the owner
/// can take damage.
#[derive(Clone, Copy, Debug, PartialEq, Eq, Structural)]
pub struct Hurtbox {
    pub size: IVec2,
    pub offset: IVec2,
}

/// An area, centred on its owner's position plus `offset`, from which
/// damage is dealt.
#[derive(Clone, Copy, Debug, PartialEq, Eq, Structural)]
pub struct Hitbox {
    pub size: IVec2,
    pub offset: IVec2,
}

pub open spec fn offset_or_zero(offset: Option<IVec2>) -> IVec2 {
    match offset {
        Some(o) => o,
        None => IVec2 { x: 0, y: 0 },
    }
}

impl Hurtbox {
    /// A hurtbox of `size`; no offset means none.
    pub fn new(size: IVec2, offset: Option<IVec2>) -> (r: Hurtbox)
        ensures
            r.size == size,
            r.offset == offset_or_zero(offset),
    {
        let offset = match offset {
            Some(o) => o,
            None => IVec2 { x: 0, y: 0 },
        };
        Hurtbox { size, offset }
    }
}

impl Hitbox {
    /// A hitbox of `size`; no offset means none.
    pub fn new(size: IVec2, offset: Option<IVec2>) -> (r: Hitbox)
        ensures
            r.size == size,
            r.offset == offset_or_zero(offset),
    {
        let offset = match offset {
            Some(o) => o,
            None => IVec2 { x: 0, y: 0 },
        };
        Hitbox { size, offset }
    }
}

/// An attack in the world: where it is and the area it strikes.
#[derive(Clone, Copy, Debug, PartialEq, Eq, Structural)]
pub struct AttackBody {
    pub position: IVec2,
    pub hitbox: Hitbox,
}

/// A damageable entity in the world: where it is and the area it can be hit in.
#[derive(Clone, Copy, Debug, PartialEq, Eq, Structural)]
pub struct TargetBody {
    pub position: IVec2,
    pub hurtbox: Hurtbox,
}

/// Two segments, given by centre and length, share more than an end point:
/// `ca - la/2 < cb + lb/2` and `ca + la/2 > cb - lb/2`.
pub open spec fn spans_overlap(ca: int, la: int, cb: int, lb: int) -> bool {
    &&& 2 * ca - la < 2 * cb + lb
    &&& 2 * ca + la > 2 * cb - lb
}

/// The attack's and the target's rectangles intersect on both axes.
pub open spec fn hits(a: AttackBody, t: TargetBody) -> bool {
    &&& spans_overlap(
        a.position.x + a.hitbox.offset.x,
        a.hitbox.size.x as int,
        t.position.x + t.hurtbox.offset.x,
        t.hurtbox.size.x as int,
    )
    &&& spans_overlap(
        a.position.y + a.hitbox.offset.y,
        a.hitbox.size.y as int,
        t.position.y + t.hurtbox.offset.y,
        t.hurtbox.size.y as int,
    )
}

fn spans_meet(ca: i128, la: i128, cb: i128, lb: i128) -> (r: bool)
    requires
        -0x1_0000_0000_0000_0000i128 <= ca <= 0x1_0000_0000_0000_0000i128,
        -0x1_0000_0000_0000_0000i128 <= cb <= 0x1_0000_0000_0000_0000i128,
        i64::MIN <= la <= i64::MAX,
        i64::MIN <= lb <= i64::MAX,
    ensures
        r == spans_overlap(ca as int, la as int, cb as int, lb as int),
{
    2 * ca - la < 2 * cb + lb && 2 * ca + la > 2 * cb - lb
}

/// Axis-aligned rectangle intersection of an attack and a target.
pub fn collide(a: &AttackBody, t: &TargetBody) -> (r: bool)
    ensures
        r == hits(*a, *t),
{
    let ax: i128 = a.position.x as i128 + a.hitbox.offset.x as i128;
    let ay: i128 = a.position.y as i128 + a.hitbox.offset.y as i128;
    let tx: i128 = t.position.x as i128 + t.hurtbox.offset.x as i128;
    let ty: i128 = t.position.y as i128 + t.hurtbox.offset.y as i128;
    spans_meet(ax, a.hitbox.size.x as i128, tx, t.hurtbox.size.x as i128)
        && spans_meet(ay, a.hitbox.size.y as i128, ty, t.hurtbox.size.y as i128)
}

/// Some attack in `attacks` hits `t`.
pub open spec fn hit_by_any(attacks: Seq<AttackBody>, t: TargetBody) -> bool {
    exists|i: int| 0 <= i < attacks.len() && #[trigger] hits(attacks[i], t)
}

/// For each target, whether it is to be removed: exactly those that some
/// attack overlaps. Every pair is tested.
pub fn player_attack_enemy_system(attacks: &Vec<AttackBody>, targets: &Vec<TargetBody>) -> (removed: Vec<bool>)
    ensures
        removed@.len() == targets@.len(),
        forall|j: int| 0 <= j < targets@.len() ==>
            #[trigger] removed@[j] == hit_by_any(attacks@, targets@[j]),
{
    let mut removed: Vec<bool> = Vec::new();
    let mut j: usize = 0;
    while j < targets.len()
        invariant
            j <= targets@.len(),
            removed@.len() == j,
            forall|k: int| 0 <= k < j ==> #[trigger] removed@[k] == hit_by_any(attacks@, targets@[k]),
        decreases targets@.len() - j,
    {
        let t = &targets[j];
        let mut hit = false;
        let mut i: usize = 0;
        while i < attacks.len()
            invariant
                i <= attacks@.len(),
                *t == targets@[j as int],
                hit == exists|m: int| 0 <= m < i && #[trigger] hits(attacks@[m], *t),
            decreases attacks@.len() - i,
        {
            if collide(&attacks[i], t) {
                hit = true;
            }
            i += 1;
        }
        removed.push(hit);
        j += 1;
    }
    removed
}

} // verus!
