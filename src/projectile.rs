use vstd::prelude::*;

verus! {

/// Damage that a projectile deals to whatever it hits.
#[derive(Clone, Copy, PartialEq, Eq, Structural, Debug)]
pub struct Damage(pub u32);

/// Health of a destructible entity: a fixed maximum and what is left of it.
#[derive(Clone, Copy, Debug)]
pub struct HitPoints {
    maximum: u32,
    current: u32,
}

impl HitPoints {
    /// The health the entity started with.
    pub closed spec fn max_hp(&self) -> nat {
        self.maximum as nat
    }

    /// The health that is left.
    pub closed spec fn hp(&self) -> nat {
        self.current as nat
    }

    /// Health never exceeds its maximum.
    pub open spec fn wf(&self) -> bool {
        self.hp() <= self.max_hp()
    }

    /// Share of the maximum that is left, in whole percent, rounded down.
    pub open spec fn percent_spec(&self) -> nat
        recommends
            self.max_hp() > 0,
    {
        100 * self.hp() / self.max_hp()
    }

    pub fn new(maximum: u32) -> (r: Self)
        ensures
            r.wf(),
            r.max_hp() == maximum,
            r.hp() == maximum,
    {
        HitPoints { maximum, current: maximum }
    }

    pub fn percent(&self) -> (r: u32)
        requires
            self.wf(),
            self.max_hp() > 0,
        ensures
            r == self.percent_spec(),
            r <= 100,
    {
        let scaled: u64 = 100u64 * (self.current as u64);
        let r: u64 = scaled / (self.maximum as u64);
        assert(r <= 100) by (nonlinear_arith)
            requires
                scaled == 100 * self.current,
                self.current <= self.maximum,
                self.maximum > 0,
                r == scaled / (self.maximum as u64),
        {
            assert(scaled <= 100 * self.maximum);
        }
        r as u32
    }

    pub fn maximum(&self) -> (r: u32)
        ensures
            r == self.max_hp(),
    {
        self.maximum
    }

    pub fn dead(&self) -> (r: bool)
        ensures
            r == (self.hp() == 0),
    {
        self.current == 0
    }

    /// Takes `damage` off the health, stopping at zero.
    pub fn hit(&mut self, damage: u32) -> (r: &mut Self)
        requires
            old(self).wf(),
        ensures
            r.wf(),
            r.max_hp() == old(self).max_hp(),
            r.hp() == (if damage >= old(self).hp() { 0 } else { old(self).hp() - damage }),
            *final(self) == *final(r),
    {
        self.current = self.current.saturating_sub(damage);
        self
    }
}

/// Explosion an entity makes when it collides. An entity that has one is
/// destroyed on collision.
#[derive(Clone, Copy, PartialEq, Eq, Structural, Debug)]
pub enum ExplosionEffect {
    Debug,
    Small,
    Big,
}

impl Default for ExplosionEffect {
    fn default() -> (r: Self)
        ensures
            r == ExplosionEffect::Debug,
    {
        ExplosionEffect::Debug
    }
}

/// First index of `effects` that holds `wanted`.
pub open spec fn first_of(effects: Seq<ExplosionEffect>, wanted: ExplosionEffect, i: int) -> bool {
    &&& 0 <= i < effects.len()
    &&& effects[i] == wanted
    &&& forall|j: int| 0 <= j < i ==> effects[j] != wanted
}

pub open spec fn holds_effect(effects: Seq<ExplosionEffect>, wanted: ExplosionEffect) -> bool {
    exists|i: int| 0 <= i < effects.len() && effects[i] == wanted
}

fn find_effect(effects: &Vec<ExplosionEffect>, wanted: ExplosionEffect) -> (r: Option<usize>)
    ensures
        r is None <==> !holds_effect(effects@, wanted),
        r is Some ==> first_of(effects@, wanted, r->0 as int),
{
    let mut i: usize = 0;
    while i < effects.len()
        invariant
            i <= effects.len(),
            forall|j: int| 0 <= j < i ==> effects@[j] != wanted,
        decreases effects.len() - i,
    {
        if effects[i] == wanted {
            return Some(i);
        }
        i += 1;
    }
    None
}

/// Picks, among the explosion emitters at hand, the one that plays `wanted`:
/// the first emitter of that kind, else the first `Debug` emitter, else none.
pub fn pick_explosion(effects: &Vec<ExplosionEffect>, wanted: ExplosionEffect) -> (r: Option<usize>)
    ensures
        holds_effect(effects@, wanted) ==> r is Some && first_of(effects@, wanted, r->0 as int),
        !holds_effect(effects@, wanted) && holds_effect(effects@, ExplosionEffect::Debug)
            ==> r is Some && first_of(effects@, ExplosionEffect::Debug, r->0 as int),
        !holds_effect(effects@, wanted) && !holds_effect(effects@, ExplosionEffect::Debug)
            ==> r is None,
{
    match find_effect(effects, wanted) {
        Some(i) => Some(i),
        None => find_effect(effects, ExplosionEffect::Debug),
    }
}

} // verus!
