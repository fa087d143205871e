//! Shoes filtered by size, a bounded counter, and a workout planner.

use vstd::prelude::*;

verus! {

/// A shoe in stock.
#[derive(Debug, PartialEq)]
pub struct Shoe {
    pub size: u32,
    pub style: String,
}

/// The shoes among `s` of exactly size `size`, in order.
pub open spec fn shoes_matching(s: Seq<Shoe>, size: u32) -> Seq<Shoe>
    decreases s.len(),
{
    if s.len() == 0 {
        Seq::empty()
    } else {
        let rest = shoes_matching(s.drop_last(), size);
        if s.last().size == size {
            rest.push(s.last())
        } else {
            rest
        }
    }
}

/// Keeps exactly the shoes of the given size, in their original order.
pub fn shoes_in_size(shoes: Vec<Shoe>, size: u32) -> (r: Vec<Shoe>)
    ensures
        r@ == shoes_matching(shoes@, size),
{
    let mut r: Vec<Shoe> = Vec::new();
    let mut i: usize = 0;
    while i < shoes.len()
        invariant
            0 <= i <= shoes@.len(),
            r@ == shoes_matching(shoes@.take(i as int), size),
        decreases shoes@.len() - i,
    {
        let ghost taken = shoes@.take(i as int);
        if shoes[i].size == size {
            let kept = Shoe { size: shoes[i].size, style: shoes[i].style.clone() };
            proof {
                assert(kept == shoes@[i as int]);
            }
            r.push(kept);
        }
        i += 1;
        proof {
            assert(shoes@.take(i as int).drop_last() =~= taken);
            assert(shoes@.take(i as int).last() == shoes@[i - 1]);
        }
    }
    proof {
        assert(shoes@.take(shoes@.len() as int) =~= shoes@);
    }
    r
}

/// A counter that counts from one to five and then stops.
pub struct Counter {
    count: u32,
}

impl Counter {
    /// How many times this counter has counted so far.
    pub closed spec fn count_spec(&self) -> u32 {
        self.count
    }

    /// A fresh counter that has not counted yet.
    pub fn new() -> (c: Counter)
        ensures
            c.count_spec() == 0,
    {
        Counter { count: 0 }
    }

    /// Counts once more: the numbers one to five in turn, then nothing.
    pub fn next(&mut self) -> (r: Option<u32>)
        ensures
            old(self).count_spec() < 5 ==> {
                &&& final(self).count_spec() == old(self).count_spec() + 1
                &&& r == Some((old(self).count_spec() + 1) as u32)
            },
            old(self).count_spec() >= 5 ==> {
                &&& final(self).count_spec() == old(self).count_spec()
                &&& r is None
            },
    {
        if self.count < 5 {
            self.count += 1;
            Some(self.count)
        } else {
            None
        }
    }
}

/// A day's workout.
#[derive(Clone, Copy, Debug, PartialEq, Eq, Structural)]
pub enum WorkoutPlan {
    /// Do this many pushups, then as many situps.
    Strength(u32),
    /// Take a break and stay hydrated.
    Rest,
    /// Run for this many minutes.
    Cardio(u32),
}

/// Plans a workout: low intensity means strength exercises at that
/// intensity; otherwise a lucky random number earns a rest day, and any
/// other number a run at the requested intensity.
pub fn generate_workout(intensity: u32, random_number: u32) -> (plan: WorkoutPlan)
    ensures
        plan == (if intensity < 25 {
            WorkoutPlan::Strength(intensity)
        } else if random_number == 3 {
            WorkoutPlan::Rest
        } else {
            WorkoutPlan::Cardio(intensity)
        }),
{
    if intensity < 25 {
        WorkoutPlan::Strength(intensity)
    } else if random_number == 3 {
        WorkoutPlan::Rest
    } else {
        WorkoutPlan::Cardio(intensity)
    }
}

} // verus!
