//! The discrete time-scale controller.
//!
//! The controller owns an ordered list of scale presets and the scale that is
//! currently in force. Stepping up scans the presets front to back for the
//! first one strictly above the current scale; stepping down scans back to
//! front for the first one strictly below. At a boundary, or with no presets
//! at all, a step is a saturating no-op. The current scale need not itself be
//! a preset: the scans compare by magnitude only.

use vstd::prelude::*;

verus! {

/// The scale that a front-to-back scan of `presets` lands on from `cur`:
/// the first preset strictly greater than `cur`, or `cur` when none is.
pub open spec fn speed_up_spec(presets: Seq<u32>, cur: u32) -> u32
    decreases presets.len(),
{
    if presets.len() == 0 {
        cur
    } else if presets[0] > cur {
        presets[0]
    } else {
        speed_up_spec(presets.drop_first(), cur)
    }
}

/// The scale that a back-to-front scan of `presets` lands on from `cur`:
/// the last preset strictly less than `cur`, or `cur` when none is.
pub open spec fn slow_down_spec(presets: Seq<u32>, cur: u32) -> u32
    decreases presets.len(),
{
    if presets.len() == 0 {
        cur
    } else if presets.last() < cur {
        presets.last()
    } else {
        slow_down_spec(presets.drop_last(), cur)
    }
}

/// Each preset is strictly greater than every preset before it.
pub open spec fn strictly_increasing(presets: Seq<u32>) -> bool {
    forall|i: int, j: int| 0 <= i < j < presets.len() ==> presets[i] < presets[j]
}

/// Owns the preset list and the scale currently applied to simulated time.
///
/// Scales are fixed-point thousandths: `1000` is real time, `0` is frozen,
/// `2000` is double speed.
pub struct TimeScaleController {
    /// The admissible scale values, by convention strictly increasing.
    pub presets: Vec<u32>,
    /// The scale currently in force; the simulation reads it every tick.
    pub current_scale: u32,
}

impl TimeScaleController {
    /// Builds a controller from persisted configuration. The initial scale
    /// need not appear in `presets`.
    pub fn new(presets: Vec<u32>, initial_scale: u32) -> (c: TimeScaleController)
        ensures
            c.presets@ == presets@,
            c.current_scale == initial_scale,
    {
        TimeScaleController { presets, current_scale: initial_scale }
    }

    /// Steps the scale to the first preset strictly above the current one;
    /// leaves it unchanged when there is none. Returns the old and the new
    /// scale, equal exactly when nothing changed.
    pub fn speed_up(&mut self) -> (r: (u32, u32))
        ensures
            final(self).presets@ == old(self).presets@,
            final(self).current_scale == speed_up_spec(old(self).presets@, old(self).current_scale),
            r.0 == old(self).current_scale,
            r.1 == final(self).current_scale,
    {
        let old_scale = self.current_scale;
        let n = self.presets.len();
        let mut i: usize = 0;
        proof {
            assert(self.presets@.skip(0) =~= self.presets@);
        }
        while i < n
            invariant
                n == self.presets@.len(),
                i <= n,
                self.current_scale == old_scale,
                self.presets@ == old(self).presets@,
                old_scale == old(self).current_scale,
                speed_up_spec(self.presets@, old_scale)
                    == speed_up_spec(self.presets@.skip(i as int), old_scale),
            decreases n - i,
        {
            let p = self.presets[i];
            proof {
                assert(self.presets@.skip(i as int)[0] == self.presets@[i as int]);
                assert(self.presets@.skip(i as int).drop_first()
                    =~= self.presets@.skip(i + 1));
            }
            if p > self.current_scale {
                self.current_scale = p;
                return (old_scale, p);
            }
            i = i + 1;
        }
        proof {
            assert(self.presets@.skip(n as int) =~= Seq::<u32>::empty());
        }
        (old_scale, old_scale)
    }

    /// Steps the scale to the last preset strictly below the current one;
    /// leaves it unchanged when there is none. Returns the old and the new
    /// scale, equal exactly when nothing changed.
    pub fn slow_down(&mut self) -> (r: (u32, u32))
        ensures
            final(self).presets@ == old(self).presets@,
            final(self).current_scale == slow_down_spec(old(self).presets@, old(self).current_scale),
            r.0 == old(self).current_scale,
            r.1 == final(self).current_scale,
    {
        let old_scale = self.current_scale;
        let mut i: usize = self.presets.len();
        proof {
            assert(self.presets@.take(i as int) =~= self.presets@);
        }
        while i > 0
            invariant
                i <= self.presets@.len(),
                self.current_scale == old_scale,
                self.presets@ == old(self).presets@,
                old_scale == old(self).current_scale,
                slow_down_spec(self.presets@, old_scale)
                    == slow_down_spec(self.presets@.take(i as int), old_scale),
            decreases i,
        {
            let p = self.presets[i - 1];
            proof {
                assert(self.presets@.take(i as int).last() == self.presets@[i - 1]);
                assert(self.presets@.take(i as int).drop_last()
                    =~= self.presets@.take(i - 1));
            }
            if p < self.current_scale {
                self.current_scale = p;
                return (old_scale, p);
            }
            i = i - 1;
        }
        proof {
            assert(self.presets@.take(0) =~= Seq::<u32>::empty());
        }
        (old_scale, old_scale)
    }
}

/// Law: on a strictly increasing preset list, stepping up from the preset at
/// position `i` lands on the preset at `i + 1`, or stays put at the top.
pub proof fn lemma_speed_up_steps(presets: Seq<u32>, i: int)
    requires
        strictly_increasing(presets),
        0 <= i < presets.len(),
    ensures
        speed_up_spec(presets, presets[i]) == if i + 1 < presets.len() {
            presets[i + 1]
        } else {
            presets[i]
        },
    decreases presets.len(),
{
    if presets[0] > presets[i] {
        assert(i > 0);
        assert(presets[0] < presets[i]);
        assert(false);
    } else if i == 0 {
        let rest = presets.drop_first();
        if presets.len() > 1 {
            assert(rest[0] == presets[1]);
            assert(rest[0] > presets[0]);
            assert(speed_up_spec(rest, presets[0]) == presets[1]);
        } else {
            assert(rest.len() == 0);
            assert(speed_up_spec(rest, presets[0]) == presets[0]);
        }
    } else {
        let rest = presets.drop_first();
        assert forall|a: int, b: int| 0 <= a < b < rest.len() implies rest[a] < rest[b] by {
            assert(rest[a] == presets[a + 1]);
            assert(rest[b] == presets[b + 1]);
        }
        lemma_speed_up_steps(rest, i - 1);
        assert(rest[i - 1] == presets[i]);
        assert(speed_up_spec(presets, presets[i]) == speed_up_spec(rest, presets[i]));
        if i + 1 < presets.len() {
            assert(rest[i] == presets[i + 1]);
        }
    }
}

/// Law: on a strictly increasing preset list, stepping down from the preset
/// at position `i` lands on the preset at `i - 1`, or stays put at the bottom.
pub proof fn lemma_slow_down_steps(presets: Seq<u32>, i: int)
    requires
        strictly_increasing(presets),
        0 <= i < presets.len(),
    ensures
        slow_down_spec(presets, presets[i]) == if i > 0 {
            presets[i - 1]
        } else {
            presets[i]
        },
    decreases presets.len(),
{
    let n = presets.len() as int;
    if presets.last() < presets[i] {
        assert(i < n - 1);
        assert(presets[i] < presets[n - 1]);
        assert(false);
    } else if i == n - 1 {
        let rest = presets.drop_last();
        if n > 1 {
            assert(rest.last() == presets[n - 2]);
            assert(rest.last() < presets[i]);
            assert(slow_down_spec(rest, presets[i]) == presets[n - 2]);
        } else {
            assert(rest.len() == 0);
            assert(slow_down_spec(rest, presets[i]) == presets[i]);
        }
    } else {
        let rest = presets.drop_last();
        assert forall|a: int, b: int| 0 <= a < b < rest.len() implies rest[a] < rest[b] by {
            assert(rest[a] == presets[a]);
            assert(rest[b] == presets[b]);
        }
        lemma_slow_down_steps(rest, i);
        assert(rest[i] == presets[i]);
        assert(slow_down_spec(presets, presets[i]) == slow_down_spec(rest, presets[i]));
        if i > 0 {
            assert(rest[i - 1] == presets[i - 1]);
        }
    }
}

/// Law: with every preset at or below the current scale, stepping up is a
/// no-op; the state is unchanged, so repeating the call keeps returning the
/// same saturated pair.
pub proof fn lemma_speed_up_saturates(presets: Seq<u32>, cur: u32)
    requires
        forall|i: int| 0 <= i < presets.len() ==> presets[i] <= cur,
    ensures
        speed_up_spec(presets, cur) == cur,
    decreases presets.len(),
{
    if presets.len() > 0 {
        lemma_speed_up_saturates(presets.drop_first(), cur);
    }
}

/// Law: with every preset at or above the current scale, stepping down is a
/// no-op; the state is unchanged, so repeating the call keeps returning the
/// same saturated pair.
pub proof fn lemma_slow_down_saturates(presets: Seq<u32>, cur: u32)
    requires
        forall|i: int| 0 <= i < presets.len() ==> presets[i] >= cur,
    ensures
        slow_down_spec(presets, cur) == cur,
    decreases presets.len(),
{
    if presets.len() > 0 {
        lemma_slow_down_saturates(presets.drop_last(), cur);
    }
}

/// Law: with no presets at all, both steps are no-ops from any starting scale.
pub proof fn lemma_step_empty_presets(cur: u32)
    ensures
        speed_up_spec(Seq::<u32>::empty(), cur) == cur,
        slow_down_spec(Seq::<u32>::empty(), cur) == cur,
{
}

} // verus!
