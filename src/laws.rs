use vstd::prelude::*;

use crate::catalog::{catalog, is_single_pulse, Cue};
use crate::pattern::{HapticPattern, PulseError, PulseStep};
use crate::scrub::{scrub_choice, SIGN_BIT};
use crate::sequencer::{pause, schedule, Action, Sequencer};

verus! {

/// The strengths of the pulses fired by `actions`, in order.
pub open spec fn fired(actions: Seq<Action>) -> Seq<HapticPattern>
    decreases actions.len(),
{
    if actions.len() == 0 {
        seq![]
    } else {
        fired(actions.drop_last()) + match actions.last() {
            Action::Fire(p) => seq![p],
            _ => seq![],
        }
    }
}

/// The pauses slept by `actions`, in order.
pub open spec fn slept(actions: Seq<Action>) -> Seq<u64>
    decreases actions.len(),
{
    if actions.len() == 0 {
        seq![]
    } else {
        slept(actions.drop_last()) + match actions.last() {
            Action::Sleep(d) => seq![d],
            _ => seq![],
        }
    }
}

/// The sum of a list of milliseconds.
pub open spec fn total(ms: Seq<u64>) -> nat
    decreases ms.len(),
{
    if ms.len() == 0 {
        0
    } else {
        total(ms.drop_last()) + ms.last() as nat
    }
}

/// The strengths of a list of steps.
pub open spec fn patterns(steps: Seq<PulseStep>) -> Seq<HapticPattern> {
    steps.map_values(|s: PulseStep| s.pattern)
}

/// The pauses between the steps of a non-empty list: every step's but the last's.
pub open spec fn gaps(steps: Seq<PulseStep>) -> Seq<u64> {
    steps.drop_last().map_values(|s: PulseStep| s.delay_after_ms)
}

proof fn lemma_fired_concat(a: Seq<Action>, b: Seq<Action>)
    ensures
        fired(a + b) == fired(a) + fired(b),
    decreases b.len(),
{
    if b.len() == 0 {
        assert(a + b =~= a);
        assert(fired(b) =~= seq![]);
        assert(fired(a) + fired(b) =~= fired(a));
    } else {
        lemma_fired_concat(a, b.drop_last());
        assert((a + b).drop_last() =~= a + b.drop_last());
        assert((a + b).last() == b.last());
        assert(fired(a + b) =~= fired(a) + fired(b));
    }
}

proof fn lemma_slept_concat(a: Seq<Action>, b: Seq<Action>)
    ensures
        slept(a + b) == slept(a) + slept(b),
    decreases b.len(),
{
    if b.len() == 0 {
        assert(a + b =~= a);
        assert(slept(b) =~= seq![]);
        assert(slept(a) + slept(b) =~= slept(a));
    } else {
        lemma_slept_concat(a, b.drop_last());
        assert((a + b).drop_last() =~= a + b.drop_last());
        assert((a + b).last() == b.last());
        assert(slept(a + b) =~= slept(a) + slept(b));
    }
}

proof fn lemma_total_concat(a: Seq<u64>, b: Seq<u64>)
    ensures
        total(a + b) == total(a) + total(b),
    decreases b.len(),
{
    if b.len() == 0 {
        assert(a + b =~= a);
    } else {
        lemma_total_concat(a, b.drop_last());
        assert((a + b).drop_last() =~= a + b.drop_last());
        assert((a + b).last() == b.last());
    }
}

proof fn lemma_singletons(p: HapticPattern, d: u64)
    ensures
        fired(seq![Action::Fire(p)]) == seq![p],
        slept(seq![Action::Fire(p)]) == Seq::<u64>::empty(),
        fired(seq![Action::Sleep(d)]) == Seq::<HapticPattern>::empty(),
        slept(seq![Action::Sleep(d)]) == seq![d],
{
    assert(fired(Seq::<Action>::empty()) =~= Seq::<HapticPattern>::empty());
    assert(slept(Seq::<Action>::empty()) =~= Seq::<u64>::empty());
    assert(seq![Action::Fire(p)].last() == Action::Fire(p));
    assert(seq![Action::Sleep(d)].last() == Action::Sleep(d));
    assert(seq![Action::Fire(p)].drop_last() =~= Seq::<Action>::empty());
    assert(seq![Action::Sleep(d)].drop_last() =~= Seq::<Action>::empty());
    assert(fired(seq![Action::Fire(p)]) =~= seq![p]);
    assert(slept(seq![Action::Fire(p)]) =~= Seq::<u64>::empty());
    assert(fired(seq![Action::Sleep(d)]) =~= Seq::<HapticPattern>::empty());
    assert(slept(seq![Action::Sleep(d)]) =~= seq![d]);
}

/// Splits the schedule of a list of two or more steps at its last step.
proof fn lemma_schedule_last(s: Seq<PulseStep>)
    requires
        s.len() >= 2,
    ensures
        fired(schedule(s)) == fired(schedule(s.drop_last())) + seq![s.last().pattern],
        slept(schedule(s)) == slept(schedule(s.drop_last())) + slept(pause(s[s.len() - 2])),
{
    let head = schedule(s.drop_last());
    let mid = pause(s[s.len() - 2]);
    let tail = seq![Action::Fire(s.last().pattern)];
    lemma_fired_concat(head + mid, tail);
    lemma_fired_concat(head, mid);
    lemma_slept_concat(head + mid, tail);
    lemma_slept_concat(head, mid);
    lemma_singletons(s.last().pattern, s[s.len() - 2].delay_after_ms);
    if s[s.len() - 2].delay_after_ms == 0 {
        assert(fired(mid) =~= Seq::<HapticPattern>::empty());
    }
    assert(fired(head) + fired(mid) =~= fired(head));
    assert(slept(head + mid) + slept(tail) =~= slept(head + mid));
}

/// The pulses of a schedule are the steps' strengths, in order.
pub proof fn lemma_schedule_fires_steps(s: Seq<PulseStep>)
    ensures
        fired(schedule(s)) == patterns(s),
    decreases s.len(),
{
    if s.len() == 0 {
        assert(patterns(s) =~= seq![]);
    } else if s.len() == 1 {
        lemma_singletons(s[0].pattern, 0);
        assert(patterns(s) =~= seq![s[0].pattern]);
    } else {
        lemma_schedule_fires_steps(s.drop_last());
        lemma_schedule_last(s);
        assert(patterns(s) =~= patterns(s.drop_last()) + seq![s.last().pattern]);
    }
}

/// Where no gap between steps is zero, the pauses of a schedule are those
/// gaps, in order.
pub proof fn lemma_schedule_sleeps_gaps(s: Seq<PulseStep>)
    requires
        s.len() > 0,
        forall|i: int| 0 <= i < s.len() - 1 ==> s[i].delay_after_ms > 0,
    ensures
        slept(schedule(s)) == gaps(s),
    decreases s.len(),
{
    if s.len() == 1 {
        lemma_singletons(s[0].pattern, 0);
        assert(gaps(s) =~= seq![]);
    } else {
        let d = s.drop_last();
        assert forall|i: int| 0 <= i < d.len() - 1 implies d[i].delay_after_ms > 0 by {
            assert(d[i] == s[i]);
        }
        lemma_schedule_sleeps_gaps(d);
        lemma_schedule_last(s);
        lemma_singletons(s.last().pattern, s[s.len() - 2].delay_after_ms);
        assert(gaps(s) =~= gaps(d) + seq![s[s.len() - 2].delay_after_ms]);
    }
}

/// The time a schedule sleeps is the sum of the gaps between its steps.
pub proof fn lemma_schedule_sleep_total(s: Seq<PulseStep>)
    requires
        s.len() > 0,
    ensures
        total(slept(schedule(s))) == total(gaps(s)),
    decreases s.len(),
{
    if s.len() == 1 {
        lemma_singletons(s[0].pattern, 0);
        assert(gaps(s) =~= seq![]);
    } else {
        let d = s.drop_last();
        let g = s[s.len() - 2].delay_after_ms;
        lemma_schedule_sleep_total(d);
        lemma_schedule_last(s);
        lemma_singletons(s.last().pattern, g);
        lemma_total_concat(slept(schedule(d)), slept(pause(s[s.len() - 2])));
        assert(gaps(s) =~= gaps(d) + seq![g]);
        lemma_total_concat(gaps(d), seq![g]);
        assert(seq![g].drop_last() =~= Seq::<u64>::empty());
        if g == 0 {
            assert(slept(pause(s[s.len() - 2])) =~= Seq::<u64>::empty());
        }
    }
}

/// Playing a cue fires the catalog's strengths for it and sleeps the
/// catalog's pauses for it, each in the catalog's order.
pub proof fn cue_plays_as_cataloged(c: Cue)
    ensures
        fired(schedule(catalog(c))) == patterns(catalog(c)),
        slept(schedule(catalog(c))) == gaps(catalog(c)),
{
    lemma_schedule_fires_steps(catalog(c));
    lemma_schedule_sleeps_gaps(catalog(c));
}

/// A single-pulse cue fires exactly one pulse and sleeps not at all.
pub proof fn single_pulse_cue_fires_once(c: Cue)
    requires
        is_single_pulse(c),
    ensures
        fired(schedule(catalog(c))).len() == 1,
        slept(schedule(catalog(c))) == Seq::<u64>::empty(),
        total(slept(schedule(catalog(c)))) == 0,
{
    cue_plays_as_cataloged(c);
    assert(gaps(catalog(c)) =~= Seq::<u64>::empty());
}

/// A compound cue fires as many pulses as it lists, and sleeps in all the
/// sum of the pauses it lists; `success`, for one, fires `Alignment` then
/// `Generic` and sleeps 40 ms.
pub proof fn compound_cue_totals(c: Cue)
    requires
        !is_single_pulse(c),
    ensures
        fired(schedule(catalog(c))).len() == catalog(c).len(),
        total(slept(schedule(catalog(c)))) == total(gaps(catalog(c))),
        c == Cue::Success ==> fired(schedule(catalog(c))) == seq![
            HapticPattern::Alignment,
            HapticPattern::Generic,
        ] && total(slept(schedule(catalog(c)))) == 40,
{
    cue_plays_as_cataloged(c);
    lemma_schedule_sleep_total(catalog(c));
    if c == Cue::Success {
        let s = catalog(c);
        assert(patterns(s) =~= seq![HapticPattern::Alignment, HapticPattern::Generic]);
        assert(gaps(s) =~= seq![40u64]);
        assert(seq![40u64].drop_last() =~= Seq::<u64>::empty());
        assert(total(Seq::<u64>::empty()) == 0);
        assert(total(seq![40u64]) == 40);
    }
}

/// A scrub selects the same strength for an intensity and its negation.
pub proof fn scrub_ignores_sign(bits: u64)
    ensures
        scrub_choice(bits) == scrub_choice(bits ^ SIGN_BIT),
{
    assert((bits ^ 0x8000_0000_0000_0000u64) & 0x7fff_ffff_ffff_ffffu64 == bits
        & 0x7fff_ffff_ffff_ffffu64) by (bit_vector);
}

/// Two fresh plays of one cue start in the same state: nothing is carried
/// over from an earlier play, so the same events give the same actions.
pub proof fn fresh_plays_agree(c: Cue, a: Sequencer, b: Sequencer)
    requires
        a.steps() == catalog(c),
        b.steps() == catalog(c),
        a.position() == 0,
        b.position() == 0,
        a.last_failure() == None::<PulseError>,
        b.last_failure() == None::<PulseError>,
    ensures
        a.action() == b.action(),
        a.action() == schedule(catalog(c))[0],
{
    lemma_schedule_fires_steps(catalog(c));
    assert(schedule(catalog(c)).len() > 0) by {
        if schedule(catalog(c)).len() == 0 {
            assert(fired(schedule(catalog(c))) =~= seq![]);
        }
    }
}

} // verus!
