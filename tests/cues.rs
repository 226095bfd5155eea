use haptics::catalog::{cue_steps, repeated, Cue};
use haptics::pattern::{HapticPattern, PerformanceTime, PulseError, PulseStep};
use haptics::scrub::{scrub_pattern, scrub_steps, Intensity};
use haptics::sequencer::{plan, Action, Event, Sequencer};

use HapticPattern::{Alignment, Generic, LevelChange};

/// Plays `steps` to the end, failing the fires whose index is in `failing`.
/// Returns every action handed out, the final `Done` included.
fn play(steps: Vec<PulseStep>, failing: &[usize]) -> Vec<Action> {
    let mut seq = Sequencer::new(steps);
    let mut out = Vec::new();
    let mut fire_index = 0usize;
    let mut action = seq.current();
    loop {
        out.push(action);
        let event = match action {
            Action::Fire(_) => {
                let r = if failing.contains(&fire_index) {
                    Err(PulseError::Unavailable)
                } else {
                    Ok(())
                };
                fire_index += 1;
                Event::Fired(r)
            }
            Action::Sleep(_) => Event::Slept,
            Action::Done(_) => break,
        };
        action = seq.on_event(event);
    }
    out
}

fn fires(actions: &[Action]) -> Vec<HapticPattern> {
    actions
        .iter()
        .filter_map(|a| match a {
            Action::Fire(p) => Some(*p),
            _ => None,
        })
        .collect()
}

fn sleeps(actions: &[Action]) -> Vec<u64> {
    actions
        .iter()
        .filter_map(|a| match a {
            Action::Sleep(d) => Some(*d),
            _ => None,
        })
        .collect()
}

fn cue_actions(c: Cue) -> Vec<Action> {
    play(cue_steps(c), &[])
}

#[test]
fn every_cue_plays_its_table_row() {
    let rows: Vec<(Cue, Vec<Action>)> = vec![
        (Cue::Tick, vec![Action::Fire(Generic)]),
        (Cue::Soft, vec![Action::Fire(Generic)]),
        (Cue::Tap, vec![Action::Fire(Generic)]),
        (Cue::Alignment, vec![Action::Fire(Alignment)]),
        (Cue::LevelChange, vec![Action::Fire(LevelChange)]),
        (
            Cue::DoubleTap,
            vec![Action::Fire(Alignment), Action::Sleep(60), Action::Fire(Alignment)],
        ),
        (
            Cue::TripleTap,
            vec![
                Action::Fire(LevelChange),
                Action::Sleep(80),
                Action::Fire(LevelChange),
                Action::Sleep(80),
                Action::Fire(LevelChange),
            ],
        ),
        (
            Cue::Success,
            vec![Action::Fire(Alignment), Action::Sleep(40), Action::Fire(Generic)],
        ),
        (
            Cue::Thunk,
            vec![Action::Fire(LevelChange), Action::Sleep(25), Action::Fire(Generic)],
        ),
        (
            Cue::Play,
            vec![Action::Fire(Generic), Action::Sleep(50), Action::Fire(Alignment)],
        ),
        (
            Cue::Pause,
            vec![Action::Fire(Alignment), Action::Sleep(50), Action::Fire(Generic)],
        ),
        (Cue::DirectionChange, vec![Action::Fire(Alignment)]),
    ];
    for (cue, mut expected) in rows {
        expected.push(Action::Done(Ok(())));
        assert_eq!(cue_actions(cue), expected, "{:?}", cue);
    }
}

#[test]
fn single_pulse_cues_fire_once_without_pause() {
    for cue in [
        Cue::Tick,
        Cue::Soft,
        Cue::Tap,
        Cue::Alignment,
        Cue::LevelChange,
        Cue::DirectionChange,
    ] {
        let actions = cue_actions(cue);
        assert_eq!(fires(&actions).len(), 1);
        assert!(sleeps(&actions).is_empty());
    }
}

#[test]
fn compound_cues_count_and_total_delay() {
    let expected: Vec<(Cue, usize, u64)> = vec![
        (Cue::DoubleTap, 2, 60),
        (Cue::TripleTap, 3, 160),
        (Cue::Success, 2, 40),
        (Cue::Thunk, 2, 25),
        (Cue::Play, 2, 50),
        (Cue::Pause, 2, 50),
    ];
    for (cue, pulses, total) in expected {
        let actions = cue_actions(cue);
        assert_eq!(fires(&actions).len(), pulses);
        assert_eq!(sleeps(&actions).iter().sum::<u64>(), total);
    }
    assert_eq!(fires(&cue_actions(Cue::Success)), vec![Alignment, Generic]);
}

fn scrub(x: f64) -> HapticPattern {
    scrub_pattern(Intensity::from_bits(x.to_bits()))
}

#[test]
fn scrub_thresholds() {
    assert_eq!(scrub(0.8), Alignment);
    assert_eq!(scrub(0.5), Generic);
    assert_eq!(scrub(0.1), Generic);
    assert_eq!(scrub(0.0), Generic);
}

#[test]
fn scrub_boundaries_and_special_values() {
    assert_eq!(scrub(0.7), Generic);
    assert_eq!(scrub(0.7000000000000001), Alignment);
    assert_eq!(scrub(0.3), Generic);
    assert_eq!(scrub(1.0), Alignment);
    assert_eq!(scrub(-0.0), Generic);
    assert_eq!(scrub(f64::INFINITY), Alignment);
    assert_eq!(scrub(f64::NEG_INFINITY), Alignment);
    assert_eq!(scrub(f64::NAN), Generic);
    assert_eq!(scrub(f64::MIN_POSITIVE), Generic);
}

#[test]
fn scrub_ignores_the_sign() {
    for x in [0.0, 0.1, 0.3, 0.31, 0.5, 0.7, 0.71, 0.8, 1.0, 12.5, f64::INFINITY] {
        assert_eq!(scrub(x), scrub(-x), "{}", x);
        let i = Intensity::from_bits(x.to_bits());
        assert_eq!(scrub_pattern(i), scrub_pattern(i.negated()));
    }
    assert_eq!(Intensity::from_bits(0.8f64.to_bits()).negated().bits, (-0.8f64).to_bits());
}

#[test]
fn scrub_is_one_pulse() {
    let steps = scrub_steps(Intensity::from_bits((-0.9f64).to_bits()));
    assert_eq!(steps, vec![PulseStep::new(Alignment, 0)]);
    assert_eq!(
        play(steps, &[]),
        vec![Action::Fire(Alignment), Action::Done(Ok(()))]
    );
}

#[test]
fn failed_pulse_does_not_stop_the_rest() {
    let actions = play(cue_steps(Cue::TripleTap), &[0]);
    assert_eq!(fires(&actions), vec![LevelChange, LevelChange, LevelChange]);
    assert_eq!(sleeps(&actions), vec![80, 80]);
    assert_eq!(actions.last(), Some(&Action::Done(Err(PulseError::Unavailable))));

    for failing in 0..2usize {
        let actions = play(cue_steps(Cue::Success), &[failing]);
        assert_eq!(fires(&actions), vec![Alignment, Generic]);
        assert_eq!(sleeps(&actions), vec![40]);
        assert_eq!(actions.last(), Some(&Action::Done(Err(PulseError::Unavailable))));
    }

    let all_fail = play(cue_steps(Cue::Play), &[0, 1]);
    assert_eq!(fires(&all_fail), vec![Generic, Alignment]);
}

#[test]
fn same_cue_twice_plays_identically() {
    for cue in [Cue::Tick, Cue::DoubleTap, Cue::TripleTap, Cue::Thunk] {
        let first = cue_actions(cue);
        let second = cue_actions(cue);
        assert_eq!(first, second);
    }
}

#[test]
fn done_is_repeated_after_the_end() {
    let mut seq = Sequencer::new(cue_steps(Cue::Tick));
    assert_eq!(seq.current(), Action::Fire(Generic));
    assert!(!seq.is_finished());
    assert_eq!(seq.on_event(Event::Fired(Err(PulseError::Unavailable))), Action::Done(Err(PulseError::Unavailable)));
    assert!(seq.is_finished());
    assert_eq!(seq.on_event(Event::Slept), Action::Done(Err(PulseError::Unavailable)));
}

#[test]
fn zero_delay_means_no_pause() {
    let steps = vec![
        PulseStep::new(Generic, 0),
        PulseStep::new(Alignment, 15),
        PulseStep::new(LevelChange, 99),
    ];
    assert_eq!(
        plan(&steps),
        vec![
            Action::Fire(Generic),
            Action::Fire(Alignment),
            Action::Sleep(15),
            Action::Fire(LevelChange),
        ]
    );
}

#[test]
fn repeated_pulses() {
    assert!(repeated(Generic, 0, 30).is_empty());
    assert_eq!(
        repeated(LevelChange, 3, 80),
        vec![
            PulseStep::new(LevelChange, 80),
            PulseStep::new(LevelChange, 80),
            PulseStep::new(LevelChange, 0),
        ]
    );
    assert_eq!(repeated(Alignment, 1, 60), vec![PulseStep::new(Alignment, 0)]);
}

#[test]
fn platform_codes() {
    assert_eq!(Generic.code(), 0);
    assert_eq!(Alignment.code(), 1);
    assert_eq!(LevelChange.code(), 2);
    assert_eq!(PerformanceTime::Default.code(), 0);
    assert_eq!(PerformanceTime::Now.code(), 1);
    assert_eq!(PerformanceTime::DrawCompleted.code(), 2);
}

#[test]
fn strengths_are_ordered() {
    assert!(Generic.is_weaker_than(Alignment));
    assert!(Alignment.is_weaker_than(LevelChange));
    assert!(Generic.is_weaker_than(LevelChange));
    assert!(!LevelChange.is_weaker_than(Generic));
    assert!(!Alignment.is_weaker_than(Alignment));
}
