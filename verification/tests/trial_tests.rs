use cerke_online_backend::trial::CiurlPair;
use cerke_online_backend::trial::TrialSource;
use cerke_online_backend::Ciurl;
use cerke_online_backend::WhoGoesFirst;

/// A deterministic trial source fed from a script of boolean outcomes.
struct ScriptedSource {
    script: Vec<bool>,
    next: usize,
}

impl ScriptedSource {
    fn new(script: Vec<bool>) -> ScriptedSource {
        ScriptedSource { script, next: 0 }
    }
}

impl TrialSource for ScriptedSource {
    fn next_bool(&mut self) -> bool {
        let b = self.script[self.next % self.script.len()];
        self.next += 1;
        b
    }
}

#[test]
fn ciurl_count_counts_face_up_sticks() {
    assert_eq!(Ciurl(true, false, true, false, true).count(), 3);
    assert_eq!(Ciurl(false, false, false, false, false).count(), 0);
    assert_eq!(Ciurl(true, true, true, true, true).count(), 5);
}

#[test]
fn ciurl_from_count_shows_exactly_that_count() {
    for cnt in 0..=5 {
        let c = Ciurl::from_count(cnt);
        assert_eq!(c.count(), cnt);
    }
}

#[test]
fn ciurl_serializes_as_ordered_flags() {
    let c = Ciurl(true, false, false, true, true);
    assert_eq!(c.to_flags(), vec![true, false, false, true, true]);
}

#[test]
fn ciurl_new_draws_from_the_source() {
    let mut source = ScriptedSource::new(vec![true, false, true, true, false]);
    let c = Ciurl::new(&mut source);
    assert_eq!(c, Ciurl(true, false, true, true, false));
}

#[test]
fn first_mover_decision_records_ties_and_ends_unequal() {
    // First pair: 5 vs 5 face-up, a tie that must be redrawn.
    // Second pair: 5 vs 0 face-up, a strict majority for the first side.
    let mut script = Vec::new();
    script.extend([true; 5]);
    script.extend([true; 5]);
    script.extend([true; 5]);
    script.extend([false; 5]);
    let mut source = ScriptedSource::new(script);
    let w = WhoGoesFirst::new(&mut source);
    assert!(w.result);
    assert_eq!(w.process.len(), 2);
    assert_eq!(w.process[0].first.count(), w.process[0].second.count());
    assert_eq!(w.process[1].first.count(), 5);
    assert_eq!(w.process[1].second.count(), 0);
    assert_ne!(w.process[1].first.count(), w.process[1].second.count());
}

#[test]
fn first_mover_decision_for_the_other_side() {
    let mut script = Vec::new();
    script.extend([false; 5]);
    script.extend([true, true, false, false, false]);
    let mut source = ScriptedSource::new(script);
    let w = WhoGoesFirst::new(&mut source);
    assert!(!w.result);
    assert_eq!(w.process.len(), 1);
    let n = w.not();
    assert!(n.result);
    assert_eq!(
        n.process[0],
        CiurlPair {
            first: w.process[0].second,
            second: w.process[0].first,
        }
    );
}

#[test]
fn negating_twice_restores_the_decision() {
    let mut script = Vec::new();
    script.extend([true, true, true, false, false]);
    script.extend([true, true, true, false, false]);
    script.extend([true, false, false, false, false]);
    script.extend([false, true, true, true, false]);
    let mut source = ScriptedSource::new(script);
    let w = WhoGoesFirst::new(&mut source);
    assert_eq!(w.not().not(), w);
}
