use cerke_online_backend::engine::CandidateMove;
use cerke_online_backend::game::HandCompletionStatus;
use cerke_online_backend::game::NonTamMoveDotData;
use cerke_online_backend::game::NormalMove;
use cerke_online_backend::game_state::GameState;
use cerke_online_backend::game_state::HandOutcome;
use cerke_online_backend::message::InfAfterStepInternal;
use cerke_online_backend::message::MoveToBePolled;
use cerke_online_backend::message::RetAfterHalfAcceptance;
use cerke_online_backend::message::RetInfAfterStep;
use cerke_online_backend::message::RetNormalMove;
use cerke_online_backend::message::RetTyMok;
use cerke_online_backend::AbsoluteColumn;
use cerke_online_backend::AbsoluteCoord;
use cerke_online_backend::AbsoluteRow;

/// A fresh session in which the IA-side seat moves first. The opening side
/// is drawn at random, so sessions are opened until the wanted side comes
/// up.
fn ia_first_session() -> GameState {
    for _ in 0..500 {
        let g = GameState::new();
        if g.is_ia_owner_s_turn() {
            return g;
        }
    }
    panic!("no session opened with the IA side to move");
}

fn coord(row: AbsoluteRow, col: AbsoluteColumn) -> AbsoluteCoord {
    AbsoluteCoord(row, col)
}

/// A stepping move that is legal for the IA side on the opening board: the
/// piece on AU-L steps over the piece on AU-K, planning to come back.
fn opening_stepping_move() -> InfAfterStepInternal {
    InfAfterStepInternal {
        src: coord(AbsoluteRow::AU, AbsoluteColumn::L),
        step: coord(AbsoluteRow::AU, AbsoluteColumn::K),
        coord_signifying_planned_direction: coord(AbsoluteRow::AU, AbsoluteColumn::L),
    }
}

/// An ordinary move that is legal for the IA side on the opening board: the
/// pawn on AI-K advances one square to the empty Y-K.
fn opening_simple_move() -> NormalMove {
    NormalMove::NonTamMove {
        data: NonTamMoveDotData::SrcDst {
            src: coord(AbsoluteRow::AI, AbsoluteColumn::K),
            dest: coord(AbsoluteRow::Y, AbsoluteColumn::K),
            water_entry_ciurl: None,
        },
    }
}

#[test]
fn awaiting_move_rejects_half_acceptance_and_resolve() {
    let mut g = GameState::new();
    let r = g.apply_after_half_acceptance(None);
    assert!(matches!(r, RetAfterHalfAcceptance::Illegal { .. }));
    let r = g.apply_resolve();
    assert_eq!(r, HandOutcome::Illegal);
    let r = g.apply_tymok();
    assert!(matches!(r, RetTyMok::Illegal));
}

#[test]
fn awaiting_half_acceptance_rejects_new_moves() {
    let mut g = ia_first_session();
    let r = g.apply_inf_after_step(opening_stepping_move());
    assert!(matches!(r, RetInfAfterStep::Legal { .. }), "{:?}", r);
    let r = g.apply_normal_move(opening_simple_move());
    assert!(matches!(r, RetNormalMove::Illegal { .. }));
    let r = g.apply_inf_after_step(opening_stepping_move());
    assert!(matches!(r, RetInfAfterStep::Illegal { .. }));
}

#[test]
fn stepping_move_then_stopping_immediately() {
    let mut g = ia_first_session();
    let stepping = opening_stepping_move();
    let ciurl = match g.apply_inf_after_step(stepping) {
        RetInfAfterStep::Legal { ciurl } => ciurl,
        RetInfAfterStep::Illegal { why_illegal } => panic!("{}", why_illegal),
    };
    let pending = g.get_last_move().expect("a provisional record");
    assert_eq!(pending.status, Some(HandCompletionStatus::NotYetDetermined));
    match pending.mov {
        MoveToBePolled::InfAfterStep {
            stepping_ciurl,
            final_result,
            ..
        } => {
            assert_eq!(stepping_ciurl, ciurl);
            assert!(final_result.is_none());
        }
        other => panic!("unexpected record {:?}", other),
    }

    // Stopping immediately always succeeds, never casts water-entry sticks,
    // and fills the deferred final result with the square the piece started
    // from, leaving the completion status still undetermined.
    let r = g.apply_after_half_acceptance(None);
    assert!(matches!(r, RetAfterHalfAcceptance::WithoutWaterEntry));
    let last = g.get_last_move().expect("the settled record");
    assert_eq!(last.status, Some(HandCompletionStatus::NotYetDetermined));
    match last.mov {
        MoveToBePolled::InfAfterStep {
            stepping_ciurl,
            final_result,
            ..
        } => {
            assert_eq!(stepping_ciurl, ciurl);
            let fr = final_result.expect("the final result is filled in");
            assert_eq!(fr.dest, stepping.src);
            assert!(fr.water_entry_ciurl.is_none());
            assert!(fr.thwarted_by_failing_water_entry_ciurl.is_none());
        }
        other => panic!("unexpected record {:?}", other),
    }
}

#[test]
fn resolve_with_no_hand_returns_to_awaiting_move() {
    let mut g = ia_first_session();
    let r = g.apply_normal_move(opening_simple_move());
    assert!(matches!(r, RetNormalMove::WithoutWaterEntry), "{:?}", r);
    let before = g.get_last_move().expect("a committed record");
    assert_eq!(before.status, None);

    // A lone opening pawn advance makes no hand: play returns directly to
    // awaiting the next move and the record's completion status is left
    // exactly as it was.
    let r = g.apply_resolve();
    assert_eq!(r, HandOutcome::NoHand);
    let after = g.get_last_move().expect("the record is still there");
    assert_eq!(after, before);

    // The session has really left the move-applied phase.
    let r = g.apply_resolve();
    assert_eq!(r, HandOutcome::Illegal);
    // The turn passed to the other seat.
    assert!(!g.is_ia_owner_s_turn());
}

#[test]
fn engine_rejects_a_move_from_an_empty_square() {
    let mut g = ia_first_session();
    let r = g.apply_normal_move(NormalMove::NonTamMove {
        data: NonTamMoveDotData::SrcDst {
            src: coord(AbsoluteRow::O, AbsoluteColumn::K),
            dest: coord(AbsoluteRow::Y, AbsoluteColumn::K),
            water_entry_ciurl: None,
        },
    });
    assert!(matches!(r, RetNormalMove::Illegal { .. }));
    assert!(g.get_last_move().is_none());
    // The rejection left the session unchanged: a legal move still goes
    // through afterwards.
    let r = g.apply_normal_move(opening_simple_move());
    assert!(matches!(r, RetNormalMove::WithoutWaterEntry));
}

#[test]
fn stepping_move_then_continuing_to_the_planned_destination() {
    let mut g = ia_first_session();
    let stepping = opening_stepping_move();
    let planned = stepping.coord_signifying_planned_direction;
    let ciurl = match g.apply_inf_after_step(stepping) {
        RetInfAfterStep::Legal { ciurl } => ciurl,
        RetInfAfterStep::Illegal { why_illegal } => panic!("{}", why_illegal),
    };
    // The planned square is one step from the stepped-over square, so it is
    // reachable exactly when at least one stick came up face-up.
    let r = g.apply_after_half_acceptance(Some(planned));
    if ciurl.count() >= 1 {
        assert!(matches!(r, RetAfterHalfAcceptance::WithoutWaterEntry), "{:?}", r);
        let last = g.get_last_move().expect("the settled record");
        match last.mov {
            MoveToBePolled::InfAfterStep { final_result, .. } => {
                let fr = final_result.expect("the final result is filled in");
                assert_eq!(fr.dest, planned);
                assert!(fr.water_entry_ciurl.is_none());
            }
            other => panic!("unexpected record {:?}", other),
        }
    } else {
        // Out of reach: the engine rejects the destination, and stopping
        // immediately still works.
        assert!(matches!(r, RetAfterHalfAcceptance::Illegal { .. }), "{:?}", r);
        let r2 = g.apply_after_half_acceptance(None);
        assert!(matches!(r2, RetAfterHalfAcceptance::WithoutWaterEntry));
    }
}

#[test]
fn apply_pure_move_commits_the_candidate() {
    let mut g = ia_first_session();
    g.apply_pure_move(CandidateMove::Normal(opening_simple_move()));
    let last = g.get_last_move().expect("a committed record");
    assert!(last.by_ia_owner);
    match last.mov {
        MoveToBePolled::NonTamMove {
            data: NonTamMoveDotData::SrcDst { src, dest, water_entry_ciurl },
        } => {
            assert_eq!(src, coord(AbsoluteRow::AI, AbsoluteColumn::K));
            assert_eq!(dest, coord(AbsoluteRow::Y, AbsoluteColumn::K));
            assert!(water_entry_ciurl.is_none());
        }
        other => panic!("unexpected record {:?}", other),
    }
}

#[test]
fn ledger_only_grows_across_operations() {
    let mut g = ia_first_session();
    assert!(g.get_last_move().is_none());
    let r = g.apply_normal_move(opening_simple_move());
    assert!(matches!(r, RetNormalMove::WithoutWaterEntry));
    let first = g.get_last_move().expect("one record");
    let _ = g.apply_resolve();
    assert_eq!(g.get_last_move().expect("still one record"), first);
}
