use vstd::prelude::*;

use crate::coord::AbsoluteCoord;
use crate::engine::alpha_config;
use crate::engine::apply_after_half_acceptance_engine;
use crate::engine::apply_inf_after_step_engine;
use crate::engine::apply_normal_move_engine;
use crate::engine::eng_resolve;
use crate::engine::eng_taxot_next_season;
use crate::engine::ground_is_ia_turn;
use crate::engine::initial_ground_state;
use crate::engine::EngineExcited;
use crate::engine::EngineGround;
use crate::engine::EngineMoved;
use crate::engine::HandResolution;
use crate::message::FinalResult;
use crate::message::InfAfterStepInternal;
use crate::message::RetAfterHalfAcceptance;
use crate::message::RetInfAfterStep;
use crate::message::RetNormalMove;
use crate::message::RetTaXot;
use crate::message::RetTyMok;
use crate::game::HandCompletionStatus;
use crate::game::MovePiece;
use crate::game::NonTamMoveDotData;
use crate::game::NormalMove;
use crate::message::MoveToBePolled;
use crate::trial::Ciurl;
use crate::trial::SystemTrialSource;
use crate::trial::WhoGoesFirst;
use cetkaik_full_state_transition::Config;

verus! {

/// What resolving the hand after a move found.
#[derive(Debug, PartialEq, Eq, Clone, Copy, Structural)]
pub enum HandOutcome {
    /// The session was not in `MoveApplied`.
    Illegal,
    /// No hand was made; play advanced to the next move of the same season.
    NoHand,
    /// A hand was made; the mover owes a continue-or-restart decision.
    HandExists,
    /// The match ended outright.
    GameEnds,
}

/// The state a session is in between operations. At most one variant holds at
/// a time, and every operation names the variants it is legal from.
pub enum Phase {
    /// The rules engine is ready for the next move.
    AwaitingMove(EngineGround),
    /// A stepping move has been submitted but its stepping trial has not yet
    /// been drawn. Present operations draw the trial within the same call, so
    /// no operation currently leaves a session in this phase.
    AwaitingStepRoll(EngineGround),
    /// A stepping trial has been drawn; the mover's half-acceptance decision
    /// is awaited.
    AwaitingHalfAcceptance(EngineExcited),
    /// A move has been fully committed; hand resolution is pending.
    MoveApplied(EngineMoved),
}

/// One room's authoritative session: the engine position, the current phase,
/// the per-season move ledger, and the per-season turn-order decisions.
pub struct GameState {
    pub state: Phase,
    pub config: Config,
    /// The current season, counted from zero.
    pub season: usize,
    /// Whether the side nearest the IA row is to move (or, in `MoveApplied`,
    /// just moved); kept in step with the engine position it mirrors.
    pub ia_side_to_move: bool,
    /// One append-only ledger of committed moves per season.
    pub moves_to_be_polled: Vec<Vec<MovePiece>>,
    /// The turn-order decision of each season that has started, oriented so
    /// that `result` says whether the IA-side seat moves first.
    pub is_first_move_ia_move: Vec<Option<WhoGoesFirst>>,
}

/// The data with the water-entry trial field set to `w`.
pub open spec fn spec_with_water(data: NonTamMoveDotData, w: Option<Ciurl>) -> NonTamMoveDotData {
    match data {
        NonTamMoveDotData::FromHand { color, profession, dest } => NonTamMoveDotData::FromHand {
            color,
            profession,
            dest,
        },
        NonTamMoveDotData::SrcDst { src, dest, water_entry_ciurl } => NonTamMoveDotData::SrcDst {
            src,
            dest,
            water_entry_ciurl: w,
        },
        NonTamMoveDotData::SrcStepDstFinite {
            src,
            step,
            dest,
            water_entry_ciurl,
        } => NonTamMoveDotData::SrcStepDstFinite { src, step, dest, water_entry_ciurl: w },
    }
}

/// The ledger form of an ordinary move, with its water-entry trial.
pub open spec fn spec_polled(mov: NormalMove, w: Option<Ciurl>) -> MoveToBePolled {
    match mov {
        NormalMove::NonTamMove { data } => MoveToBePolled::NonTamMove {
            data: spec_with_water(data, w),
        },
        NormalMove::TamMove { flatten } => MoveToBePolled::TamMove { flatten },
    }
}

fn with_water(data: NonTamMoveDotData, w: Option<Ciurl>) -> (r: NonTamMoveDotData)
    ensures
        r == spec_with_water(data, w),
{
    match data {
        NonTamMoveDotData::FromHand { color, profession, dest } => NonTamMoveDotData::FromHand {
            color,
            profession,
            dest,
        },
        NonTamMoveDotData::SrcDst { src, dest, water_entry_ciurl: _ } => NonTamMoveDotData::SrcDst {
            src,
            dest,
            water_entry_ciurl: w,
        },
        NonTamMoveDotData::SrcStepDstFinite { src, step, dest, water_entry_ciurl: _ } => NonTamMoveDotData::SrcStepDstFinite {
            src,
            step,
            dest,
            water_entry_ciurl: w,
        },
    }
}

fn polled_of(mov: &NormalMove, w: Option<Ciurl>) -> (r: MoveToBePolled)
    ensures
        r == spec_polled(*mov, w),
{
    match mov {
        NormalMove::NonTamMove { data } => MoveToBePolled::NonTamMove {
            data: with_water(*data, w),
        },
        NormalMove::TamMove { flatten } => MoveToBePolled::TamMove { flatten: *flatten },
    }
}

fn vec_index_mut(v: &mut Vec<Vec<MovePiece>>, i: usize) -> (element: &mut Vec<MovePiece>)
    requires
        i < old(v)@.len(),
    ensures
        *element == old(v)@[i as int],
        final(v)@ == old(v)@.update(i as int, *final(element)),
{
    &mut v[i]
}

/// Appends one record to ledger `i`, leaving every other ledger unchanged.
fn push_record(v: &mut Vec<Vec<MovePiece>>, i: usize, rec: MovePiece)
    requires
        i < old(v)@.len(),
    ensures
        final(v)@.len() == old(v)@.len(),
        final(v)@[i as int]@ == old(v)@[i as int]@.push(rec),
        forall|j: int| 0 <= j < old(v)@.len() && j != i ==> final(v)@[j] == old(v)@[j],
{
    let led = vec_index_mut(v, i);
    led.push(rec);
}

/// Replaces the last record of ledger `i`, leaving every other record and
/// every other ledger unchanged.
fn set_last_record(v: &mut Vec<Vec<MovePiece>>, i: usize, rec: MovePiece)
    requires
        i < old(v)@.len(),
        old(v)@[i as int]@.len() > 0,
    ensures
        final(v)@.len() == old(v)@.len(),
        final(v)@[i as int]@ == old(v)@[i as int]@.update(old(v)@[i as int]@.len() - 1, rec),
        forall|j: int| 0 <= j < old(v)@.len() && j != i ==> final(v)@[j] == old(v)@[j],
{
    let led = vec_index_mut(v, i);
    let n = led.len();
    led.set(n - 1, rec);
}

/// The thwart marker of a water-entry trial: the trial itself when it failed
/// (fewer than three face-up sticks), nothing otherwise.
pub open spec fn spec_thwart(w: Option<Ciurl>) -> Option<Ciurl> {
    match w {
        Some(c) => if c.spec_count() < 3 {
            Some(c)
        } else {
            None
        },
        None => None,
    }
}

/// The pending stepping record with its deferred final result filled in:
/// destination `d` and water-entry trial `w`, thwarted when that trial
/// failed. Everything else about the record is kept.
pub open spec fn filled_record(pending: MovePiece, d: AbsoluteCoord, w: Option<Ciurl>) -> MovePiece {
    MovePiece {
        mov: match pending.mov {
            MoveToBePolled::InfAfterStep {
                src,
                step,
                coord_signifying_planned_direction,
                stepping_ciurl,
                final_result,
            } => MoveToBePolled::InfAfterStep {
                src,
                step,
                coord_signifying_planned_direction,
                stepping_ciurl,
                final_result: Some(
                    FinalResult {
                        dest: d,
                        water_entry_ciurl: w,
                        thwarted_by_failing_water_entry_ciurl: spec_thwart(w),
                    },
                ),
            },
            _ => pending.mov,
        },
        status: pending.status,
        by_ia_owner: pending.by_ia_owner,
    }
}

/// Says that `b` is `a` with its deferred fields possibly filled: the move is
/// the same except that a pending stepping move's final result may now be
/// present, and the hand-completion status may have been set.
pub open spec fn same_move_modulo_fill(a: MovePiece, b: MovePiece) -> bool {
    &&& b.by_ia_owner == a.by_ia_owner
    &&& (b.mov == a.mov || stepping_move_filled(a.mov, b.mov))
}

/// Says that `b` is the stepping move `a` with its final result filled in.
pub open spec fn stepping_move_filled(a: MoveToBePolled, b: MoveToBePolled) -> bool {
    &&& a matches MoveToBePolled::InfAfterStep { final_result: None, .. }
    &&& b matches MoveToBePolled::InfAfterStep { final_result: Some(_), .. }
    &&& (a matches MoveToBePolled::InfAfterStep { src: sa, step: pa, coord_signifying_planned_direction: da, stepping_ciurl: ca, .. }
        && b matches MoveToBePolled::InfAfterStep { src: sb, step: pb, coord_signifying_planned_direction: db, stepping_ciurl: cb, .. }
        ==> sa == sb && pa == pb && da == db && ca == cb)
}

/// The ledger append-only law: every record committed before the operation is
/// still there afterwards, unchanged except that the most recent record of
/// the current season may have had a deferred field filled in.
pub open spec fn ledger_append_only(pre: GameState, post: GameState) -> bool {
    &&& post.moves_to_be_polled@.len() == pre.moves_to_be_polled@.len()
    &&& forall|s: int|
        0 <= s < pre.moves_to_be_polled@.len() ==> pre.ledger(s).len() <= #[trigger] post.ledger(
            s,
        ).len()
    &&& forall|s: int, j: int|
        0 <= s < pre.moves_to_be_polled@.len() && 0 <= j < pre.ledger(s).len() ==> (#[trigger] post.ledger(s)[j] == pre.ledger(s)[j] || (s
            == pre.season && j == pre.ledger(s).len() - 1 && same_move_modulo_fill(
            pre.ledger(s)[j],
            post.ledger(s)[j],
        )))
}

/// The append-only law composes: two successive operations that each respect
/// it, the first leaving the season unchanged, respect it jointly.
pub proof fn lemma_ledger_append_only_trans(a: GameState, b: GameState, c: GameState)
    requires
        ledger_append_only(a, b),
        ledger_append_only(b, c),
        b.season == a.season,
    ensures
        ledger_append_only(a, c),
{
    assert forall|s: int|
        0 <= s < a.moves_to_be_polled@.len() implies a.ledger(s).len() <= #[trigger] c.ledger(
        s,
    ).len() by {
        assert(a.ledger(s).len() <= b.ledger(s).len());
        assert(b.ledger(s).len() <= c.ledger(s).len());
    }
    assert forall|s: int, j: int|
        0 <= s < a.moves_to_be_polled@.len() && 0 <= j < a.ledger(s).len() implies (#[trigger] c.ledger(
        s,
    )[j] == a.ledger(s)[j] || (s == a.season && j == a.ledger(s).len() - 1
        && same_move_modulo_fill(a.ledger(s)[j], c.ledger(s)[j]))) by {
        assert(b.ledger(s)[j] == a.ledger(s)[j] || (s == a.season && j == a.ledger(s).len() - 1
            && same_move_modulo_fill(a.ledger(s)[j], b.ledger(s)[j])));
        assert(a.ledger(s).len() <= b.ledger(s).len());
        assert(c.ledger(s)[j] == b.ledger(s)[j] || (s == b.season && j == b.ledger(s).len() - 1
            && same_move_modulo_fill(b.ledger(s)[j], c.ledger(s)[j])));
    }
}

impl GameState {
    /// The ledger of season `s`, as a sequence of records.
    pub open spec fn ledger(self, s: int) -> Seq<MovePiece> {
        self.moves_to_be_polled@[s]@
    }

    /// The current season's ledger.
    pub open spec fn cur(self) -> Seq<MovePiece> {
        self.ledger(self.season as int)
    }

    /// The session invariant: four ledgers and four turn-order slots, the
    /// season in range, a turn-order decision present and well formed for
    /// every season that has started, a pending stepping record while a
    /// half-acceptance decision is awaited, and a nonempty current ledger
    /// while hand resolution is pending.
    pub open spec fn wf(self) -> bool {
        &&& self.moves_to_be_polled@.len() == 4
        &&& self.is_first_move_ia_move@.len() == 4
        &&& self.season < 4
        &&& forall|i: int| 0 <= i <= self.season ==> self.is_first_move_ia_move@[i] is Some
        &&& forall|i: int|
            0 <= i < 4 ==> (#[trigger] self.is_first_move_ia_move@[i] matches Some(w) ==> w.wf())
        &&& (self.state is AwaitingHalfAcceptance ==> {
            &&& self.cur().len() > 0
            &&& self.cur().last().mov matches MoveToBePolled::InfAfterStep {
                final_result: None,
                ..
            }
            &&& self.cur().last().status == Some(HandCompletionStatus::NotYetDetermined)
        })
        &&& (self.state is MoveApplied ==> self.cur().len() > 0)
    }

    /// Everything but the phase, the turn marker and the current season's
    /// ledger is unchanged.
    pub open spec fn frame_except_current_ledger(pre: GameState, post: GameState) -> bool {
        &&& post.season == pre.season
        &&& post.config == pre.config
        &&& post.is_first_move_ia_move == pre.is_first_move_ia_move
        &&& post.moves_to_be_polled@.len() == pre.moves_to_be_polled@.len()
        &&& forall|j: int|
            0 <= j < pre.moves_to_be_polled@.len() && j != pre.season ==> #[trigger] post.moves_to_be_polled@[j] == pre.moves_to_be_polled@[j]
    }

    /// Opens a fresh session: a season-opening engine position, season zero,
    /// empty ledgers, and the opening turn-order decision, oriented so that
    /// its verdict says whether the IA-side seat moves first.
    pub fn new() -> (g: GameState)
        ensures
            g.wf(),
            g.state is AwaitingMove,
            g.season == 0,
            forall|i: int| 0 <= i < 4 ==> #[trigger] g.ledger(i).len() == 0,
            g.is_first_move_ia_move@[0] matches Some(w) && w.result == g.ia_side_to_move,
    {
        let ground = initial_ground_state();
        let ia = ground_is_ia_turn(&ground);
        let mut source = SystemTrialSource;
        let mut w = WhoGoesFirst::new(&mut source);
        if w.result != ia {
            w = w.not();
        }
        let mut firsts: Vec<Option<WhoGoesFirst>> = Vec::new();
        firsts.push(Some(w));
        firsts.push(None);
        firsts.push(None);
        firsts.push(None);
        let mut moves: Vec<Vec<MovePiece>> = Vec::new();
        moves.push(Vec::new());
        moves.push(Vec::new());
        moves.push(Vec::new());
        moves.push(Vec::new());
        GameState {
            state: Phase::AwaitingMove(ground),
            config: alpha_config(),
            season: 0,
            ia_side_to_move: ia,
            moves_to_be_polled: moves,
            is_first_move_ia_move: firsts,
        }
    }

    /// Whether the side nearest the IA row is to move.
    pub fn is_ia_owner_s_turn(&self) -> (r: bool)
        ensures
            r == self.ia_side_to_move,
    {
        self.ia_side_to_move
    }

    /// The current season, counted from zero.
    pub fn get_season(&self) -> (s: usize)
        ensures
            s == self.season,
    {
        self.season
    }

    /// The most recent record of the current season, if any.
    pub fn get_last_move(&self) -> (r: Option<MovePiece>)
        requires
            self.wf(),
        ensures
            r == (if self.cur().len() > 0 {
                Some(self.cur().last())
            } else {
                None::<MovePiece>
            }),
    {
        let led = &self.moves_to_be_polled[self.season];
        if led.len() > 0 {
            Some(led[led.len() - 1])
        } else {
            None
        }
    }

    /// Appends one record to the current season's ledger.
    pub fn commit_last_move(&mut self, move_piece: MovePiece)
        requires
            old(self).wf(),
        ensures
            final(self).cur() == old(self).cur().push(move_piece),
            GameState::frame_except_current_ledger(*old(self), *final(self)),
            final(self).state == old(self).state,
            final(self).ia_side_to_move == old(self).ia_side_to_move,
            ledger_append_only(*old(self), *final(self)),
            !(old(self).state is AwaitingHalfAcceptance) ==> final(self).wf(),
    {
        let season = self.season;
        push_record(&mut self.moves_to_be_polled, season, move_piece);
    }

    /// Draws a fresh turn-order decision for the given season and stores it,
    /// oriented so that its verdict equals `is_ia`.
    pub fn set_first_mover(&mut self, season: usize, is_ia: bool)
        requires
            old(self).wf(),
            season < 4,
        ensures
            final(self).wf(),
            final(self).is_first_move_ia_move@[season as int] matches Some(w) && w.wf()
                && w.result == is_ia,
            forall|j: int|
                0 <= j < 4 && j != season ==> final(self).is_first_move_ia_move@[j] == old(
                    self,
                ).is_first_move_ia_move@[j],
            final(self).state == old(self).state,
            final(self).season == old(self).season,
            final(self).config == old(self).config,
            final(self).ia_side_to_move == old(self).ia_side_to_move,
            final(self).moves_to_be_polled == old(self).moves_to_be_polled,
    {
        let mut source = SystemTrialSource;
        let mut w = WhoGoesFirst::new(&mut source);
        if w.result != is_ia {
            w = w.not();
        }
        self.is_first_move_ia_move.set(season, Some(w));
    }

    /// Applies an ordinary move. Legal only from `AwaitingMove`; the rules
    /// engine judges the move itself. On success exactly one record is
    /// appended to the current season's ledger and the session moves to
    /// `MoveApplied`; a rejection of any kind leaves the session unchanged.
    pub fn apply_normal_move(&mut self, mov: NormalMove) -> (r: RetNormalMove)
        requires
            old(self).wf(),
        ensures
            final(self).wf(),
            ledger_append_only(*old(self), *final(self)),
            r is Illegal ==> *final(self) == *old(self),
            !(old(self).state is AwaitingMove) ==> r is Illegal,
            !(r is Illegal) ==> {
                &&& final(self).state is MoveApplied
                &&& GameState::frame_except_current_ledger(*old(self), *final(self))
                &&& final(self).ia_side_to_move == old(self).ia_side_to_move
            },
            r matches RetNormalMove::WithWaterEntry { ciurl } ==> ciurl.spec_count() <= 5
                && final(self).cur() == old(self).cur().push(
                MovePiece {
                    mov: spec_polled(mov, Some(ciurl)),
                    status: None,
                    by_ia_owner: old(self).ia_side_to_move,
                },
            ),
            r is WithoutWaterEntry ==> final(self).cur() == old(self).cur().push(
                MovePiece {
                    mov: spec_polled(mov, None),
                    status: None,
                    by_ia_owner: old(self).ia_side_to_move,
                },
            ),
    {
        match &self.state {
            Phase::AwaitingMove(ground) => {
                match apply_normal_move_engine(ground, &mov, self.config) {
                    Ok((next, ciurl_count)) => {
                        let by_ia = self.ia_side_to_move;
                        let w = match ciurl_count {
                            Some(cnt) => Some(Ciurl::from_count(cnt as usize)),
                            None => None,
                        };
                        let rec = MovePiece {
                            mov: polled_of(&mov, w),
                            status: None,
                            by_ia_owner: by_ia,
                        };
                        let season = self.season;
                        push_record(&mut self.moves_to_be_polled, season, rec);
                        self.state = Phase::MoveApplied(next);
                        match w {
                            Some(ciurl) => RetNormalMove::WithWaterEntry { ciurl },
                            None => RetNormalMove::WithoutWaterEntry,
                        }
                    },
                    Err(e) => RetNormalMove::Illegal { why_illegal: e },
                }
            },
            _ => RetNormalMove::Illegal { why_illegal: "Invalid State".to_owned() },
        }
    }

    /// Begins a stepping move. Legal only from `AwaitingMove`; the rules
    /// engine judges the move and draws the stepping trial. On success a
    /// provisional record with an undetermined completion status and no final
    /// result yet is appended and the session awaits the mover's
    /// half-acceptance decision; a rejection leaves the session unchanged.
    pub fn apply_inf_after_step(&mut self, mov: InfAfterStepInternal) -> (r: RetInfAfterStep)
        requires
            old(self).wf(),
        ensures
            final(self).wf(),
            ledger_append_only(*old(self), *final(self)),
            r is Illegal ==> *final(self) == *old(self),
            !(old(self).state is AwaitingMove) ==> r is Illegal,
            r matches RetInfAfterStep::Legal { ciurl } ==> {
                &&& final(self).state is AwaitingHalfAcceptance
                &&& GameState::frame_except_current_ledger(*old(self), *final(self))
                &&& final(self).ia_side_to_move == old(self).ia_side_to_move
                &&& ciurl.spec_count() <= 5
                &&& final(self).cur() == old(self).cur().push(
                    MovePiece {
                        mov: MoveToBePolled::InfAfterStep {
                            src: mov.src,
                            step: mov.step,
                            coord_signifying_planned_direction: mov.coord_signifying_planned_direction,
                            stepping_ciurl: ciurl,
                            final_result: None,
                        },
                        status: Some(HandCompletionStatus::NotYetDetermined),
                        by_ia_owner: old(self).ia_side_to_move,
                    },
                )
            },
    {
        match &self.state {
            Phase::AwaitingMove(ground) => {
                match apply_inf_after_step_engine(ground, &mov, self.config) {
                    Ok((next, cnt)) => {
                        let by_ia = self.ia_side_to_move;
                        let ciurl = Ciurl::from_count(cnt as usize);
                        let rec = MovePiece {
                            mov: MoveToBePolled::InfAfterStep {
                                src: mov.src,
                                step: mov.step,
                                coord_signifying_planned_direction: mov.coord_signifying_planned_direction,
                                stepping_ciurl: ciurl,
                                final_result: None,
                            },
                            status: Some(HandCompletionStatus::NotYetDetermined),
                            by_ia_owner: by_ia,
                        };
                        let season = self.season;
                        push_record(&mut self.moves_to_be_polled, season, rec);
                        self.state = Phase::AwaitingHalfAcceptance(next);
                        RetInfAfterStep::Legal { ciurl }
                    },
                    Err(e) => RetInfAfterStep::Illegal { why_illegal: e },
                }
            },
            _ => RetInfAfterStep::Illegal { why_illegal: "Invalid State".to_owned() },
        }
    }

    /// Settles a stepping move. Legal only from `AwaitingHalfAcceptance`.
    /// The mover either stops immediately (`None`, which always succeeds, at
    /// the square the piece started from) or names a destination, which the
    /// rules engine judges and which may require a water-entry trial; a
    /// water-entry count below three thwarts the move. On success the pending
    /// record's deferred final result is filled in and the session moves to
    /// `MoveApplied`; a rejection leaves the session unchanged.
    pub fn apply_after_half_acceptance(&mut self, dest: Option<AbsoluteCoord>) -> (r:
        RetAfterHalfAcceptance)
        requires
            old(self).wf(),
        ensures
            final(self).wf(),
            ledger_append_only(*old(self), *final(self)),
            r is Illegal ==> *final(self) == *old(self),
            !(old(self).state is AwaitingHalfAcceptance) ==> r is Illegal,
            old(self).state is AwaitingHalfAcceptance && dest is None ==> r is WithoutWaterEntry,
            !(r is Illegal) ==> {
                &&& final(self).state is MoveApplied
                &&& GameState::frame_except_current_ledger(*old(self), *final(self))
                &&& final(self).ia_side_to_move == old(self).ia_side_to_move
                &&& ({
                    let pending = old(self).cur().last();
                    let d = match dest {
                        Some(d0) => d0,
                        None => pending.mov->InfAfterStep_src,
                    };
                    let w = match r {
                        RetAfterHalfAcceptance::WithWaterEntry { ciurl } => Some(ciurl),
                        _ => None,
                    };
                    final(self).cur() == old(self).cur().update(
                        old(self).cur().len() - 1,
                        filled_record(pending, d, w),
                    )
                })
            },
            r matches RetAfterHalfAcceptance::WithWaterEntry { ciurl } ==> ciurl.spec_count() <= 5
                && dest is Some,
    {
        match &self.state {
            Phase::AwaitingHalfAcceptance(excited) => {
                match apply_after_half_acceptance_engine(excited, dest, self.config) {
                    Ok((next, wcount)) => {
                        let led = &self.moves_to_be_polled[self.season];
                        let pending = led[led.len() - 1];
                        let w = match wcount {
                            Some(c) => Some(Ciurl::from_count(c as usize)),
                            None => None,
                        };
                        let rec = match pending.mov {
                            MoveToBePolled::InfAfterStep {
                                src,
                                step,
                                coord_signifying_planned_direction,
                                stepping_ciurl,
                                final_result: _,
                            } => {
                                let d = match dest {
                                    Some(d0) => d0,
                                    None => src,
                                };
                                let th = match w {
                                    Some(c) => if c.count() < 3 {
                                        Some(c)
                                    } else {
                                        None
                                    },
                                    None => None,
                                };
                                MovePiece {
                                    mov: MoveToBePolled::InfAfterStep {
                                        src,
                                        step,
                                        coord_signifying_planned_direction,
                                        stepping_ciurl,
                                        final_result: Some(
                                            FinalResult {
                                                dest: d,
                                                water_entry_ciurl: w,
                                                thwarted_by_failing_water_entry_ciurl: th,
                                            },
                                        ),
                                    },
                                    status: pending.status,
                                    by_ia_owner: pending.by_ia_owner,
                                }
                            },
                            _ => unreached(),
                        };
                        let season = self.season;
                        set_last_record(&mut self.moves_to_be_polled, season, rec);
                        self.state = Phase::MoveApplied(next);
                        match w {
                            Some(ciurl) => RetAfterHalfAcceptance::WithWaterEntry { ciurl },
                            None => RetAfterHalfAcceptance::WithoutWaterEntry,
                        }
                    },
                    Err(e) => RetAfterHalfAcceptance::Illegal { why_illegal: e },
                }
            },
            _ => RetAfterHalfAcceptance::Illegal { why_illegal: "Invalid State".to_owned() },
        }
    }

    /// Resolves the hand after a fully applied move. Legal only from
    /// `MoveApplied`. Either no decision is owed and play advances to
    /// `AwaitingMove` in the same season with the ledger untouched; or a hand
    /// exists, the triggering record's completion status is marked
    /// undetermined and the session stays in `MoveApplied` until the mover
    /// decides; or the match has ended outright and nothing changes.
    pub fn apply_resolve(&mut self) -> (r: HandOutcome)
        requires
            old(self).wf(),
        ensures
            final(self).wf(),
            ledger_append_only(*old(self), *final(self)),
            r is Illegal <==> !(old(self).state is MoveApplied),
            r is Illegal ==> *final(self) == *old(self),
            r is GameEnds ==> *final(self) == *old(self),
            r is NoHand ==> {
                &&& final(self).state is AwaitingMove
                &&& final(self).season == old(self).season
                &&& final(self).config == old(self).config
                &&& final(self).moves_to_be_polled == old(self).moves_to_be_polled
                &&& final(self).is_first_move_ia_move == old(self).is_first_move_ia_move
            },
            r is HandExists ==> {
                &&& final(self).state == old(self).state
                &&& GameState::frame_except_current_ledger(*old(self), *final(self))
                &&& final(self).ia_side_to_move == old(self).ia_side_to_move
                &&& final(self).cur() == old(self).cur().update(
                    old(self).cur().len() - 1,
                    MovePiece {
                        status: Some(HandCompletionStatus::NotYetDetermined),
                        ..old(self).cur().last()
                    },
                )
            },
    {
        match &self.state {
            Phase::MoveApplied(moved) => {
                match eng_resolve(moved, self.config) {
                    HandResolution::NoHand(g) => {
                        let ia = ground_is_ia_turn(&g);
                        self.state = Phase::AwaitingMove(g);
                        self.ia_side_to_move = ia;
                        HandOutcome::NoHand
                    },
                    HandResolution::HandExists { if_tymok: _, if_taxot: _ } => {
                        let led = &self.moves_to_be_polled[self.season];
                        let pending = led[led.len() - 1];
                        let rec = MovePiece {
                            status: Some(HandCompletionStatus::NotYetDetermined),
                            ..pending
                        };
                        let season = self.season;
                        set_last_record(&mut self.moves_to_be_polled, season, rec);
                        HandOutcome::HandExists
                    },
                    HandResolution::GameEnds => HandOutcome::GameEnds,
                }
            },
            _ => HandOutcome::Illegal,
        }
    }

    /// Commits the "continue this season" alternative of a pending hand
    /// decision. Legal only from `MoveApplied` and only while the engine
    /// reports that a hand exists; then the triggering record is marked
    /// continued and play advances to `AwaitingMove` in the same season.
    /// Every rejection leaves the session unchanged.
    pub fn apply_tymok(&mut self) -> (r: RetTyMok)
        requires
            old(self).wf(),
        ensures
            final(self).wf(),
            ledger_append_only(*old(self), *final(self)),
            r is Illegal ==> *final(self) == *old(self),
            !(old(self).state is MoveApplied) ==> r is Illegal,
            r is Legal ==> {
                &&& final(self).state is AwaitingMove
                &&& GameState::frame_except_current_ledger(*old(self), *final(self))
                &&& final(self).cur() == old(self).cur().update(
                    old(self).cur().len() - 1,
                    MovePiece { status: Some(HandCompletionStatus::TyMok), ..old(self).cur().last() },
                )
            },
    {
        match &self.state {
            Phase::MoveApplied(moved) => {
                match eng_resolve(moved, self.config) {
                    HandResolution::HandExists { if_tymok, if_taxot: _ } => {
                        let ia = ground_is_ia_turn(&if_tymok);
                        let led = &self.moves_to_be_polled[self.season];
                        let pending = led[led.len() - 1];
                        let rec = MovePiece {
                            status: Some(HandCompletionStatus::TyMok),
                            ..pending
                        };
                        let season = self.season;
                        set_last_record(&mut self.moves_to_be_polled, season, rec);
                        self.state = Phase::AwaitingMove(if_tymok);
                        self.ia_side_to_move = ia;
                        RetTyMok::Legal
                    },
                    _ => RetTyMok::Illegal,
                }
            },
            _ => RetTyMok::Illegal,
        }
    }

    /// Commits the "end this season" alternative of a pending hand decision.
    /// Legal only from `MoveApplied` and only while the engine reports that a
    /// hand exists. If restarting would end the match, the end is reported
    /// and nothing changes; otherwise the triggering record is marked ended,
    /// the next season opens on one of the engine's equally likely starting
    /// layouts, and a fresh turn-order decision is drawn for it, oriented so
    /// that its verdict says whether the IA-side seat moves first.
    pub fn apply_taxot(&mut self) -> (r: RetTaXot)
        requires
            old(self).wf(),
        ensures
            final(self).wf(),
            ledger_append_only(*old(self), *final(self)),
            r is Illegal ==> *final(self) == *old(self),
            !(old(self).state is MoveApplied) ==> r is Illegal,
            r matches RetTaXot::Legal { is_first_move_my_move: None } ==> *final(self) == *old(
                self,
            ),
            r matches RetTaXot::Legal { is_first_move_my_move: Some(w) } ==> {
                &&& final(self).state is AwaitingMove
                &&& final(self).season == (if old(self).season < 3 {
                    old(self).season + 1
                } else {
                    3
                })
                &&& final(self).config == old(self).config
                &&& w.wf()
                &&& w.result == final(self).ia_side_to_move
                &&& (final(self).is_first_move_ia_move@[final(self).season as int] matches Some(sw)
                    && sw.result == w.result && sw.process@ == w.process@)
                &&& final(self).ledger(old(self).season as int) == old(self).cur().update(
                    old(self).cur().len() - 1,
                    MovePiece { status: Some(HandCompletionStatus::TaXot), ..old(self).cur().last() },
                )
                &&& forall|j: int|
                    0 <= j < 4 && j != old(self).season ==> #[trigger] final(self).ledger(j) == old(
                        self,
                    ).ledger(j)
            },
    {
        match &self.state {
            Phase::MoveApplied(moved) => {
                match eng_resolve(moved, self.config) {
                    HandResolution::HandExists { if_tymok: _, if_taxot } => {
                        match eng_taxot_next_season(if_taxot) {
                            None => RetTaXot::Legal { is_first_move_my_move: None },
                            Some(g) => {
                                let ia = ground_is_ia_turn(&g);
                                let led = &self.moves_to_be_polled[self.season];
                                let pending = led[led.len() - 1];
                                let rec = MovePiece {
                                    status: Some(HandCompletionStatus::TaXot),
                                    ..pending
                                };
                                let season = self.season;
                                set_last_record(&mut self.moves_to_be_polled, season, rec);
                                let new_season = if season < 3 {
                                    season + 1
                                } else {
                                    3
                                };
                                self.season = new_season;
                                self.state = Phase::AwaitingMove(g);
                                self.ia_side_to_move = ia;
                                let mut source = SystemTrialSource;
                                let mut w = WhoGoesFirst::new(&mut source);
                                if w.result != ia {
                                    w = w.not();
                                }
                                let ret = w.duplicate();
                                self.is_first_move_ia_move.set(new_season, Some(w));
                                RetTaXot::Legal { is_first_move_my_move: Some(ret) }
                            },
                        }
                    },
                    _ => RetTaXot::Illegal,
                }
            },
            _ => RetTaXot::Illegal,
        }
    }

    /// Applies a candidate move of either kind, discarding the detailed
    /// reply: either the move was rejected and the session is unchanged, or
    /// exactly the submitted move was committed. A stepping move is left
    /// awaiting its half-acceptance decision.
    pub fn apply_pure_move(&mut self, mov: crate::engine::CandidateMove)
        requires
            old(self).wf(),
        ensures
            final(self).wf(),
            ledger_append_only(*old(self), *final(self)),
            final(self).season == old(self).season,
            mov matches crate::engine::CandidateMove::Normal(m) ==> *final(self) == *old(self)
                || (final(self).state is MoveApplied && GameState::frame_except_current_ledger(
                *old(self),
                *final(self),
            ) && final(self).ia_side_to_move == old(self).ia_side_to_move && exists|
                w: Option<Ciurl>,
            |
                #![auto]
                final(self).cur() == old(self).cur().push(
                    MovePiece {
                        mov: spec_polled(m, w),
                        status: None,
                        by_ia_owner: old(self).ia_side_to_move,
                    },
                )),
            mov matches crate::engine::CandidateMove::Inf(m) ==> *final(self) == *old(self) || (
            final(self).state is AwaitingHalfAcceptance && GameState::frame_except_current_ledger(
                *old(self),
                *final(self),
            ) && final(self).ia_side_to_move == old(self).ia_side_to_move && exists|c: Ciurl|
                #![auto]
                c.spec_count() <= 5 && final(self).cur() == old(self).cur().push(
                    MovePiece {
                        mov: MoveToBePolled::InfAfterStep {
                            src: m.src,
                            step: m.step,
                            coord_signifying_planned_direction: m.coord_signifying_planned_direction,
                            stepping_ciurl: c,
                            final_result: None,
                        },
                        status: Some(HandCompletionStatus::NotYetDetermined),
                        by_ia_owner: old(self).ia_side_to_move,
                    },
                )),
    {
        match mov {
            crate::engine::CandidateMove::Inf(m) => {
                let _r = self.apply_inf_after_step(m);
            },
            crate::engine::CandidateMove::Normal(m) => {
                let _r = self.apply_normal_move(m);
            },
        }
    }

    /// The stored turn-order decision of the given season, reread from the
    /// asking credential's perspective: as stored for the IA-side seat, and
    /// negated for the other seat.
    pub fn is_first_move_my_move(&self, is_ia_down_for_me: bool, season: usize) -> (w:
        WhoGoesFirst)
        requires
            self.wf(),
            season <= self.season,
        ensures
            w.wf(),
            ({
                let stored = self.is_first_move_ia_move@[season as int]->0;
                if is_ia_down_for_me {
                    w.result == stored.result && w.process@ == stored.process@
                } else {
                    crate::trial::is_negation(stored, w)
                }
            }),
    {
        match &self.is_first_move_ia_move[season] {
            Some(stored) => {
                if is_ia_down_for_me {
                    stored.duplicate()
                } else {
                    stored.not()
                }
            },
            None => unreached(),
        }
    }
}

} // verus!
