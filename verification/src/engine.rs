//! The boundary to the outside rules engine. The engine owns move legality
//! and board consequences; this module declares its state types opaquely and
//! wraps the calls the session state machine makes, stating of each call only
//! what the engine's own source shows.

use cetkaik_core::absolute;
use cetkaik_core::Color as CoreColor;
use cetkaik_core::Profession as CoreProfession;
use cetkaik_full_state_transition::message::AfterHalfAcceptance_;
use cetkaik_full_state_transition::message::InfAfterStep_;
use cetkaik_full_state_transition::message::NormalMove_;
use cetkaik_full_state_transition::message::PureMove__;
use cetkaik_full_state_transition::state;
use cetkaik_full_state_transition::Config;
use cetkaik_full_state_transition::IfTaxot_;
use cetkaik_yhuap_move_candidates::CetkaikCore;
use rand::seq::SliceRandom;
use vstd::prelude::*;

use crate::coord::AbsoluteColumn;
use crate::coord::AbsoluteCoord;
use crate::coord::AbsoluteRow;
use crate::coord::Color;
use crate::coord::Profession;
use crate::game::NonTamMoveDotData;
use crate::game::NormalMove;
use crate::game::TamMoveInternal;
use crate::message::InfAfterStepInternal;

verus! {

/// The engine's ground state (a position awaiting a move), held opaquely:
/// its generic bounds keep the type itself from being declared to the
/// verifier, so it lives in a private field instead.
#[verifier::external_body]
pub struct EngineGround {
    inner: state::GroundState_<CetkaikCore>,
}

/// The engine's excited state (a stepping trial drawn, half-acceptance
/// pending), held opaquely for the same reason.
#[verifier::external_body]
pub struct EngineExcited {
    inner: state::ExcitedState_<CetkaikCore>,
}

/// The engine's not-yet-resolved state (a move fully applied, hand
/// resolution pending), held opaquely for the same reason.
#[verifier::external_body]
pub struct EngineMoved {
    inner: state::HandNotResolved_<CetkaikCore>,
}

/// The engine's description of what an end-the-season decision leads to,
/// held opaquely for the same reason.
#[verifier::external_body]
pub struct EngineIfTaxot {
    inner: IfTaxot_<CetkaikCore>,
}

#[verifier::external_type_specification]
#[verifier::external_body]
pub struct ExConfig(Config);

#[verifier::external_type_specification]
#[verifier::external_body]
pub struct ExEngineCoord(absolute::Coord);

#[verifier::external_type_specification]
#[verifier::external_body]
pub struct ExEngineRow(absolute::Row);

#[verifier::external_type_specification]
#[verifier::external_body]
pub struct ExEngineColumn(absolute::Column);

#[verifier::external_type_specification]
#[verifier::external_body]
pub struct ExEngineColor(CoreColor);

#[verifier::external_type_specification]
#[verifier::external_body]
pub struct ExEngineProfession(CoreProfession);

#[verifier::external_type_specification]
#[verifier::external_body]
#[verifier::reject_recursive_types(T)]
pub struct ExEngineNormalMove<T>(NormalMove_<T>);

/// Converts a row of this crate into the engine's row, variant for variant.
#[verifier::external_body]
fn eng_row(r: AbsoluteRow) -> absolute::Row {
    match r {
        AbsoluteRow::A => absolute::Row::A,
        AbsoluteRow::E => absolute::Row::E,
        AbsoluteRow::I => absolute::Row::I,
        AbsoluteRow::U => absolute::Row::U,
        AbsoluteRow::O => absolute::Row::O,
        AbsoluteRow::Y => absolute::Row::Y,
        AbsoluteRow::AI => absolute::Row::AI,
        AbsoluteRow::AU => absolute::Row::AU,
        AbsoluteRow::IA => absolute::Row::IA,
    }
}

/// Converts a column of this crate into the engine's column, variant for variant.
#[verifier::external_body]
fn eng_col(c: AbsoluteColumn) -> absolute::Column {
    match c {
        AbsoluteColumn::K => absolute::Column::K,
        AbsoluteColumn::L => absolute::Column::L,
        AbsoluteColumn::N => absolute::Column::N,
        AbsoluteColumn::T => absolute::Column::T,
        AbsoluteColumn::Z => absolute::Column::Z,
        AbsoluteColumn::X => absolute::Column::X,
        AbsoluteColumn::C => absolute::Column::C,
        AbsoluteColumn::M => absolute::Column::M,
        AbsoluteColumn::P => absolute::Column::P,
    }
}

/// Converts a coordinate of this crate into the engine's coordinate.
#[verifier::external_body]
fn eng_coord(c: AbsoluteCoord) -> absolute::Coord {
    absolute::Coord(eng_row(c.0), eng_col(c.1))
}

/// Converts a color of this crate into the engine's color, variant for variant.
#[verifier::external_body]
fn eng_color(c: Color) -> CoreColor {
    match c {
        Color::Kok1 => CoreColor::Kok1,
        Color::Huok2 => CoreColor::Huok2,
    }
}

/// Converts a profession of this crate into the engine's, variant for variant.
#[verifier::external_body]
fn eng_prof(p: Profession) -> CoreProfession {
    match p {
        Profession::Nuak1 => CoreProfession::Nuak1,
        Profession::Kauk2 => CoreProfession::Kauk2,
        Profession::Gua2 => CoreProfession::Gua2,
        Profession::Kaun1 => CoreProfession::Kaun1,
        Profession::Dau2 => CoreProfession::Dau2,
        Profession::Maun1 => CoreProfession::Maun1,
        Profession::Kua2 => CoreProfession::Kua2,
        Profession::Tuk2 => CoreProfession::Tuk2,
        Profession::Uai1 => CoreProfession::Uai1,
        Profession::Io => CoreProfession::Io,
    }
}

/// Converts the engine's row into a row of this crate, variant for variant.
#[verifier::external_body]
fn own_row(r: absolute::Row) -> AbsoluteRow {
    match r {
        absolute::Row::A => AbsoluteRow::A,
        absolute::Row::E => AbsoluteRow::E,
        absolute::Row::I => AbsoluteRow::I,
        absolute::Row::U => AbsoluteRow::U,
        absolute::Row::O => AbsoluteRow::O,
        absolute::Row::Y => AbsoluteRow::Y,
        absolute::Row::AI => AbsoluteRow::AI,
        absolute::Row::AU => AbsoluteRow::AU,
        absolute::Row::IA => AbsoluteRow::IA,
    }
}

/// Converts the engine's column into a column of this crate, variant for variant.
#[verifier::external_body]
fn own_col(c: absolute::Column) -> AbsoluteColumn {
    match c {
        absolute::Column::K => AbsoluteColumn::K,
        absolute::Column::L => AbsoluteColumn::L,
        absolute::Column::N => AbsoluteColumn::N,
        absolute::Column::T => AbsoluteColumn::T,
        absolute::Column::Z => AbsoluteColumn::Z,
        absolute::Column::X => AbsoluteColumn::X,
        absolute::Column::C => AbsoluteColumn::C,
        absolute::Column::M => AbsoluteColumn::M,
        absolute::Column::P => AbsoluteColumn::P,
    }
}

/// Converts the engine's coordinate into a coordinate of this crate.
#[verifier::external_body]
fn own_coord(c: absolute::Coord) -> AbsoluteCoord {
    AbsoluteCoord(own_row(c.0), own_col(c.1))
}

/// Converts the engine's color into a color of this crate, variant for variant.
#[verifier::external_body]
fn own_color(c: CoreColor) -> Color {
    match c {
        CoreColor::Kok1 => Color::Kok1,
        CoreColor::Huok2 => Color::Huok2,
    }
}

/// Converts the engine's profession into one of this crate, variant for variant.
#[verifier::external_body]
fn own_prof(p: CoreProfession) -> Profession {
    match p {
        CoreProfession::Nuak1 => Profession::Nuak1,
        CoreProfession::Kauk2 => Profession::Kauk2,
        CoreProfession::Gua2 => Profession::Gua2,
        CoreProfession::Kaun1 => Profession::Kaun1,
        CoreProfession::Dau2 => Profession::Dau2,
        CoreProfession::Maun1 => Profession::Maun1,
        CoreProfession::Kua2 => Profession::Kua2,
        CoreProfession::Tuk2 => Profession::Tuk2,
        CoreProfession::Uai1 => Profession::Uai1,
        CoreProfession::Io => Profession::Io,
    }
}

/// Builds the engine's form of a non-special-piece move, converting each
/// coordinate, color and profession one for one.
#[verifier::external_body]
fn to_engine_nontam(d: &NonTamMoveDotData) -> NormalMove_<absolute::Coord> {
    match *d {
        NonTamMoveDotData::FromHand { color, profession, dest } =>
            NormalMove_::NonTamMoveFromHopZuo { color: eng_color(color), prof: eng_prof(profession), dest: eng_coord(dest) },
        NonTamMoveDotData::SrcDst { src, dest, .. } =>
            NormalMove_::NonTamMoveSrcDst { src: eng_coord(src), dest: eng_coord(dest) },
        NonTamMoveDotData::SrcStepDstFinite { src, step, dest, .. } =>
            NormalMove_::NonTamMoveSrcStepDstFinite { src: eng_coord(src), step: eng_coord(step), dest: eng_coord(dest) },
    }
}

/// Builds the engine's form of a special-piece move, converting each
/// coordinate one for one.
#[verifier::external_body]
fn to_engine_tam(t: &TamMoveInternal) -> NormalMove_<absolute::Coord> {
    match *t {
        TamMoveInternal::NoStep { src, first_dest, second_dest } =>
            NormalMove_::TamMoveNoStep { src: eng_coord(src), first_dest: eng_coord(first_dest), second_dest: eng_coord(second_dest) },
        TamMoveInternal::StepsDuringFormer { src, step, first_dest, second_dest } =>
            NormalMove_::TamMoveStepsDuringFormer { src: eng_coord(src), step: eng_coord(step), first_dest: eng_coord(first_dest), second_dest: eng_coord(second_dest) },
        TamMoveInternal::StepsDuringLatter { src, step, first_dest, second_dest } =>
            NormalMove_::TamMoveStepsDuringLatter { src: eng_coord(src), step: eng_coord(step), first_dest: eng_coord(first_dest), second_dest: eng_coord(second_dest) },
    }
}

/// Relies on Config::cerke_online_alpha: the rule variant this service plays.
#[verifier::external_body]
pub(crate) fn alpha_config() -> Config {
    Config::cerke_online_alpha()
}

/// Relies on initial_state and Probabilistic::choose: a fresh season-opening
/// position with a randomly chosen side to move.
#[verifier::external_body]
pub(crate) fn initial_ground_state() -> EngineGround {
    EngineGround { inner: cetkaik_full_state_transition::initial_state::<CetkaikCore>().choose().0 }
}

/// Relies on the engine's GroundState whose_turn field: whether the side
/// nearest the IA row is to move.
#[verifier::external_body]
pub(crate) fn ground_is_ia_turn(s: &EngineGround) -> bool {
    s.inner.whose_turn == absolute::Side::IASide
}

/// Relies on the engine's tam2tysak2_will_trigger_taxottymok field: whether
/// the applied move forces an immediate hand decision.
#[verifier::external_body]
pub(crate) fn moved_triggers_tymok_taxot(s: &EngineMoved) -> bool {
    s.inner.tam2tysak2_will_trigger_taxottymok
}

/// Relies on apply_normal_move and Probabilistic::choose: on success the
/// chosen next position, paired with the water-entry cast's count where the
/// engine cast one; its source casts five sticks, so a count never exceeds 5.
#[verifier::external_body]
fn eng_apply_normal_move(
    s: &EngineGround,
    m: NormalMove_<absolute::Coord>,
    cfg: Config,
) -> (r: Result<(EngineMoved, Option<u8>), String>)
    ensures
        r matches Ok(p) ==> (p.1 matches Some(c) ==> c <= 5),
{
    match cetkaik_full_state_transition::apply_normal_move::<CetkaikCore>(&s.inner, m, cfg) {
        Ok(prob) => {
            let (next, ciurl) = prob.choose();
            Ok((EngineMoved { inner: next }, ciurl.map(|c| c as u8)))
        }
        Err(e) => Err(e.to_string()),
    }
}

/// Relies on apply_inf_after_step and Probabilistic::choose: on success the
/// engine draws the stepping cast itself; the chosen position is paired with
/// that cast's count, which never exceeds 5. Every successful outcome is a
/// stick cast, so the count is always present and the fallback arm of
/// `unwrap_or` is never taken.
#[verifier::external_body]
pub(crate) fn apply_inf_after_step_engine(
    s: &EngineGround,
    m: &InfAfterStepInternal,
    cfg: Config,
) -> (r: Result<(EngineExcited, u8), String>)
    ensures
        r matches Ok(p) ==> p.1 <= 5,
{
    let msg = InfAfterStep_ {
        src: eng_coord(m.src),
        step: eng_coord(m.step),
        planned_direction: eng_coord(m.coord_signifying_planned_direction),
    };
    match cetkaik_full_state_transition::apply_inf_after_step::<CetkaikCore>(&s.inner, msg, cfg) {
        Ok(prob) => {
            let (next, ciurl) = prob.choose();
            Ok((EngineExcited { inner: next }, ciurl.unwrap_or(0) as u8))
        }
        Err(e) => Err(e.to_string()),
    }
}

/// Relies on apply_after_half_acceptance and Probabilistic::choose. Stopping
/// immediately (`dest` of None) is always among the engine's candidates and
/// never casts water-entry sticks, so it always succeeds with no cast; when a
/// cast is made its count never exceeds 5.
#[verifier::external_body]
pub(crate) fn apply_after_half_acceptance_engine(
    s: &EngineExcited,
    dest: Option<AbsoluteCoord>,
    cfg: Config,
) -> (r: Result<(EngineMoved, Option<u8>), String>)
    ensures
        r matches Ok(p) ==> (p.1 matches Some(c) ==> c <= 5),
        dest is None ==> r is Ok,
        dest is None ==> (r matches Ok(p) ==> p.1 is None),
{
    let msg = AfterHalfAcceptance_ {
        dest: match dest {
            Some(c) => Some(eng_coord(c)),
            None => None,
        },
    };
    match cetkaik_full_state_transition::apply_after_half_acceptance::<CetkaikCore>(&s.inner, msg, cfg) {
        Ok(prob) => {
            let (next, ciurl) = prob.choose();
            Ok((EngineMoved { inner: next }, ciurl.map(|c| c as u8)))
        }
        Err(e) => Err(e.to_string()),
    }
}

/// What the engine's hand resolution can decide, with the engine's follow-up
/// positions carried opaquely.
pub enum HandResolution {
    /// No hand was made: play continues from the given position.
    NoHand(EngineGround),
    /// A hand was made: the mover is owed a continue-or-restart decision.
    HandExists { if_tymok: EngineGround, if_taxot: EngineIfTaxot },
    /// The match ended outright.
    GameEnds,
}

/// Relies on resolve: classifies the position after a fully applied move,
/// variant for variant.
#[verifier::external_body]
pub(crate) fn eng_resolve(s: &EngineMoved, cfg: Config) -> HandResolution {
    match cetkaik_full_state_transition::resolve::<CetkaikCore>(&s.inner, cfg) {
        state::HandResolved_::NeitherTymokNorTaxot(next) => HandResolution::NoHand(EngineGround { inner: next }),
        state::HandResolved_::HandExists { if_tymok, if_taxot } => HandResolution::HandExists {
            if_tymok: EngineGround { inner: if_tymok },
            if_taxot: EngineIfTaxot { inner: if_taxot },
        },
        state::HandResolved_::GameEndsWithoutTymokTaxot(_) => HandResolution::GameEnds,
    }
}

/// Relies on Probabilistic::choose: picks one of the equally likely
/// season-opening positions, or reports that the restart ends the match.
#[verifier::external_body]
pub(crate) fn eng_taxot_next_season(t: EngineIfTaxot) -> Option<EngineGround> {
    match t.inner {
        IfTaxot_::NextSeason(prob) => Some(EngineGround { inner: prob.choose().0 }),
        IfTaxot_::VictoriousSide(_) => None,
    }
}

/// A legal candidate move brought back into this crate's plain move types.
pub enum CandidateMove {
    Normal(NormalMove),
    Inf(InfAfterStepInternal),
}

/// Converts one engine non-special-piece move back into this crate's form,
/// field for field; special-piece moves give None.
#[verifier::external_body]
fn own_nontam(m: &NormalMove_<absolute::Coord>) -> Option<NonTamMoveDotData> {
    match *m {
        NormalMove_::NonTamMoveFromHopZuo { color, prof, dest } =>
            Some(NonTamMoveDotData::FromHand { color: own_color(color), profession: own_prof(prof), dest: own_coord(dest) }),
        NormalMove_::NonTamMoveSrcDst { src, dest } =>
            Some(NonTamMoveDotData::SrcDst { src: own_coord(src), dest: own_coord(dest), water_entry_ciurl: None }),
        NormalMove_::NonTamMoveSrcStepDstFinite { src, step, dest } =>
            Some(NonTamMoveDotData::SrcStepDstFinite { src: own_coord(src), step: own_coord(step), dest: own_coord(dest), water_entry_ciurl: None }),
        _ => None,
    }
}

/// Converts one engine special-piece move back into this crate's form, field
/// for field; other moves give None.
#[verifier::external_body]
fn own_tam(m: &NormalMove_<absolute::Coord>) -> Option<TamMoveInternal> {
    match *m {
        NormalMove_::TamMoveNoStep { src, first_dest, second_dest } =>
            Some(TamMoveInternal::NoStep { src: own_coord(src), first_dest: own_coord(first_dest), second_dest: own_coord(second_dest) }),
        NormalMove_::TamMoveStepsDuringFormer { src, step, first_dest, second_dest } =>
            Some(TamMoveInternal::StepsDuringFormer { src: own_coord(src), step: own_coord(step), first_dest: own_coord(first_dest), second_dest: own_coord(second_dest) }),
        NormalMove_::TamMoveStepsDuringLatter { src, step, first_dest, second_dest } =>
            Some(TamMoveInternal::StepsDuringLatter { src: own_coord(src), step: own_coord(step), first_dest: own_coord(first_dest), second_dest: own_coord(second_dest) }),
        _ => None,
    }
}

/// Repackages a picked engine move as one of this crate's candidate kinds.
fn normal_candidate(m: &NormalMove_<absolute::Coord>) -> Option<CandidateMove> {
    match own_nontam(m) {
        Some(data) => Some(CandidateMove::Normal(NormalMove::NonTamMove { data })),
        None => match own_tam(m) {
            Some(flatten) => Some(CandidateMove::Normal(NormalMove::TamMove { flatten })),
            None => None,
        },
    }
}

/// Relies on GroundState::get_candidates and SliceRandom::choose: one of the
/// engine's legal board moves for the side to move, picked uniformly at
/// random, or None when that side has no legal board move.
#[verifier::external_body]
pub(crate) fn pick_candidate_engine(s: &EngineGround, cfg: Config) -> Option<CandidateMove> {
    let (_from_hand, candidates) = s.inner.get_candidates(cfg);
    match candidates.choose(&mut rand::thread_rng()) {
        None => None,
        Some(PureMove__::InfAfterStep(m)) => Some(CandidateMove::Inf(InfAfterStepInternal {
            src: own_coord(m.src),
            step: own_coord(m.step),
            coord_signifying_planned_direction: own_coord(m.planned_direction),
        })),
        Some(PureMove__::NormalMove(m)) => normal_candidate(m),
    }
}

/// The crate-facing form of the normal-move engine call: converts the
/// descriptor and applies it.
pub(crate) fn apply_normal_move_engine(
    s: &EngineGround,
    mov: &NormalMove,
    cfg: Config,
) -> (r: Result<(EngineMoved, Option<u8>), String>)
    ensures
        r matches Ok(p) ==> (p.1 matches Some(c) ==> c <= 5),
{
    let engine_move = match mov {
        NormalMove::NonTamMove { data } => to_engine_nontam(data),
        NormalMove::TamMove { flatten } => to_engine_tam(flatten),
    };
    eng_apply_normal_move(s, engine_move, cfg)
}

} // verus!
