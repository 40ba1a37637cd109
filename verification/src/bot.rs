use vstd::prelude::*;

use crate::coord::distance;
use crate::coord::spec_distance;
use crate::coord::AbsoluteCoord;
use crate::engine::pick_candidate_engine;
use crate::engine::CandidateMove;
use crate::engine::EngineGround;
use crate::game::NormalMove;
use crate::message::InfAfterStepInternal;
use cetkaik_full_state_transition::Config;

verus! {

/// The label a bot attaches to its chosen move, describing the tactical
/// situation it believes it is in.
#[derive(Debug, PartialEq, Eq, Clone, Copy, Structural)]
pub enum TacticsKey {
    VictoryAlmostCertain,
    StrengthenedShaman,
    FreeLunch,
    AvoidDefeat,
    LossAlmostCertain,
    Neutral,
}

/// A move the bot has chosen. For the stepping kind the half-acceptance
/// choice is precomputed for every possible stepping-trial count, so the bot
/// can react the moment the trial is drawn.
pub enum BotMove {
    NormalMove(NormalMove),
    InfAfterStep { dat: InfAfterStepInternal, after: Vec<Option<AbsoluteCoord>> },
}

/// A chosen move together with its tactics label.
pub struct BotMoveWithTactics {
    pub tactics: TacticsKey,
    pub bot_move: BotMove,
}

/// The half-acceptance decision table of a stepping move: with a trial count
/// of `c` the bot continues to the planned direction exactly when that
/// square is within reach (`c` at least the distance from the stepped-over
/// square), and stops otherwise.
pub open spec fn decision_table_ok(dat: InfAfterStepInternal, after: Seq<Option<AbsoluteCoord>>) -> bool {
    &&& after.len() == 6
    &&& forall|c: int|
        0 <= c < 6 ==> #[trigger] after[c] == (if spec_distance(
            dat.step,
            dat.coord_signifying_planned_direction,
        ) <= c {
            Some(dat.coord_signifying_planned_direction)
        } else {
            None::<AbsoluteCoord>
        })
}

impl BotMove {
    /// Packages a picked candidate as a bot move: an ordinary candidate is
    /// carried over unchanged, and a stepping candidate gets its
    /// half-acceptance decision table precomputed for every possible
    /// stepping-trial count.
    pub fn from_candidate(candidate: CandidateMove) -> (r: BotMove)
        ensures
            candidate matches CandidateMove::Normal(m) ==> r == BotMove::NormalMove(m),
            candidate matches CandidateMove::Inf(d) ==> (r matches BotMove::InfAfterStep {
                dat,
                after,
            } && dat == d && decision_table_ok(dat, after@)),
    {
        match candidate {
            CandidateMove::Normal(m) => BotMove::NormalMove(m),
            CandidateMove::Inf(dat) => {
                let d = distance(dat.step, dat.coord_signifying_planned_direction);
                let mut after: Vec<Option<AbsoluteCoord>> = Vec::new();
                let mut c: usize = 0;
                while c < 6
                    invariant
                        c <= 6,
                        after@.len() == c,
                        d == spec_distance(dat.step, dat.coord_signifying_planned_direction),
                        forall|k: int|
                            0 <= k < c ==> #[trigger] after@[k] == (if spec_distance(
                                dat.step,
                                dat.coord_signifying_planned_direction,
                            ) <= k {
                                Some(dat.coord_signifying_planned_direction)
                            } else {
                                None::<AbsoluteCoord>
                            }),
                    decreases 6 - c,
                {
                    if d <= c {
                        after.push(Some(dat.coord_signifying_planned_direction));
                    } else {
                        after.push(None);
                    }
                    c = c + 1;
                }
                BotMove::InfAfterStep { dat, after }
            },
        }
    }
}

/// Picks one of the engine's legal board moves uniformly at random and tags
/// it with a neutral tactics label. For a stepping move the half-acceptance
/// decision table is precomputed. Returns nothing when the side to move has
/// no legal board move.
pub fn bot_random(ground: &EngineGround, config: Config) -> (r: Option<BotMoveWithTactics>)
    ensures
        r matches Some(b) ==> b.tactics == TacticsKey::Neutral,
        r matches Some(b) ==> (b.bot_move matches BotMove::InfAfterStep { dat, after }
            ==> decision_table_ok(dat, after@)),
{
    match pick_candidate_engine(ground, config) {
        None => None,
        Some(candidate) => Some(
            BotMoveWithTactics {
                tactics: TacticsKey::Neutral,
                bot_move: BotMove::from_candidate(candidate),
            },
        ),
    }
}

/// The bot's move for the given position: presently the uniformly random
/// choice.
pub fn bot_move(ground: &EngineGround, config: Config) -> (r: Option<BotMoveWithTactics>)
    ensures
        r matches Some(b) ==> b.tactics == TacticsKey::Neutral,
        r matches Some(b) ==> (b.bot_move matches BotMove::InfAfterStep { dat, after }
            ==> decision_table_ok(dat, after@)),
{
    bot_random(ground, config)
}

} // verus!
