use vstd::prelude::*;

use crate::coord::AbsoluteCoord;
use crate::game::NonTamMoveDotData;
use crate::game::TamMoveInternal;
use crate::trial::Ciurl;
use crate::trial::WhoGoesFirst;

verus! {

/// The fields of a stepping-move submission: where the piece starts, which
/// occupied square it steps over, and the direction the mover plans to take.
#[derive(Debug, PartialEq, Eq, Clone, Copy, Structural)]
pub struct InfAfterStepInternal {
    pub src: AbsoluteCoord,
    pub step: AbsoluteCoord,
    pub coord_signifying_planned_direction: AbsoluteCoord,
}

/// A client's move submission.
#[derive(Debug, PartialEq, Eq, Clone, Copy, Structural)]
pub enum MainMessage {
    InfAfterStep { flatten: InfAfterStepInternal },
    NonTamMove { data: NonTamMoveDotData },
    TamMove { flatten: TamMoveInternal },
}

/// A client's half-acceptance decision: `None` means "stop immediately".
#[derive(Debug, PartialEq, Eq, Clone, Copy, Structural)]
pub enum AfterHalfAcceptanceMessage {
    AfterHalfAcceptance { dest: Option<AbsoluteCoord> },
}

/// The deferred outcome of a stepping move, filled in when the mover's
/// half-acceptance decision arrives.
#[derive(Debug, PartialEq, Eq, Clone, Copy, Structural)]
pub struct FinalResult {
    pub dest: AbsoluteCoord,
    pub water_entry_ciurl: Option<Ciurl>,
    pub thwarted_by_failing_water_entry_ciurl: Option<Ciurl>,
}

/// A committed move in the form that polling clients read.
#[derive(Debug, PartialEq, Eq, Clone, Copy, Structural)]
pub enum MoveToBePolled {
    NonTamMove { data: NonTamMoveDotData },
    TamMove { flatten: TamMoveInternal },
    InfAfterStep {
        src: AbsoluteCoord,
        step: AbsoluteCoord,
        coord_signifying_planned_direction: AbsoluteCoord,
        stepping_ciurl: Ciurl,
        final_result: Option<FinalResult>,
    },
}

impl MainMessage {
    /// The ledger form of this submission: ordinary moves carry over as they
    /// are, and a stepping move gets its stepping trial drawn from the
    /// source, with the final result still open.
    #[must_use]
    pub fn process<S: crate::trial::TrialSource>(self, source: &mut S) -> (r: MoveToBePolled)
        ensures
            self matches MainMessage::NonTamMove { data } ==> r == (MoveToBePolled::NonTamMove {
                data,
            }),
            self matches MainMessage::TamMove { flatten } ==> r == (MoveToBePolled::TamMove {
                flatten,
            }),
            self matches MainMessage::InfAfterStep { flatten } ==> (r matches
                MoveToBePolled::InfAfterStep {
                src,
                step,
                coord_signifying_planned_direction,
                final_result,
                ..
            } && src == flatten.src && step == flatten.step
                && coord_signifying_planned_direction
                == flatten.coord_signifying_planned_direction && final_result is None),
    {
        match self {
            MainMessage::InfAfterStep { flatten } => MoveToBePolled::InfAfterStep {
                src: flatten.src,
                step: flatten.step,
                coord_signifying_planned_direction: flatten.coord_signifying_planned_direction,
                stepping_ciurl: Ciurl::new(source),
                final_result: None,
            },
            MainMessage::NonTamMove { data } => MoveToBePolled::NonTamMove { data },
            MainMessage::TamMove { flatten } => MoveToBePolled::TamMove { flatten },
        }
    }
}

impl From<NonTamMoveDotData> for MoveToBePolled {
    /// The ledger form of an ordinary piece move.
    fn from(mov: NonTamMoveDotData) -> (r: Self) {
        MoveToBePolled::NonTamMove { data: mov }
    }
}

impl vstd::std_specs::convert::FromSpecImpl<NonTamMoveDotData> for MoveToBePolled {
    open spec fn obeys_from_spec() -> bool {
        true
    }

    open spec fn from_spec(mov: NonTamMoveDotData) -> Self {
        MoveToBePolled::NonTamMove { data: mov }
    }
}

impl From<TamMoveInternal> for MoveToBePolled {
    /// The ledger form of a special-piece move.
    fn from(mov: TamMoveInternal) -> (r: Self) {
        MoveToBePolled::TamMove { flatten: mov }
    }
}

impl vstd::std_specs::convert::FromSpecImpl<TamMoveInternal> for MoveToBePolled {
    open spec fn obeys_from_spec() -> bool {
        true
    }

    open spec fn from_spec(mov: TamMoveInternal) -> Self {
        MoveToBePolled::TamMove { flatten: mov }
    }
}

/// The reply to a continue-the-season decision.
#[derive(Debug, PartialEq, Eq, Clone)]
pub enum RetTyMok {
    Illegal,
    Legal,
}

/// The reply to an end-the-season decision. `None` for the first-mover field
/// means the match ended outright instead of opening a new season.
#[derive(Debug, PartialEq, Eq, Clone)]
pub enum RetTaXot {
    Illegal,
    Legal { is_first_move_my_move: Option<WhoGoesFirst> },
}

/// The reply to a stepping-move submission.
#[derive(Debug, PartialEq, Eq, Clone)]
pub enum RetInfAfterStep {
    Legal { ciurl: Ciurl },
    Illegal { why_illegal: String },
}

/// The reply to an ordinary move submission.
#[derive(Debug, PartialEq, Eq, Clone)]
pub enum RetNormalMove {
    Illegal { why_illegal: String },
    WithWaterEntry { ciurl: Ciurl },
    WithoutWaterEntry,
}

/// The reply to a half-acceptance decision.
#[derive(Debug, PartialEq, Eq, Clone)]
pub enum RetAfterHalfAcceptance {
    Illegal { why_illegal: String },
    WithWaterEntry { ciurl: Ciurl },
    WithoutWaterEntry,
}

/// The reply to entering the random matchmaking pool.
#[derive(Debug, PartialEq, Eq, Clone)]
pub enum RetRandomEntry {
    InWaitingList { access_token: String },
    RoomAlreadyAssigned {
        access_token: String,
        is_first_move_my_move: WhoGoesFirst,
        is_ia_down_for_me: bool,
    },
}

/// The reply to asking for a match against the bot.
#[derive(Debug, PartialEq, Eq, Clone)]
pub enum RetVsCpuEntry {
    LetTheGameBegin {
        access_token: String,
        is_first_move_my_move: WhoGoesFirst,
        is_ia_down_for_me: bool,
    },
}

/// The reply to polling the matchmaking pool.
#[derive(Debug, PartialEq, Eq, Clone)]
pub enum RetRandomPoll {
    Illegal { why_illegal: String },
    Legal { ret: RetRandomEntry },
}

/// The reply to cancelling a matchmaking wait.
#[derive(Debug, PartialEq, Eq, Clone)]
pub enum RetRandomCancel {
    Illegal { why_illegal: String },
    Legal { cancellable: bool },
}

/// The reply to polling for the opponent's hand decision.
#[derive(Debug, PartialEq, Eq, Clone)]
pub enum RetWhetherTyMokPoll {
    TyMok,
    TaXot { is_first_move_my_move: Option<WhoGoesFirst> },
    NotYetDetermined,
    Illegal { why_illegal: String },
}

/// The reply to polling for the opponent's move.
#[derive(Debug, PartialEq, Eq, Clone)]
pub enum RetMainPoll {
    MoveMade { content: MoveToBePolled, message: Option<crate::bot::TacticsKey> },
    NotYetDetermined,
    Illegal { why_illegal: String },
}

/// The reply to polling for a stepping move's deferred outcome.
#[derive(Debug, PartialEq, Eq, Clone)]
pub enum RetInfPoll {
    MoveMade { content: MoveToBePolled },
    NotYetDetermined,
    Illegal { why_illegal: String },
}

/// The body of a request that carries only a credential.
#[derive(Debug, PartialEq, Eq, Clone)]
pub struct MsgWithAccessToken {
    pub access_token: String,
}

} // verus!
