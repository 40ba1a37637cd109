use vstd::prelude::*;

use crate::coord::AbsoluteCoord;
use crate::coord::Color;
use crate::coord::Profession;
use crate::message::MoveToBePolled;

verus! {

/// A move of an ordinary piece, as submitted by a client.
#[derive(Debug, PartialEq, Eq, Clone, Copy, Structural)]
pub enum NonTamMoveDotData {
    FromHand { color: Color, profession: Profession, dest: AbsoluteCoord },
    SrcDst { src: AbsoluteCoord, dest: AbsoluteCoord, water_entry_ciurl: Option<crate::trial::Ciurl> },
    SrcStepDstFinite {
        src: AbsoluteCoord,
        step: AbsoluteCoord,
        dest: AbsoluteCoord,
        water_entry_ciurl: Option<crate::trial::Ciurl>,
    },
}

/// A move of the shared special piece, which travels in two stages and may
/// step over another piece during either stage.
#[derive(Debug, PartialEq, Eq, Clone, Copy, Structural)]
pub enum TamMoveInternal {
    NoStep { src: AbsoluteCoord, first_dest: AbsoluteCoord, second_dest: AbsoluteCoord },
    StepsDuringFormer {
        src: AbsoluteCoord,
        step: AbsoluteCoord,
        first_dest: AbsoluteCoord,
        second_dest: AbsoluteCoord,
    },
    StepsDuringLatter {
        src: AbsoluteCoord,
        step: AbsoluteCoord,
        first_dest: AbsoluteCoord,
        second_dest: AbsoluteCoord,
    },
}

/// Any move whose outcome needs no stepping trial.
#[derive(Debug, PartialEq, Eq, Clone, Copy, Structural)]
pub enum NormalMove {
    NonTamMove { data: NonTamMoveDotData },
    TamMove { flatten: TamMoveInternal },
}

/// How the hand begun by a move was eventually settled, if a decision was owed.
#[derive(Debug, PartialEq, Eq, Clone, Copy, Structural)]
pub enum HandCompletionStatus {
    TyMok,
    TaXot,
    NotYetDetermined,
}

/// One entry of a room's per-season ledger: the move as polling clients see
/// it, the hand-completion status, and which seat made it.
#[derive(Debug, PartialEq, Eq, Clone, Copy, Structural)]
pub struct MovePiece {
    pub mov: MoveToBePolled,
    pub status: Option<HandCompletionStatus>,
    pub by_ia_owner: bool,
}

} // verus!
