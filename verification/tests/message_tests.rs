use cerke_online_backend::game::NonTamMoveDotData;
use cerke_online_backend::game::TamMoveInternal;
use cerke_online_backend::message::InfAfterStepInternal;
use cerke_online_backend::message::MainMessage;
use cerke_online_backend::message::MoveToBePolled;
use cerke_online_backend::trial::TrialSource;
use cerke_online_backend::AbsoluteColumn;
use cerke_online_backend::AbsoluteCoord;
use cerke_online_backend::AbsoluteRow;
use cerke_online_backend::Ciurl;
use cerke_online_backend::Color;
use cerke_online_backend::Profession;

struct ConstantSource(bool);

impl TrialSource for ConstantSource {
    fn next_bool(&mut self) -> bool {
        self.0
    }
}

fn coord(row: AbsoluteRow, col: AbsoluteColumn) -> AbsoluteCoord {
    AbsoluteCoord(row, col)
}

#[test]
fn processing_an_ordinary_move_keeps_it() {
    let data = NonTamMoveDotData::FromHand {
        color: Color::Kok1,
        profession: Profession::Kauk2,
        dest: coord(AbsoluteRow::Y, AbsoluteColumn::K),
    };
    let mut source = ConstantSource(true);
    assert_eq!(
        MainMessage::NonTamMove { data }.process(&mut source),
        MoveToBePolled::NonTamMove { data }
    );
    let flatten = TamMoveInternal::NoStep {
        src: coord(AbsoluteRow::O, AbsoluteColumn::Z),
        first_dest: coord(AbsoluteRow::O, AbsoluteColumn::X),
        second_dest: coord(AbsoluteRow::O, AbsoluteColumn::Z),
    };
    assert_eq!(
        MainMessage::TamMove { flatten }.process(&mut source),
        MoveToBePolled::TamMove { flatten }
    );
}

#[test]
fn processing_a_stepping_move_draws_its_trial() {
    let flatten = InfAfterStepInternal {
        src: coord(AbsoluteRow::AU, AbsoluteColumn::L),
        step: coord(AbsoluteRow::AU, AbsoluteColumn::K),
        coord_signifying_planned_direction: coord(AbsoluteRow::AU, AbsoluteColumn::L),
    };
    let mut source = ConstantSource(true);
    let processed = (MainMessage::InfAfterStep { flatten }).process(&mut source);
    match processed {
        MoveToBePolled::InfAfterStep {
            src,
            step,
            coord_signifying_planned_direction,
            stepping_ciurl,
            final_result,
        } => {
            assert_eq!(src, flatten.src);
            assert_eq!(step, flatten.step);
            assert_eq!(
                coord_signifying_planned_direction,
                flatten.coord_signifying_planned_direction
            );
            assert_eq!(stepping_ciurl, Ciurl(true, true, true, true, true));
            assert!(final_result.is_none());
        }
        other => panic!("unexpected {:?}", other),
    }
}

#[test]
fn ledger_forms_of_plain_moves() {
    let data = NonTamMoveDotData::SrcDst {
        src: coord(AbsoluteRow::AI, AbsoluteColumn::K),
        dest: coord(AbsoluteRow::Y, AbsoluteColumn::K),
        water_entry_ciurl: None,
    };
    assert_eq!(
        MoveToBePolled::from(data),
        MoveToBePolled::NonTamMove { data }
    );
    let flatten = TamMoveInternal::NoStep {
        src: coord(AbsoluteRow::O, AbsoluteColumn::Z),
        first_dest: coord(AbsoluteRow::O, AbsoluteColumn::X),
        second_dest: coord(AbsoluteRow::O, AbsoluteColumn::Z),
    };
    assert_eq!(
        MoveToBePolled::from(flatten),
        MoveToBePolled::TamMove { flatten }
    );
}
