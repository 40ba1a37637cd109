use cerke_online_backend::coord::distance;
use cerke_online_backend::AbsoluteColumn;
use cerke_online_backend::AbsoluteCoord;
use cerke_online_backend::AbsoluteRow;

#[test]
fn row_and_column_indices() {
    assert_eq!(AbsoluteRow::A.index(), 0);
    assert_eq!(AbsoluteRow::IA.index(), 8);
    assert_eq!(AbsoluteColumn::K.index(), 0);
    assert_eq!(AbsoluteColumn::P.index(), 8);
}

#[test]
fn distance_is_the_larger_coordinate_difference() {
    let a_k = AbsoluteCoord(AbsoluteRow::A, AbsoluteColumn::K);
    let i_n = AbsoluteCoord(AbsoluteRow::I, AbsoluteColumn::N);
    let i_k = AbsoluteCoord(AbsoluteRow::I, AbsoluteColumn::K);
    let e_n = AbsoluteCoord(AbsoluteRow::E, AbsoluteColumn::N);
    assert_eq!(distance(a_k, i_n), 2);
    assert_eq!(distance(i_k, i_n), 2);
    assert_eq!(distance(a_k, e_n), 2);
    assert_eq!(distance(a_k, a_k), 0);
    let ia_p = AbsoluteCoord(AbsoluteRow::IA, AbsoluteColumn::P);
    assert_eq!(distance(a_k, ia_p), 8);
}
