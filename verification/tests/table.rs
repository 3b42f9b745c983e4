use vizir_charts::table::{TableFrame, TableFrameError};
use vizir_charts::transform::{
    AggregateField, AggregateOp, ColId, CompareOp, Predicate, SortOrder, StackOffset, TableId,
};

#[test]
fn frame_needs_columns() {
    assert_eq!(TableFrame::new(Vec::new()).unwrap_err(), TableFrameError::EmptyColumns);
    let frame = TableFrame::new(vec![ColId(3), ColId(1)]).unwrap();
    assert_eq!(frame.row_count(), 0);
    assert_eq!(frame.columns, vec![ColId(3), ColId(1)]);
    assert!(frame.data.is_empty());
    assert_ne!(TableFrameError::EmptyColumns, TableFrameError::MissingData);
}

#[test]
fn frame_finds_columns_and_values() {
    let frame = TableFrame {
        row_keys: vec![10, 11, 12],
        columns: vec![ColId(7), ColId(2), ColId(7)],
        data: vec![
            vec![Some(1), Some(2), None],
            vec![Some(4), Some(5), Some(6)],
            vec![Some(9), Some(9), Some(9)],
        ],
    };
    assert_eq!(frame.row_count(), 3);
    assert_eq!(frame.column_index(ColId(7)), Some(0));
    assert_eq!(frame.column_index(ColId(2)), Some(1));
    assert_eq!(frame.column_index(ColId(5)), None);
    assert_eq!(frame.value(1, ColId(2)), Some(5));
    assert_eq!(frame.value(0, ColId(7)), Some(1));
    assert_eq!(frame.value(2, ColId(7)), None);
    assert_eq!(frame.value(3, ColId(2)), None);
    assert_eq!(frame.value(0, ColId(5)), None);
}

#[test]
fn frame_tolerates_ragged_data() {
    let frame = TableFrame {
        row_keys: vec![1, 2],
        columns: vec![ColId(1), ColId(2)],
        data: vec![vec![Some(1)]],
    };
    assert_eq!(frame.value(0, ColId(1)), Some(1));
    assert_eq!(frame.value(1, ColId(1)), None);
    assert_eq!(frame.value(0, ColId(2)), None);
}

#[test]
fn predicates_compare_with_their_constant() {
    let at = |op: CompareOp, v: i64| Predicate { col: ColId(0), op, value: 5 }.eval(v);
    assert!(at(CompareOp::Lt, 4) && !at(CompareOp::Lt, 5));
    assert!(at(CompareOp::Le, 5) && !at(CompareOp::Le, 6));
    assert!(at(CompareOp::Gt, 6) && !at(CompareOp::Gt, 5));
    assert!(at(CompareOp::Ge, 5) && !at(CompareOp::Ge, 4));
    assert!(at(CompareOp::Eq, 5) && !at(CompareOp::Eq, 4));
    assert!(at(CompareOp::Ne, 4) && !at(CompareOp::Ne, 5));
}

#[test]
fn transform_vocabulary() {
    assert_ne!(StackOffset::Zero, StackOffset::Center);
    assert_ne!(StackOffset::Wiggle, StackOffset::Normalize);
    assert_ne!(SortOrder::Asc, SortOrder::Desc);
    assert_ne!(AggregateOp::Count, AggregateOp::Sum);
    assert_ne!(AggregateOp::Min, AggregateOp::Max);
    let field = AggregateField { op: AggregateOp::Mean, input: ColId(1), output: ColId(2) };
    assert_eq!(field.op, AggregateOp::Mean);
    assert_eq!(TableId(4), TableId(4));
}
