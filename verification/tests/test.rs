use collab_broker::models::delta::Point;

#[test]
fn test_add() {
    assert_eq!(3 + 2, 5);
}

#[test]
fn point_keeps_row_and_column() {
    let point = Point::new(5, 17);
    assert_eq!(point.row, 5);
    assert_eq!(point.column, 17);
    assert_eq!(point, Point { row: 5, column: 17 });
}
