use riko::position::Position;

#[test]
fn new_sets_fields() {
    let p = Position::new(3, 4);
    assert_eq!(p.x, 3);
    assert_eq!(p.y, 4);
}

#[test]
fn add_and_sub_saturate() {
    let a = Position::new(5, usize::MAX - 1);
    let b = Position::new(2, 7);
    assert_eq!(a + b, Position::new(7, usize::MAX));
    assert_eq!(b - a, Position::new(0, 0));
    assert_eq!(a - b, Position::new(3, usize::MAX - 8));
}

#[test]
fn assign_forms_saturate() {
    let mut p = Position::new(1, 1);
    p.sub_assign(Position::new(2, 1));
    assert_eq!(p, Position::new(0, 0));
    p.add_assign(Position::new(usize::MAX, 3));
    assert_eq!(p, Position::new(usize::MAX, 3));
    p.add_assign(Position::new(1, 0));
    assert_eq!(p, Position::new(usize::MAX, 3));
}

#[test]
fn add_then_sub_gives_back() {
    let p = Position::new(10, 20);
    let d = Position::new(3, 4);
    assert_eq!((p + d) - d, p);
}

#[test]
fn compound_operators_saturate() {
    let mut p = Position::new(2, 5);
    p -= Position::new(3, 1);
    assert_eq!(p, Position::new(0, 4));
    p += Position::new(1, usize::MAX);
    assert_eq!(p, Position::new(1, usize::MAX));
}
