use snake::Direction;

const ALL: [Direction; 4] = [Direction::Up, Direction::Down, Direction::Left, Direction::Right];

#[test]
fn opposite_of_each_heading() {
    assert_eq!(Direction::Up.opposite(), Direction::Down);
    assert_eq!(Direction::Down.opposite(), Direction::Up);
    assert_eq!(Direction::Left.opposite(), Direction::Right);
    assert_eq!(Direction::Right.opposite(), Direction::Left);
}

#[test]
fn opposite_twice_is_identity() {
    for h in ALL {
        assert_eq!(h.opposite().opposite(), h);
    }
}

#[test]
fn no_heading_is_its_own_opposite() {
    for h in ALL {
        assert_ne!(h.opposite(), h);
    }
}

#[test]
fn opposite_leaves_receiver_usable() {
    let h: Direction = Direction::Left;
    let o: Direction = h.opposite();
    assert_eq!(h, Direction::Left);
    assert_eq!(o, Direction::Right);
}

#[test]
fn headings_are_pairwise_distinct() {
    for (i, a) in ALL.iter().enumerate() {
        for (j, b) in ALL.iter().enumerate() {
            assert_eq!(a == b, i == j);
        }
    }
}
