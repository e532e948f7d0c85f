use eulerian_fluid::field::Field;

#[test]
fn new_field_holds_the_fill_everywhere() {
    let f: Field<i64> = Field::new(3, 2, 7);
    assert_eq!(f.width(), 3);
    assert_eq!(f.height(), 2);
    for j in 0..2 {
        for i in 0..3 {
            assert_eq!(f.get(i, j), 7);
        }
    }
}

#[test]
fn set_changes_one_sample_only() {
    let mut f: Field<i64> = Field::new(3, 2, 0);
    f.set(2, 1, 5);
    f.set(0, 1, -4);
    assert_eq!(f.get(2, 1), 5);
    assert_eq!(f.get(0, 1), -4);
    assert_eq!(f.get(2, 0), 0);
    assert_eq!(f.get(1, 1), 0);
    assert_eq!(f.get(0, 0), 0);
    assert_eq!(f.get(1, 0), 0);
}

#[test]
fn fill_with_visits_every_sample_with_its_own_indices() {
    let mut f: Field<i64> = Field::new(4, 3, 0);
    f.fill_with(|i, j| (10 * j + i) as i64);
    for j in 0..3 {
        for i in 0..4 {
            assert_eq!(f.get(i, j), (10 * j + i) as i64);
        }
    }
}

#[test]
fn empty_field_is_accepted() {
    let mut f: Field<i64> = Field::new(0, 5, 1);
    assert_eq!(f.width(), 0);
    assert_eq!(f.height(), 5);
    f.fill_with(|_, _| 2);
}
