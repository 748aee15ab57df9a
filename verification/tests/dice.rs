use rust_bootcamp_part1::roll_dice;

#[test]
fn roll_dice_stays_in_range() {
    for _ in 0..200 {
        let r = roll_dice(6);
        assert!((1..=6).contains(&r));
    }
}

#[test]
fn roll_dice_with_one_side() {
    assert_eq!(roll_dice(1), 1);
}
