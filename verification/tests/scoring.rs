use flappybust::DigitSprite;
use flappybust::Medal;
use flappybust::MedalType;
use flappybust::Score;
use flappybust::digit_count;
use flappybust::medal_for_score;
use flappybust::rank_layout;

#[test]
fn fresh_score_is_zero() {
    let s = Score::default();
    assert_eq!(s.current, 0);
    assert_eq!(s.highest, 0);
}

#[test]
fn one_pass_counts_one_point() {
    let mut s = Score::default();
    s.on_pass();
    assert_eq!(s.current, 1);
    assert_eq!(s.highest, 1);
}

#[test]
fn best_score_survives_a_new_round() {
    let mut s = Score::default();
    s.on_pass();
    s.on_pass();
    s.on_pass();
    assert_eq!(s.current, 3);
    assert_eq!(s.highest, 3);
    s.new_round();
    assert_eq!(s.current, 0);
    assert_eq!(s.highest, 3);
    s.on_pass();
    assert_eq!(s.current, 1);
    assert_eq!(s.highest, 3);
}

#[test]
fn best_score_moves_once_the_round_beats_it() {
    let mut s = Score { current: 3, highest: 3 };
    s.new_round();
    s.on_pass();
    s.on_pass();
    s.on_pass();
    assert_eq!(s.highest, 3);
    s.on_pass();
    assert_eq!(s.current, 4);
    assert_eq!(s.highest, 4);
}

#[test]
fn medal_bands() {
    assert_eq!(medal_for_score(0), None);
    assert_eq!(medal_for_score(9), None);
    assert_eq!(medal_for_score(10), Some(MedalType::Bronze));
    assert_eq!(medal_for_score(19), Some(MedalType::Bronze));
    assert_eq!(medal_for_score(20), Some(MedalType::Silver));
    assert_eq!(medal_for_score(29), Some(MedalType::Silver));
    assert_eq!(medal_for_score(30), Some(MedalType::Gold));
    assert_eq!(medal_for_score(39), Some(MedalType::Gold));
    assert_eq!(medal_for_score(40), Some(MedalType::Platinum));
    assert_eq!(medal_for_score(1000), Some(MedalType::Platinum));
}

#[test]
fn medal_slot_round_trip() {
    let m = Medal::new(Some(MedalType::Gold));
    assert_eq!(*m.get(), Some(MedalType::Gold));
    let empty = Medal::new(None);
    assert_eq!(*empty.get(), None);
}

#[test]
fn medal_names() {
    assert_eq!(MedalType::Bronze.name(), "bronze");
    assert_eq!(MedalType::Silver.name(), "silver");
    assert_eq!(MedalType::Gold.name(), "gold");
    assert_eq!(MedalType::Platinum.name(), "platinum");
}

#[test]
fn digit_counts() {
    assert_eq!(digit_count(0), 1);
    assert_eq!(digit_count(9), 1);
    assert_eq!(digit_count(10), 2);
    assert_eq!(digit_count(99), 2);
    assert_eq!(digit_count(100), 3);
    assert_eq!(digit_count(999), 3);
    assert_eq!(digit_count(1000), 4);
    assert_eq!(digit_count(u32::MAX), 10);
}

#[test]
fn layout_of_one_digit() {
    let (units, tens, hundreds) = rank_layout(7);
    assert_eq!(units, Some(DigitSprite { digit: 7, x: 0 }));
    assert_eq!(tens, None);
    assert_eq!(hundreds, None);
}

#[test]
fn layout_of_two_digits() {
    let (units, tens, hundreds) = rank_layout(42);
    assert_eq!(units, Some(DigitSprite { digit: 2, x: 12 }));
    assert_eq!(tens, Some(DigitSprite { digit: 4, x: -12 }));
    assert_eq!(hundreds, None);
}

#[test]
fn layout_of_three_digits() {
    let (units, tens, hundreds) = rank_layout(357);
    assert_eq!(units, Some(DigitSprite { digit: 7, x: 25 }));
    assert_eq!(tens, Some(DigitSprite { digit: 5, x: 0 }));
    assert_eq!(hundreds, Some(DigitSprite { digit: 3, x: -25 }));
}

#[test]
fn layout_digits_recombine_to_the_score() {
    let (units, tens, hundreds) = rank_layout(357);
    let total = hundreds.unwrap().digit * 100 + tens.unwrap().digit * 10 + units.unwrap().digit;
    assert_eq!(total, 357);
}

#[test]
fn layout_of_four_digits_shows_nothing() {
    let (units, tens, hundreds) = rank_layout(1234);
    assert_eq!(units, None);
    assert_eq!(tens, None);
    assert_eq!(hundreds, None);
}
