use flappybust::BirdColor;
use flappybust::Base;
use flappybust::DateTime;
use flappybust::FlapAnimation;
use flappybust::GameOverSequence;
use flappybust::Switcher;
use flappybust::scroll_display_x;
use flappybust::scroll_wrap;
use flappybust::bird::soul_in_heaven;
use flappybust::bird::soul_rise;

#[test]
fn overlay_stages_unlock_in_order() {
    let mut seq = GameOverSequence::new();
    assert!(seq.button_step().is_none());
    assert!(!seq.soul_step(true));
    assert!(seq.medal_step(true, true).is_none());

    assert!(seq.on_text_settled().is_some());
    assert!(seq.medal_step(true, true).is_none());
    assert!(seq.on_scoreboard_top().is_some());
    seq.on_death();

    assert!(seq.medal_step(true, false).is_none());
    assert!(seq.medal_step(true, true).is_some());
    assert!(!seq.soul_step(false));
    assert!(seq.soul_step(true));
    assert!(seq.button_step().is_some());
    assert!(seq.button_shown);
}

#[test]
fn missing_medal_is_announced_at_once() {
    let mut seq = GameOverSequence::new();
    seq.on_text_settled();
    seq.on_scoreboard_top();
    seq.on_death();
    assert!(seq.medal_step(false, false).is_some());
    assert!(seq.medal_done);
}

#[test]
fn scroll_anchor_walks_left_and_wraps() {
    assert_eq!(scroll_wrap(0, 1, 312), -1);
    assert_eq!(scroll_wrap(-310, 1, 312), -311);
    assert_eq!(scroll_wrap(-311, 1, 312), 0);
    assert_eq!(scroll_wrap(0, 3, 576), -3);
    assert_eq!(scroll_wrap(-574, 3, 576), -1);
}

#[test]
fn secondary_copy_draws_one_period_right() {
    assert_eq!(scroll_display_x(-5, false, 312), -5);
    assert_eq!(scroll_display_x(-5, true, 312), 307);
}

#[test]
fn ground_strip_collider_is_its_top_edge() {
    let base = Base::new(0, -200, false);
    assert_eq!(base.collider_pos, -144);
    let second = Base::new(336, -200, true);
    assert!(second.secondary);
    assert_eq!(second.collider_pos, -144);
}

#[test]
fn daytime_draw_is_day_or_night() {
    for _ in 0..20 {
        let d = DateTime::random();
        assert!(d == DateTime::Day || d == DateTime::Night);
    }
}

#[test]
fn default_daytime_is_a_fresh_draw() {
    for _ in 0..20 {
        let d = DateTime::default();
        assert!(d == DateTime::Day || d == DateTime::Night);
    }
}

#[test]
fn named_layout_constants() {
    assert_eq!(flappybust::BASE_RESET_POINT, 336 - 24);
    assert_eq!(flappybust::game_over::GAME_OVER_TEXT_REST_Y, 156);
    assert_eq!(flappybust::game_over::SCOREBOARD_START_Y, -199);
    assert_eq!(flappybust::game_over::SCOREBOARD_TOP_Y, 57);
    assert_eq!(flappybust::game_over::MEDAL_X, -65);
    assert_eq!(flappybust::game_over::MEDAL_Y, 47);
    assert_eq!(flappybust::score::SCORE_ROW_Y, 512 / 2 - 10 - 36 / 2);
    assert_eq!(flappybust::score::SCORE_DIGIT_WIDTH, 24);
    assert_eq!(flappybust::score::SCORE_DIGIT_HEIGHT, 36);
}

#[test]
fn daytime_names() {
    assert_eq!(DateTime::Day.name(), "day");
    assert_eq!(DateTime::Night.name(), "night");
    assert_eq!(DateTime::Day.pipe_color(), "green");
    assert_eq!(DateTime::Night.pipe_color(), "red");
}

#[test]
fn bird_color_draw_maps_all_three_values() {
    assert_eq!(BirdColor::from_index(0), BirdColor::Red);
    assert_eq!(BirdColor::from_index(1), BirdColor::Blue);
    assert_eq!(BirdColor::from_index(2), BirdColor::Yellow);
    for _ in 0..20 {
        let c = BirdColor::random();
        assert!(c == BirdColor::Red || c == BirdColor::Blue || c == BirdColor::Yellow);
    }
}

#[test]
fn bird_color_names() {
    assert_eq!(BirdColor::Red.name(), "red");
    assert_eq!(BirdColor::Blue.name(), "blue");
    assert_eq!(BirdColor::Yellow.name(), "yellow");
}

#[test]
fn flap_animation_cycles_three_frames() {
    let mut anim = FlapAnimation::new();
    assert_eq!(anim.current_frame, 0);
    anim.advance();
    assert_eq!(anim.current_frame, 1);
    anim.advance();
    assert_eq!(anim.current_frame, 2);
    anim.advance();
    assert_eq!(anim.current_frame, 0);
}

#[test]
fn soul_rises_to_heaven() {
    assert_eq!(soul_rise(5), 6);
    assert!(!soul_in_heaven(266));
    assert!(soul_in_heaven(267));
    assert!(soul_in_heaven(300));
}

#[test]
fn switcher_drives_a_flag() {
    let mut flag = false;
    flag.on();
    assert!(flag);
    flag.off();
    assert!(!flag);
    flag.toggle();
    assert!(flag);
    flag.toggle();
    assert!(!flag);
}
