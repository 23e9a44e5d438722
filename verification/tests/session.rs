use ascii_art::converter::{AsciiOptions, ImageConverter, ToAsciiArt};
use ascii_art::session::{Focus, Key, KeyKind, Outcome, Session};
use ascii_art::tone::ToneCurve;
use image::{DynamicImage, GrayImage, Luma};

fn snapshot(session: &Session) -> (u32, u32, u32, Focus, String) {
    (
        session.width(),
        session.height(),
        session.gamma_tenths(),
        session.focus(),
        session.art().to_string(),
    )
}

fn press(session: &mut Session, key: Key, times: usize) {
    for _ in 0..times {
        assert_eq!(session.handle_key(key), Outcome::Continue);
    }
}

fn two_tone_image() -> DynamicImage {
    let mut buffer = GrayImage::new(4, 2);
    for y in 0..2 {
        buffer.put_pixel(2, y, Luma([255]));
        buffer.put_pixel(3, y, Luma([255]));
    }
    DynamicImage::ImageLuma8(buffer)
}

#[test]
fn session_starts_with_defaults() {
    let session = Session::new();
    assert_eq!(snapshot(&session), (80, 50, 10, Focus::Width, String::new()));
}

#[test]
fn down_cycles_through_the_fields() {
    let mut session = Session::new();
    let mut seen = Vec::new();
    for _ in 0..4 {
        assert_eq!(session.handle_key(Key::Down), Outcome::Continue);
        seen.push(session.focus());
    }
    assert_eq!(seen, vec![Focus::Height, Focus::Gamma, Focus::Confirm, Focus::Width]);
    assert_eq!(snapshot(&session), snapshot(&Session::new()));
}

#[test]
fn up_cycles_through_the_fields_in_reverse() {
    let mut session = Session::new();
    let mut seen = Vec::new();
    for _ in 0..4 {
        assert_eq!(session.handle_key(Key::Up), Outcome::Continue);
        seen.push(session.focus());
    }
    assert_eq!(seen, vec![Focus::Confirm, Focus::Gamma, Focus::Height, Focus::Width]);
    assert_eq!(snapshot(&session), snapshot(&Session::new()));
}

#[test]
fn right_and_left_edit_the_field_in_focus() {
    let mut session = Session::new();
    press(&mut session, Key::Right, 3);
    assert_eq!((session.width(), session.height(), session.gamma_tenths()), (83, 50, 10));
    press(&mut session, Key::Left, 5);
    assert_eq!(session.width(), 78);

    press(&mut session, Key::Down, 1);
    press(&mut session, Key::Right, 2);
    press(&mut session, Key::Left, 7);
    assert_eq!((session.width(), session.height(), session.gamma_tenths()), (78, 45, 10));

    press(&mut session, Key::Down, 1);
    press(&mut session, Key::Right, 1);
    assert_eq!(session.gamma_tenths(), 11);
    press(&mut session, Key::Left, 4);
    assert_eq!((session.width(), session.height(), session.gamma_tenths()), (78, 45, 7));
}

#[test]
fn right_and_left_do_nothing_on_confirm() {
    let mut session = Session::new();
    press(&mut session, Key::Up, 1);
    let before = snapshot(&session);
    press(&mut session, Key::Right, 2);
    press(&mut session, Key::Left, 2);
    assert_eq!(snapshot(&session), before);
    assert_eq!(session.focus(), Focus::Confirm);
}

#[test]
fn width_never_falls_below_one() {
    let mut session = Session::new();
    for _ in 0..200 {
        session.handle_key(Key::Left);
        assert!(session.width() >= 1);
    }
    assert_eq!(session.width(), 1);
    press(&mut session, Key::Right, 1);
    assert_eq!(session.width(), 2);
}

#[test]
fn height_never_falls_below_one() {
    let mut session = Session::new();
    press(&mut session, Key::Down, 1);
    for _ in 0..200 {
        session.handle_key(Key::Left);
        assert!(session.height() >= 1);
    }
    assert_eq!(session.height(), 1);
}

#[test]
fn gamma_stays_positive() {
    let mut session = Session::new();
    press(&mut session, Key::Down, 2);
    for _ in 0..50 {
        session.handle_key(Key::Left);
        assert!(session.gamma_tenths() >= 1);
    }
    assert_eq!(session.gamma_tenths(), 1);
}

#[test]
fn enter_ends_the_session_only_on_confirm() {
    let mut session = Session::new();
    for _ in 0..3 {
        let before = snapshot(&session);
        assert_eq!(session.handle_key(Key::Enter), Outcome::Continue);
        assert_eq!(snapshot(&session), before);
        press(&mut session, Key::Down, 1);
    }
    assert_eq!(session.focus(), Focus::Confirm);
    let before = snapshot(&session);
    assert_eq!(session.handle_key(Key::Enter), Outcome::Finish);
    assert_eq!(snapshot(&session), before);
}

#[test]
fn other_keys_are_ignored() {
    let mut session = Session::new();
    for _ in 0..4 {
        let before = snapshot(&session);
        assert_eq!(session.handle_key(Key::Other), Outcome::Continue);
        assert_eq!(snapshot(&session), before);
        press(&mut session, Key::Down, 1);
    }
}

#[test]
fn refresh_draws_with_the_current_size() {
    let converter = ImageConverter::new(two_tone_image());
    let mut session = Session::new();
    press(&mut session, Key::Left, 76);
    press(&mut session, Key::Down, 1);
    press(&mut session, Key::Left, 48);
    assert_eq!((session.width(), session.height()), (4, 2));

    session.refresh(&converter, ToneCurve::identity());
    assert_eq!(session.art(), "##..\n##..\n");
    assert_eq!(
        session.art(),
        converter.to_ascii_art(Some(AsciiOptions::new(4, 2)))
    );
    assert_eq!((session.width(), session.height(), session.focus()), (4, 2, Focus::Height));

    press(&mut session, Key::Left, 1);
    assert_eq!(session.art(), "##..\n##..\n");
    session.refresh(&converter, ToneCurve::identity());
    assert_eq!(session.art(), "##..\n");
    session.on_tick();
    assert_eq!(session.art(), "##..\n");
    assert_eq!(session.into_art(), "##..\n");
}

#[test]
fn refresh_applies_the_tone_curve() {
    let mut levels = vec![0u8; 256];
    levels[255] = 255;
    let darkening = ToneCurve::from_levels(levels).expect("a tone table");
    let mut buffer = GrayImage::new(2, 1);
    buffer.put_pixel(0, 0, Luma([254]));
    buffer.put_pixel(1, 0, Luma([255]));
    let converter = ImageConverter::new(DynamicImage::ImageLuma8(buffer));
    let mut session = Session::new();
    press(&mut session, Key::Left, 78);
    press(&mut session, Key::Down, 1);
    press(&mut session, Key::Left, 49);
    session.refresh(&converter, darkening);
    assert_eq!(session.art(), "#.\n");
}

#[test]
fn options_carry_the_size_of_the_session() {
    let mut session = Session::new();
    press(&mut session, Key::Right, 1);
    let options = session.options(ToneCurve::identity());
    assert_eq!((options.width(), options.height()), (81, 50));
    assert_eq!(options.tone().apply(77), 77);
}

#[test]
fn only_presses_count() {
    let mut session = Session::new();
    for kind in [KeyKind::Repeat, KeyKind::Release] {
        for key in [Key::Left, Key::Right, Key::Up, Key::Down, Key::Enter, Key::Other] {
            let before = snapshot(&session);
            assert_eq!(session.handle_event(kind, key), Outcome::Continue);
            assert_eq!(snapshot(&session), before);
        }
    }
    assert_eq!(session.handle_event(KeyKind::Press, Key::Right), Outcome::Continue);
    assert_eq!(session.width(), 81);
    assert_eq!(session.handle_event(KeyKind::Press, Key::Up), Outcome::Continue);
    assert_eq!(session.handle_event(KeyKind::Release, Key::Enter), Outcome::Continue);
    assert_eq!(session.handle_event(KeyKind::Press, Key::Enter), Outcome::Finish);
}
