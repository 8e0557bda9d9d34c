use golfer::audio::{
    play_tone, tone_config, ui_step, AudioPlayer, PwmSetting, Tone, UiSound, UiStep,
};
use golfer::buttons::{Button, ButtonEvent, Debouncer};
use golfer::display::{
    boot_label, general_label, label, row_y, status_color, status_text, value_text, BootStatus,
    Color, Display, DisplayPage, Field, GpsDisplayState, InitStatus, InitSubsystem,
    RadioDisplayState, Redraw,
};
use golfer::gps::GpsState;
use golfer::tones::{button_test_frequency_hz, HeldTones};

#[test]
fn buttons_have_numbers() {
    for index in 0..4 {
        let button = Button::at(index);
        assert_eq!(button.index(), index);
        assert_eq!(button.number() as usize, index + 1);
    }
}

#[test]
fn bounce_is_not_reported() {
    let mut debouncer = Debouncer::new();
    for _ in 0..3 {
        assert_eq!(debouncer.sample(2, true), None);
    }
    assert_eq!(debouncer.sample(2, false), None);
    for _ in 0..3 {
        assert_eq!(debouncer.sample(2, true), None);
    }
    assert_eq!(debouncer.sample(1, true), None);
    assert_eq!(
        debouncer.sample(2, true),
        Some(ButtonEvent { button: Button::Three, pressed: true })
    );
    for _ in 0..3 {
        assert_eq!(debouncer.sample(2, false), None);
    }
    assert_eq!(
        debouncer.sample(2, false),
        Some(ButtonEvent { button: Button::Three, pressed: false })
    );
}

#[test]
fn requests_for_tones() {
    assert_eq!(play_tone(440, 10), Some(Tone { frequency_hz: 440, drive_percent: 10 }));
    assert_eq!(play_tone(440, 80), Some(Tone { frequency_hz: 440, drive_percent: 50 }));
    assert_eq!(play_tone(0, 10), None);
    assert_eq!(play_tone(440, 0), None);
}

#[test]
fn settings_of_the_pulse_generator() {
    assert_eq!(
        tone_config(150_000_000, 440, 10),
        PwmSetting { divider: 6, top: 56_817, compare: 5_681 }
    );
    assert_eq!(
        tone_config(150_000_000, 0, 50),
        PwmSetting { divider: 255, top: 65_535, compare: 32_768 }
    );
    assert_eq!(
        tone_config(150_000_000, 150_000_000, 50),
        PwmSetting { divider: 1, top: 1, compare: 1 }
    );
    assert_eq!(tone_config(65_536, 1, 100), PwmSetting { divider: 1, top: 65_535, compare: 0 });
}

#[test]
fn signals() {
    let mut total = 0;
    let mut index = 0;
    while let Some(step) = ui_step(UiSound::Startup, index) {
        total += step.duration_ms;
        index += 1;
    }
    assert_eq!(index, 7);
    assert_eq!(total, 530);
    assert_eq!(
        ui_step(UiSound::LinkLost, 4),
        Some(UiStep {
            tone: Some(Tone { frequency_hz: 294, drive_percent: 10 }),
            duration_ms: 280,
        })
    );
    assert_eq!(ui_step(UiSound::LinkLost, 5), None);
    assert_eq!(
        ui_step(UiSound::LinkReacquired, 1),
        Some(UiStep { tone: None, duration_ms: 20 })
    );
}

#[test]
fn the_newest_tone_comes_back() {
    let low = Some(Tone { frequency_hz: 330, drive_percent: 10 });
    let high = Some(Tone { frequency_hz: 660, drive_percent: 10 });
    let mut player = AudioPlayer::new();
    assert_eq!(player.without_sound(None), None);
    assert_eq!(player.without_sound(Some(low)), Some(low));
    assert_eq!(player.after_sound(None), low);
    assert_eq!(player.after_sound(Some(high)), high);
    assert_eq!(player.after_sound(Some(None)), None);
}

#[test]
fn held_buttons_sound() {
    let press = |button| ButtonEvent { button, pressed: true };
    let release = |button| ButtonEvent { button, pressed: false };
    let tone = |button| play_tone(button_test_frequency_hz(button), 10);
    let mut tones = HeldTones::new();
    assert_eq!(tones.on_event(press(Button::Two)), Some(tone(Button::Two)));
    assert_eq!(tones.on_event(press(Button::Four)), Some(tone(Button::Four)));
    assert_eq!(tones.on_event(press(Button::One)), Some(tone(Button::One)));
    assert_eq!(tones.on_event(release(Button::Two)), None);
    assert_eq!(tones.on_event(release(Button::One)), Some(tone(Button::Four)));
    assert_eq!(tones.on_event(release(Button::Four)), Some(None));
    assert_eq!(tones.on_event(release(Button::Four)), None);
    assert_eq!(tone(Button::Three).unwrap().frequency_hz, 550);
}

#[test]
fn the_start_page() {
    let (mut display, redraw) = Display::new();
    assert_eq!(redraw, Redraw::Page(DisplayPage::Boot));
    assert_eq!(display.boot_status, BootStatus::starting());
    assert_eq!(
        display.set_init_status(InitSubsystem::Gps, InitStatus::Nok),
        Redraw::Row(InitSubsystem::Gps, InitStatus::Nok)
    );
    assert_eq!(display.boot_status.get(InitSubsystem::Gps), InitStatus::Nok);
    assert_eq!(display.boot_status.get(InitSubsystem::Lora), InitStatus::Initializing);
    assert_eq!(display.update_radio(RadioDisplayState::connected(1, 2, 3, 4, 5)), Redraw::Nothing);
    assert_eq!(display.set_page(DisplayPage::Boot), Redraw::Nothing);
    assert_eq!(display.set_page(DisplayPage::General), Redraw::Page(DisplayPage::General));
    assert_eq!(display.page(), DisplayPage::General);
    assert_eq!(
        display.set_init_status(InitSubsystem::Lora, InitStatus::Okay),
        Redraw::Nothing
    );
    assert_eq!(row_y(InitSubsystem::SdCard), 116);
    assert_eq!(label(InitSubsystem::SdCard), "SD CARD");
    assert_eq!(status_text(InitStatus::Initializing), "initializing...");
    assert_eq!(status_color(InitStatus::Nok), Color::Blue);
    assert_eq!(boot_label(1).unwrap().text, "SYSTEM INITIALIZATION");
    assert!(boot_label(2).is_none());
}

#[test]
fn only_changed_values_are_drawn() {
    let (mut display, _) = Display::new();
    display.set_page(DisplayPage::General);
    let redraw = display.update_radio(RadioDisplayState::connected(7, -97, 8, 1, 0));
    let drawn = |redraw: Redraw| match redraw {
        Redraw::Fields(set) => (0..10)
            .filter_map(Field::at)
            .filter(|field| set.has(*field))
            .collect::<Vec<Field>>(),
        _ => panic!("no fields"),
    };
    assert_eq!(
        drawn(redraw),
        vec![Field::Link, Field::Sequence, Field::Rssi, Field::Snr, Field::Received]
    );
    let redraw = display.update_radio(RadioDisplayState::connected(8, -97, 8, 2, 0));
    assert_eq!(drawn(redraw), vec![Field::Sequence, Field::Received]);
    let redraw =
        display.update_radio(RadioDisplayState::lost(Some(8), Some(-97), Some(8), 2, 0));
    assert_eq!(drawn(redraw), vec![Field::Link]);
    let gps = GpsState { online: true, satellites: Some(4), ..GpsState::offline() };
    let redraw = display.update_gps(GpsDisplayState::of(gps));
    assert_eq!(drawn(redraw), vec![Field::GpsStatus, Field::Satellites]);
}

#[test]
fn values() {
    let radio = RadioDisplayState::connected(8, -97, -3, 2, 4_000_000_000);
    let gps = GpsDisplayState {
        online: true,
        fix: true,
        latitude_e7: Some(348_591_150),
        longitude_e7: Some(-5),
        satellites: Some(8),
    };
    let text = |field| value_text(field, &radio, &gps).text().to_string();
    assert_eq!(text(Field::Link), "CONNECTED");
    assert_eq!(text(Field::Sequence), "8");
    assert_eq!(text(Field::Rssi), "-97 dBm");
    assert_eq!(text(Field::Snr), "-3 dB");
    assert_eq!(text(Field::Received), "2");
    assert_eq!(text(Field::Missed), "4000000000");
    assert_eq!(text(Field::GpsStatus), "FIX");
    assert_eq!(text(Field::Satellites), "8");
    assert_eq!(text(Field::Latitude), "34.8591150");
    assert_eq!(text(Field::Longitude), "-0.0000005");
    let radio = RadioDisplayState::waiting();
    let gps = GpsDisplayState::offline();
    let text = |field| value_text(field, &radio, &gps).text().to_string();
    assert_eq!(text(Field::Link), "WAITING FOR RX");
    assert_eq!(text(Field::Sequence), "---");
    assert_eq!(text(Field::Rssi), "--- dBm");
    assert_eq!(text(Field::Snr), "--- dB");
    assert_eq!(text(Field::GpsStatus), "OFFLINE");
    assert_eq!(text(Field::Longitude), "---");
    let lowest = GpsDisplayState { latitude_e7: Some(i32::MIN), ..gps };
    assert_eq!(value_text(Field::Latitude, &radio, &lowest).text(), "-214.7483648");
}

#[test]
fn labels() {
    let mut index = 0;
    while let Some(label) = general_label(index) {
        assert_eq!(label.x, 4);
        index += 1;
    }
    assert_eq!(index, 15);
    assert_eq!(general_label(3).unwrap().text, "SEQ");
    assert_eq!(general_label(3).unwrap().y, Field::Sequence.y());
}
