use sparko_esp_std::led::{
    flash_mode, flash_step, next_flash_step, on_off_nanos, pin_level_high, status_color,
    FlashConfig, FlashMode, FlashStep, LedError, MonoLedManager, RgbLedManager, SimpleLedManager,
    Status, MIN_PERIOD_NANOS, SECOND_NANOS,
};
use sparko_esp_std::sparko_esp32_std::RGB_LED_BRIGHTNESS;

#[test]
fn pin_levels() {
    assert!(pin_level_high(true, false));
    assert!(!pin_level_high(false, false));
    assert!(!pin_level_high(true, true));
    assert!(pin_level_high(false, true));
}

#[test]
fn rgb_duty_scaled_by_brightness() {
    let m = RgbLedManager::new(false, RGB_LED_BRIGHTNESS);
    assert_eq!(m.apply_inversion(255), 32);
    assert_eq!(m.apply_inversion(0), 0);
    assert_eq!(m.apply_inversion(128), 16);
    assert_eq!(m.set_color(255, 128, 0), (32, 16, 0));
    assert_eq!(m.set_on(), (32, 32, 32));
    assert_eq!(m.set_off(), (0, 0, 0));
}

#[test]
fn rgb_duty_inverted() {
    let m = RgbLedManager::new(true, 255);
    assert_eq!(m.apply_inversion(255), 0);
    assert_eq!(m.apply_inversion(0), 255);
    assert_eq!(m.set_off(), (255, 255, 255));
    let m = RgbLedManager::new(true, RGB_LED_BRIGHTNESS);
    assert_eq!(m.set_on(), (223, 223, 223));
}

#[test]
fn inversion_complements_plain_duty() {
    for brightness in [0u8, 1, 32, 200, 255] {
        let plain = RgbLedManager::new(false, brightness);
        let inv = RgbLedManager::new(true, brightness);
        for v in [0u8, 1, 77, 128, 254, 255] {
            assert_eq!(plain.apply_inversion(v) as u32 + inv.apply_inversion(v) as u32, 255);
            assert!(plain.apply_inversion(v) <= brightness);
        }
    }
}

#[test]
fn status_colours() {
    assert_eq!(status_color(Status::Initializing), (255, 255, 0));
    assert_eq!(status_color(Status::Running), (0, 255, 0));
    assert_eq!(status_color(Status::Setup), (0, 0, 255));
    assert_eq!(status_color(Status::Error), (255, 0, 0));
    let m = RgbLedManager::new(false, 255);
    assert_eq!(m.set_status(Status::Error), (255, 0, 0));
    assert_eq!(m.set_status(Status::Setup), (0, 0, 255));
}

#[test]
fn flash_modes() {
    let c = |flashes, burst_nanos, pause_nanos| FlashConfig { flashes, burst_nanos, pause_nanos };
    assert_eq!(flash_mode(c(0, SECOND_NANOS, SECOND_NANOS)), FlashMode::Dark);
    assert_eq!(flash_mode(c(1, 0, 0)), FlashMode::SteadyOn);
    assert_eq!(flash_mode(c(1, 0, 1)), FlashMode::Flashing);
    assert_eq!(flash_mode(c(3, SECOND_NANOS, SECOND_NANOS)), FlashMode::Flashing);
}

#[test]
fn on_off_duration() {
    let c = FlashConfig { flashes: 3, burst_nanos: SECOND_NANOS, pause_nanos: SECOND_NANOS };
    assert_eq!(on_off_nanos(c), 166_666_666);
    let c = FlashConfig { flashes: 1, burst_nanos: 500_000_000, pause_nanos: 0 };
    assert_eq!(on_off_nanos(c), 250_000_000);
}

#[test]
fn burst_shape() {
    let steps: Vec<Option<FlashStep>> = (0..8).map(|k| flash_step(3, k)).collect();
    assert_eq!(
        steps,
        vec![
            Some(FlashStep::On),
            Some(FlashStep::Off),
            Some(FlashStep::On),
            Some(FlashStep::Off),
            Some(FlashStep::On),
            Some(FlashStep::Off),
            Some(FlashStep::Pause),
            None,
        ]
    );
    assert_eq!(next_flash_step(3, 0, false), Some(1));
    assert_eq!(next_flash_step(3, 5, false), Some(6));
    assert_eq!(next_flash_step(3, 6, false), None);
    assert_eq!(next_flash_step(3, 2, true), None);
    assert_eq!(flash_step(0, 0), Some(FlashStep::Pause));
}

#[test]
fn mono_manager_defaults_and_settings() {
    let mut m = MonoLedManager::new();
    assert_eq!(m.config, FlashConfig { flashes: 3, burst_nanos: SECOND_NANOS, pause_nanos: SECOND_NANOS });
    assert!(!m.updated);
    assert_eq!(m.set_flash_config(5, 2 * SECOND_NANOS, MIN_PERIOD_NANOS), Ok(()));
    assert!(m.updated);
    assert_eq!(m.config, FlashConfig { flashes: 5, burst_nanos: 2 * SECOND_NANOS, pause_nanos: MIN_PERIOD_NANOS });
    let c = m.take_config();
    assert_eq!(c.flashes, 5);
    assert!(!m.updated);
}

#[test]
fn mono_manager_refuses_short_periods() {
    let mut m = MonoLedManager::new();
    assert_eq!(m.set_flash_config(2, MIN_PERIOD_NANOS - 1, SECOND_NANOS), Err(LedError::PeriodTooShort));
    assert_eq!(m.set_flash_config(2, SECOND_NANOS, 0), Err(LedError::PeriodTooShort));
    assert_eq!(m.config, FlashConfig { flashes: 3, burst_nanos: SECOND_NANOS, pause_nanos: SECOND_NANOS });
    assert!(!m.updated);
}

#[test]
fn mono_manager_on_off_and_status() {
    let mut m = MonoLedManager::new();
    m.set_on();
    assert_eq!(flash_mode(m.config), FlashMode::SteadyOn);
    m.set_off();
    assert_eq!(flash_mode(m.config), FlashMode::Dark);
    m.set_status(Status::Setup);
    assert_eq!(m.config.flashes, 2);
    m.set_status(Status::Error);
    assert_eq!(m.config.flashes, 3);
    m.set_status(Status::Initializing);
    assert_eq!(m.config.flashes, 1);
    m.set_status(Status::Running);
    assert_eq!(m.config.flashes, 0);
    assert!(m.updated);
    m.set_flashes(4);
    assert_eq!(m.config.flashes, 4);
}

#[test]
fn simple_led_levels() {
    let plain = SimpleLedManager::new(false);
    assert!(plain.set_on());
    assert!(!plain.set_off());
    assert!(!plain.set_status(Status::Running));
    assert!(plain.set_status(Status::Error));
    let inv = SimpleLedManager::new(true);
    assert!(!inv.set_on());
    assert!(inv.set_off());
    assert!(inv.set_status(Status::Running));
    assert!(!inv.set_status(Status::Setup));
}
