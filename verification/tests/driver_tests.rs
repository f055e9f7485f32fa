use device_supervisor::capabilities::LEDMode;
use device_supervisor::config::DeviceConfig;
use device_supervisor::device::DeviceError;
use device_supervisor::drivers::bmp280_sysfs::{
    Bmp280SysfsConfig, Bmp280SysfsDriver, CalibrationData, PowerMode, StandbyTime, WaitStep,
};
use device_supervisor::drivers::gps_uart::{Parity, SentenceBuffer, UartGps, UartGpsConfig};
use device_supervisor::drivers::sysfs_led::{
    LoadAction, LoadEvent, SysfsLedController, SysfsLedControllerConfig, UnloadPlan,
};
use device_supervisor::drivers::tsl2591_sysfs::{
    ChannelId, GainValue, IntegrationTime, Tsl2591SysfsConfig, Tsl2591SysfsDriver,
};
use device_supervisor::drivers::{bmp280_sysfs, check_entry, tsl2591_sysfs, wrong_chip};

fn invalid_config<T>(r: Result<T, DeviceError>) -> String {
    match r {
        Err(DeviceError::InvalidConfig(m)) => m,
        Err(e) => panic!("unexpected error: {:?}", e),
        Ok(_) => panic!("accepted"),
    }
}

fn invalid_operation<T>(r: Result<T, DeviceError>) -> String {
    match r {
        Err(DeviceError::InvalidOperation(m)) => m,
        Err(e) => panic!("unexpected error: {:?}", e),
        Ok(_) => panic!("accepted"),
    }
}

#[test]
fn entry_without_data_gets_the_default() {
    assert_eq!(
        invalid_config(check_entry(None, true, "", "{}")),
        "this driver requires a configuration object but none was provided"
    );

    let mut entry = DeviceConfig::new_without_data("tsl2591_sysfs".to_string(), None);
    assert_eq!(
        invalid_config(check_entry(Some(&mut entry), false, "invalid type: null", "{\"bus_id\":0}")),
        "missing config entry: device was missing config data, default config was written"
    );
    assert_eq!(entry.driver_data, "{\"bus_id\":0}");

    let mut entry = DeviceConfig::new("tsl2591_sysfs".to_string(), None, "[]".to_string());
    assert_eq!(
        invalid_config(check_entry(Some(&mut entry), false, "expected a map", "{}")),
        "serialize/parse error: failed to deserialize device config data: expected a map"
    );
    assert_eq!(entry.driver_data, "[]");
    assert_eq!(check_entry(Some(&mut entry), true, "", "{}"), Ok(()));
    assert_eq!(entry.driver_data, "[]");
}

#[test]
fn tsl2591_scales() {
    let times = [100u16, 200, 300, 400, 500, 600];
    for (i, ms) in times.iter().enumerate() {
        let t = IntegrationTime::from_millis(*ms).unwrap();
        assert_eq!(t.into_millis(), *ms);
        assert_eq!(t.code(), i as u8);
        assert_eq!(Tsl2591SysfsDriver::get_supported_interval(i as u8), Some(*ms));
    }
    assert_eq!(IntegrationTime::from_millis(150), None);
    assert_eq!(Tsl2591SysfsDriver::get_supported_interval(6), None);

    let gains = [(1u16, 0x00u8), (25, 0x10), (428, 0x20), (9876, 0x30)];
    for (i, (m, code)) in gains.iter().enumerate() {
        let g = GainValue::from_multiplier(*m).unwrap();
        assert_eq!(g.into_multiplier(), *m);
        assert_eq!(g.code(), *code);
        assert_eq!(Tsl2591SysfsDriver::get_supported_gain(i as u8), Some(*m));
    }
    assert_eq!(GainValue::from_multiplier(2), None);
    assert_eq!(Tsl2591SysfsDriver::get_supported_gain(4), None);

    assert_eq!(ChannelId::from(0), Some(ChannelId::FullSpectrum));
    assert_eq!(ChannelId::from(1), Some(ChannelId::Infrared));
    assert_eq!(ChannelId::from(2), Some(ChannelId::Visible));
    assert_eq!(ChannelId::from(3), None);

    assert_eq!(tsl2591_sysfs::control_byte(IntegrationTime::_300MS, GainValue::_428X), 0x22);
    assert_eq!(tsl2591_sysfs::control_byte(IntegrationTime::_100MS, GainValue::_1X), 0x00);
    assert_eq!(tsl2591_sysfs::adc_word(0x34, 0x12), 0x1234);
    assert!(tsl2591_sysfs::status_valid(0x31));
    assert!(!tsl2591_sysfs::status_valid(0x30));
}

fn tsl(gain: u16, time: u16, auto_gain: bool) -> Tsl2591SysfsDriver {
    let mut d = Tsl2591SysfsDriver::from_config(Tsl2591SysfsConfig {
        auto_gain_enabled: auto_gain,
        default_gain: gain,
        default_integration_time: time,
        device_address: 0x29,
        bus_id: 1,
    })
    .unwrap();
    d.finish_start();
    d
}

#[test]
fn tsl2591_configuration() {
    let c = Tsl2591SysfsConfig::default();
    assert_eq!(
        c,
        Tsl2591SysfsConfig {
            auto_gain_enabled: true,
            default_gain: 1,
            default_integration_time: 100,
            device_address: 0x29,
            bus_id: 0
        }
    );
    let d = Tsl2591SysfsDriver::from_config(c).unwrap();
    assert!(!d.is_running());
    assert_eq!(d.name(), "tsl2591_sysfs");
    assert_eq!(d.config(), c);

    assert_eq!(
        invalid_config(Tsl2591SysfsDriver::from_config(Tsl2591SysfsConfig { default_gain: 3, ..c })),
        "invalid config entry: invalid gain multiplier: 3, supported gain values are 1, 25, 428, 9876"
    );
    assert_eq!(
        invalid_config(Tsl2591SysfsDriver::from_config(Tsl2591SysfsConfig {
            default_integration_time: 250,
            ..c
        })),
        "invalid config entry: invalid integration time: 250, supported values are 100, 200, 300, 400, 500, 600"
    );

    let mut entry = DeviceConfig::new_without_data("tsl2591_sysfs".to_string(), None);
    assert!(Tsl2591SysfsDriver::new(Some(&mut entry), Err("null".to_string()), "{}").is_err());
    assert_eq!(entry.driver_data, "{}");
    assert!(Tsl2591SysfsDriver::new(Some(&mut entry), Ok(c), "{}").is_ok());
    assert_eq!(
        invalid_config(Tsl2591SysfsDriver::new(None, Ok(c), "{}")),
        "this driver requires a configuration object but none was provided"
    );
}

#[test]
fn tsl2591_lifecycle_and_settings() {
    let mut d = Tsl2591SysfsDriver::from_config(Tsl2591SysfsConfig::default()).unwrap();
    assert_eq!(invalid_operation(d.get_gain()), "device is in an invalid state");
    assert_eq!(invalid_operation(d.plan_gain(1)), "device is in an invalid state");
    assert_eq!(
        invalid_operation(d.stop()),
        "device unload requested but this device isn't loaded"
    );
    assert_eq!(d.check_start(), Ok(()));
    assert_eq!(d.check_chip(0x50), Ok(()));
    assert_eq!(
        d.check_chip(0x58),
        Err(DeviceError::HardwareError(
            "bus 0 address 41 contains an invalid device - reported chipID 88 but expected 80"
                .to_string()
        ))
    );
    assert_eq!(wrong_chip(1, 2, 3, 4), DeviceError::HardwareError(
        "bus 1 address 2 contains an invalid device - reported chipID 3 but expected 4".to_string()
    ));
    assert_eq!(d.current_control_byte(), 0x00);
    d.finish_start();
    assert!(d.is_running());
    assert_eq!(
        invalid_operation(d.check_start()),
        "device load requested but this device is already loaded"
    );

    assert_eq!(d.get_gain(), Ok(1));
    assert_eq!(d.get_interval(), Ok(100));
    assert_eq!(d.plan_gain(2), Ok((GainValue::_428X, 0x20)));
    assert_eq!(invalid_operation(d.plan_gain(4)), "gain value ID is not supported: 4");
    d.set_gain(GainValue::_428X);
    assert_eq!(d.get_gain(), Ok(428));
    assert_eq!(d.plan_interval(5), Ok((IntegrationTime::_600MS, 0x25)));
    assert_eq!(invalid_operation(d.plan_interval(6)), "integration time ID is not supported: 6");
    d.set_interval(IntegrationTime::_600MS);
    assert_eq!(d.get_interval(), Ok(600));
    assert_eq!(d.current_control_byte(), 0x25);

    assert_eq!(d.get_auto_gain_enabled(), Ok(true));
    assert_eq!(d.set_auto_gain_enabled(false), Ok(()));
    assert_eq!(d.get_auto_gain_enabled(), Ok(false));
    assert_eq!(d.auto_gain_update(0), None);

    assert_eq!(d.stop(), Ok(true));
    assert!(!d.is_running());
    assert_eq!(invalid_operation(d.get_interval()), "device is in an invalid state");
}

#[test]
fn tsl2591_auto_gain_thresholds() {
    let low = tsl(1, 200, true);
    assert_eq!(low.auto_gain_update(50), Some((GainValue::_428X, 0x21)));
    assert_eq!(low.auto_gain_update(51), Some((GainValue::_25X, 0x11)));
    assert_eq!(low.auto_gain_update(872), Some((GainValue::_25X, 0x11)));
    assert_eq!(low.auto_gain_update(873), None);
    assert_eq!(low.auto_gain_update(65535), None);

    let mid = tsl(25, 200, true);
    assert_eq!(mid.auto_gain_update(54), Some((GainValue::_9876X, 0x31)));
    assert_eq!(mid.auto_gain_update(55), Some((GainValue::_428X, 0x21)));
    assert_eq!(mid.auto_gain_update(1284), Some((GainValue::_428X, 0x21)));
    assert_eq!(mid.auto_gain_update(1285), None);
    assert_eq!(mid.auto_gain_update(61930), None);
    assert_eq!(mid.auto_gain_update(61931), Some((GainValue::_1X, 0x01)));

    // at 100 ms the converter reaches half as far
    let mid_fast = tsl(25, 100, true);
    assert_eq!(mid_fast.auto_gain_update(30965), None);
    assert_eq!(mid_fast.auto_gain_update(30966), Some((GainValue::_1X, 0x00)));

    let high = tsl(428, 200, true);
    assert_eq!(high.auto_gain_update(948), Some((GainValue::_9876X, 0x31)));
    assert_eq!(high.auto_gain_update(949), None);
    assert_eq!(high.auto_gain_update(61931), Some((GainValue::_25X, 0x11)));

    let max = tsl(9876, 200, true);
    assert_eq!(max.auto_gain_update(0), None);
    assert_eq!(max.auto_gain_update(61931), Some((GainValue::_428X, 0x21)));

    let off = tsl(1, 200, false);
    assert_eq!(off.auto_gain_update(0), None);
}

#[test]
fn tsl2591_luminosity() {
    let d = tsl(1, 100, true);
    assert_eq!(d.get_luminosity(0, 500, 200), Ok(500));
    assert_eq!(d.get_luminosity(1, 500, 200), Ok(200));
    assert_eq!(d.get_luminosity(2, 500, 200), Ok(300));
    assert_eq!(d.get_luminosity(2, 200, 200), Ok(0));
    assert_eq!(
        d.get_luminosity(2, 200, 201),
        Err(DeviceError::Other("infrared overflow".to_string()))
    );
    assert_eq!(
        invalid_operation(d.get_luminosity(3, 1, 1)),
        "channel ID is not supported: 3"
    );
    assert!(d.reading_overflows(36863, 0));
    assert!(d.reading_overflows(1, 36863));
    assert!(!d.reading_overflows(65535, 0));
    let slow = tsl(1, 300, true);
    assert!(slow.reading_overflows(0, 65535));
    assert!(!slow.reading_overflows(36863, 36863));
}

#[test]
fn bmp280_scales_and_bytes() {
    let times = [1u16, 63, 125, 250, 500, 1000, 2000, 4000];
    for (i, ms) in times.iter().enumerate() {
        let t = StandbyTime::from_millis(*ms).unwrap();
        assert_eq!(t.into_millis(), *ms);
        assert_eq!(t.code(), i as u8);
        assert_eq!(bmp280_sysfs::config_byte(t), (i as u8) << 5);
        assert_eq!(Bmp280SysfsDriver::get_supported_interval(i as u8), Some(*ms));
    }
    assert_eq!(StandbyTime::from_millis(64), None);
    assert_eq!(Bmp280SysfsDriver::get_supported_interval(8), None);

    let gains = [1u16, 2, 4, 8, 16];
    for (i, m) in gains.iter().enumerate() {
        let g = bmp280_sysfs::GainValue::from_multiplier(*m).unwrap();
        assert_eq!(g.into_multiplier(), *m);
        assert_eq!(g.code(), i as u8 + 1);
        assert_eq!(Bmp280SysfsDriver::get_supported_gain(i as u8), Some(*m));
    }
    assert_eq!(bmp280_sysfs::GainValue::from_multiplier(3), None);
    assert_eq!(Bmp280SysfsDriver::get_supported_gain(5), None);

    assert_eq!(
        bmp280_sysfs::control_byte(
            bmp280_sysfs::GainValue::_1X,
            bmp280_sysfs::GainValue::_4X,
            PowerMode::Normal
        ),
        0x3b
    );
    assert_eq!(Bmp280SysfsDriver::stop_byte(), 0x28);
    assert_eq!(bmp280_sysfs::adc_value(0x80, 0x00, 0x00), 0x80000);
    assert_eq!(bmp280_sysfs::adc_value(0x12, 0x34, 0x56), 0x12345);
    assert_eq!(bmp280_sysfs::trimming_word(0x70, 0x6b), 0x6b70);
    assert!(bmp280_sysfs::status_ready(0x00));
    assert!(bmp280_sysfs::status_ready(0xf6));
    assert!(!bmp280_sysfs::status_ready(0x08));
    assert!(!bmp280_sysfs::status_ready(0x01));
}

#[test]
fn bmp280_wait_steps() {
    assert_eq!(bmp280_sysfs::wait_adc_valid(0, 10, 100, Ok(0x00)), WaitStep::Ready);
    assert_eq!(bmp280_sysfs::wait_adc_valid(0, 10, 100, Ok(0x08)), WaitStep::Sleep(10));
    assert_eq!(bmp280_sysfs::wait_adc_valid(90, 10, 100, Ok(0x01)), WaitStep::Sleep(100));
    assert_eq!(
        bmp280_sysfs::wait_adc_valid(100, 10, 100, Ok(0x00)),
        WaitStep::Fail(DeviceError::HardwareError(
            "timed out waiting for the chip to become ready".to_string()
        ))
    );
    assert_eq!(
        bmp280_sysfs::wait_adc_valid(0, 10, 0, Ok(0x00)),
        WaitStep::Fail(DeviceError::HardwareError(
            "timed out waiting for the chip to become ready".to_string()
        ))
    );
    assert_eq!(
        bmp280_sysfs::wait_adc_valid(20, 10, 100, Err("eio".to_string())),
        WaitStep::Fail(DeviceError::HardwareError("failed to read chip status: eio".to_string()))
    );
}

#[test]
fn bmp280_driver() {
    let c = Bmp280SysfsConfig::default();
    assert_eq!(
        c,
        Bmp280SysfsConfig {
            default_thermometer_gain: 1,
            default_pressure_gain: 4,
            default_standby_time: 63,
            device_address: 0x76,
            device_ready_timeout: 100,
            bus_id: 0
        }
    );
    assert_eq!(
        invalid_config(Bmp280SysfsDriver::from_config(Bmp280SysfsConfig {
            default_thermometer_gain: 3,
            default_pressure_gain: 5,
            ..c
        })),
        "invalid config entry: invalid thermometer gain multiplier: 3, supported gain values are 1, 2, 4, 8, 16"
    );
    assert_eq!(
        invalid_config(Bmp280SysfsDriver::from_config(Bmp280SysfsConfig {
            default_pressure_gain: 5,
            ..c
        })),
        "invalid config entry: invalid thermometer gain multiplier: 5, supported gain values are 1, 2, 4, 8, 16"
    );
    assert_eq!(
        invalid_config(Bmp280SysfsDriver::from_config(Bmp280SysfsConfig {
            default_standby_time: 64,
            ..c
        })),
        "invalid config entry: invalid standby time: 64, supported values are 1, 63, 125, 250, 500, 1000, 2000, 4000"
    );

    let mut d = Bmp280SysfsDriver::from_config(c).unwrap();
    assert_eq!(d.name(), "bmp280-sysfs");
    assert_eq!(d.start_bytes(), (0x3b, 0x20));
    assert_eq!(d.check_chip(0x58), Ok(()));
    assert!(d.check_chip(0x50).is_err());
    assert_eq!(invalid_operation(d.calibration()), "device is in an invalid state");

    let calibration = CalibrationData {
        dig_T1: 27504,
        dig_T2: 26435,
        dig_T3: -1000,
        dig_P1: 36477,
        dig_P2: -10685,
        dig_P3: 3024,
        dig_P4: 2855,
        dig_P5: 140,
        dig_P6: -7,
        dig_P7: 15500,
        dig_P8: -14600,
        dig_P9: 6000,
    };
    d.finish_start(calibration);
    assert!(d.is_running());
    assert_eq!(d.calibration(), Ok(calibration));
    assert_eq!(d.get_gain(), Ok(1));
    assert_eq!(d.get_interval(), Ok(63));
    assert_eq!(d.settle_timeout(), 73);
    assert_eq!(d.plan_gain(4), Ok((bmp280_sysfs::GainValue::_16X, 0xbb)));
    assert_eq!(invalid_operation(d.plan_gain(5)), "gain value ID is not supported: 5");
    assert_eq!(d.plan_interval(7), Ok((StandbyTime::_4000MS, 0xe0)));
    assert_eq!(
        d.plan_interval(8),
        Err(DeviceError::HardwareError("standby time ID is not supported: 8".to_string()))
    );
    d.set_gain(bmp280_sysfs::GainValue::_16X);
    d.set_interval(StandbyTime::_4000MS);
    assert_eq!(d.get_gain(), Ok(16));
    assert_eq!(d.settle_timeout(), 4010);
    assert_eq!(d.stop(), Ok(true));
    assert!(!d.is_running());
    assert_eq!(
        invalid_operation(d.stop()),
        "device unload requested but this device isn't loaded"
    );

    let mut entry = DeviceConfig::new_without_data("bmp280-sysfs".to_string(), None);
    assert!(Bmp280SysfsDriver::new(Some(&mut entry), Err("null".to_string()), "{\"x\":1}").is_err());
    assert_eq!(entry.driver_data, "{\"x\":1}");
    assert!(Bmp280SysfsDriver::new(Some(&mut entry), Ok(c), "{}").is_ok());
}

#[test]
fn gps_settings_are_checked() {
    let c = UartGpsConfig::default();
    assert_eq!(
        c,
        UartGpsConfig {
            uart_port: 0,
            baud_rate: 11520,
            parity: Parity::NoParity,
            data_bits: 8,
            stop_bits: 1,
            polling_interval_ms: 1000
        }
    );
    assert!(UartGps::new(c).is_ok());
    assert!(UartGps::new(UartGpsConfig { data_bits: 5, stop_bits: 2, ..c }).is_ok());
    assert!(UartGps::new(UartGpsConfig { data_bits: 9, ..c }).is_ok());
    for bits in [4u8, 10] {
        assert_eq!(
            invalid_config(UartGps::new(UartGpsConfig { data_bits: bits, baud_rate: 0, ..c })),
            "invalid config entry: data bit count is out of bounds: only 5-9 data bits are supported"
        );
    }
    assert_eq!(
        invalid_config(UartGps::new(UartGpsConfig { baud_rate: 0, stop_bits: 3, ..c })),
        "invalid config entry: baud rate cannot be 0"
    );
    for bits in [0u8, 3] {
        assert_eq!(
            invalid_config(UartGps::new(UartGpsConfig { stop_bits: bits, ..c })),
            "invalid config entry: stop bit count can be either 1 or 2"
        );
    }
}

#[test]
fn gps_lifecycle() {
    let mut d = UartGps::new(UartGpsConfig::default()).unwrap();
    assert_eq!(d.name(), "gps_uart");
    assert_eq!(
        invalid_operation(d.check_stop()),
        "device unload requested but this device isn't loaded"
    );
    assert_eq!(invalid_operation(d.check_state(true)), "device is in an invalid state");
    assert_eq!(d.check_start(), Ok(()));
    d.finish_start();
    assert!(d.is_running());
    assert_eq!(
        invalid_operation(d.check_start()),
        "device load requested but this device is already loaded"
    );
    assert_eq!(d.check_state(true), Ok(()));
    assert_eq!(invalid_operation(d.check_state(false)), "device is in an invalid state");
    assert_eq!(d.check_stop(), Ok(true));
    d.worker_stopped();
    assert_eq!(d.check_stop(), Ok(false));
    assert_eq!(
        d.finish_stop(false),
        Err(DeviceError::MissingController("uart".to_string()))
    );
    assert!(d.is_running());
    assert_eq!(d.finish_stop(true), Ok(()));
    assert!(!d.is_running());
}

#[test]
fn sentences_are_framed_at_line_feeds() {
    let mut buffer = SentenceBuffer::new();
    assert_eq!(buffer.push(b"$GPGGA,1"), Vec::<Vec<u8>>::new());
    assert_eq!(buffer.push(b"23\r\n$GPRMC,4\n\n$GP"), vec![
        b"$GPGGA,123\r".to_vec(),
        b"$GPRMC,4".to_vec(),
        Vec::new(),
    ]);
    assert_eq!(buffer.push(b""), Vec::<Vec<u8>>::new());
    assert_eq!(buffer.push(b"GSV\n"), vec![b"$GPGSV".to_vec()]);
    assert_eq!(buffer.push(b"\n"), vec![Vec::<u8>::new()]);
}

#[test]
fn led_wiring_is_checked() {
    let c = SysfsLedControllerConfig::default();
    assert_eq!(c.default_mode, LEDMode::Visible);
    assert_eq!((c.power_on_gpio_state, c.power_off_gpio_state), (1, 0));
    assert_eq!((c.ir_mode_gpio_state, c.vis_mode_gpio_state), (0, 1));
    assert_eq!(
        (c.pwm_period, c.pwm_0_brightness_duty_cycle, c.pwm_100_brightness_duty_cycle),
        (100, 0, 100)
    );
    assert!(SysfsLedController::new(c).is_ok());
    assert_eq!(
        invalid_config(SysfsLedController::new(SysfsLedControllerConfig {
            power_on_gpio_state: 0,
            ir_mode_gpio_state: 1,
            ..c
        })),
        "invalid config entry: GPIO values for power states overlap"
    );
    assert_eq!(
        invalid_config(SysfsLedController::new(SysfsLedControllerConfig {
            ir_mode_gpio_state: 1,
            pwm_period: 0,
            ..c
        })),
        "invalid config entry: GPIO values for modes overlap"
    );
    assert_eq!(
        invalid_config(SysfsLedController::new(SysfsLedControllerConfig {
            pwm_period: 0,
            pwm_100_brightness_duty_cycle: 0,
            ..c
        })),
        "invalid config entry: PWM period must be greater than zero"
    );
    assert_eq!(
        invalid_config(SysfsLedController::new(SysfsLedControllerConfig {
            pwm_100_brightness_duty_cycle: 0,
            ..c
        })),
        "invalid config entry: PWM duty cycles overlap"
    );
}

#[test]
fn led_driver() {
    let c = SysfsLedControllerConfig {
        default_mode: LEDMode::Infrared,
        ir_mode_gpio_state: 7,
        vis_mode_gpio_state: 9,
        pwm_0_brightness_duty_cycle: 20,
        pwm_100_brightness_duty_cycle: 80,
        ..SysfsLedControllerConfig::default()
    };
    let mut d = SysfsLedController::new(c).unwrap();
    assert_eq!(d.name(), "sysfs_generic_led");
    assert_eq!(d.config(), c);
    assert_eq!(invalid_operation(d.get_mode()), "device is in an invalid state");
    assert_eq!(invalid_operation(d.plan_mode(LEDMode::Visible)), "device is in an invalid state");
    assert_eq!(
        d.check_unload(),
        Err(DeviceError::Other("device unload requested but this device isn't loaded".to_string()))
    );

    d.load();
    assert!(d.is_running());
    assert_eq!(d.get_mode(), Ok(LEDMode::Infrared));
    assert_eq!(d.get_power_state(), Ok(true));
    assert_eq!(d.plan_mode(LEDMode::Visible), Ok(9));
    assert_eq!(d.plan_mode(LEDMode::Infrared), Ok(7));
    d.set_mode(LEDMode::Visible);
    assert_eq!(d.get_mode(), Ok(LEDMode::Visible));
    assert_eq!(d.check_brightness(), Ok(()));
    assert_eq!(d.duty_span(), Some(60));
    assert_eq!(d.duty_cycle(true, 30), 30);
    assert_eq!(d.duty_cycle(false, 30), 20);
    d.set_power_state(false);
    assert_eq!(d.get_power_state(), Ok(false));

    assert_eq!(
        d.check_unload(),
        Ok(UnloadPlan { close_mode_switch: true, close_brightness: true })
    );
    d.mode_switch_closed();
    assert_eq!(invalid_operation(d.plan_mode(LEDMode::Visible)), "device is in an invalid state");
    assert_eq!(
        d.check_unload(),
        Ok(UnloadPlan { close_mode_switch: false, close_brightness: true })
    );
    d.brightness_closed();
    assert_eq!(invalid_operation(d.check_brightness()), "device is in an invalid state");
    d.unload();
    assert!(!d.is_running());

    let falling = SysfsLedController::new(SysfsLedControllerConfig {
        pwm_0_brightness_duty_cycle: 80,
        pwm_100_brightness_duty_cycle: 20,
        ..c
    })
    .unwrap();
    assert_eq!(falling.duty_span(), None);
}

#[test]
fn led_start_steps() {
    let d = SysfsLedController::new(SysfsLedControllerConfig {
        mode_switch_pin: 17,
        brightness_pwm_channel: 3,
        ..SysfsLedControllerConfig::default()
    })
    .unwrap();
    assert_eq!(
        d.load_step(LoadEvent::Controllers { raw: false, pwm: false }),
        LoadAction::Fail(DeviceError::MissingController("sysfs_raw".to_string()))
    );
    assert_eq!(
        d.load_step(LoadEvent::Controllers { raw: true, pwm: false }),
        LoadAction::Fail(DeviceError::MissingController("sysfs_pwm".to_string()))
    );
    assert_eq!(
        d.load_step(LoadEvent::Controllers { raw: true, pwm: true }),
        LoadAction::OpenModeSwitch(17)
    );
    assert_eq!(d.load_step(LoadEvent::ModeSwitch(Ok(()))), LoadAction::OpenBrightness(3));
    assert_eq!(
        d.load_step(LoadEvent::ModeSwitch(Err("pin 17 is busy".to_string()))),
        LoadAction::Fail(DeviceError::HardwareError(
            "could not get mode switch pin: pin 17 is busy".to_string()
        ))
    );
    assert_eq!(d.load_step(LoadEvent::Brightness(Ok(()))), LoadAction::Finish);
    assert_eq!(
        d.load_step(LoadEvent::Brightness(Err("pwm channel 3 is busy".to_string()))),
        LoadAction::RollBack(DeviceError::HardwareError(
            "could not get brightness control pwm channel: pwm channel 3 is busy".to_string()
        ))
    );
}
