use wiringx::gpio::{Direction, Input, InterruptTimeOut, IsrMode, Output, PinState, Value};
use wiringx::i2c::I2CError;
use wiringx::platform::{str_eq, Platform};
use wiringx::pwm::{Polarity, PwmPin};
use wiringx::registry::Registry;
use wiringx::uart::{contains_nul, FlowControl, InvalidUARTConfig, Parity, SerialConfig};
use wiringx::{native_outcome, Setup, WiringX, WiringXError};

fn config(baud_rate: u32, data_bits: u32, stop_bits: u32) -> SerialConfig {
    SerialConfig {
        baud_rate,
        data_bits,
        parity: Parity::Off,
        stop_bits,
        flow_control: FlowControl::Off,
    }
}

#[test]
fn platform_parses_ignoring_case() {
    assert_eq!(Platform::from_string("RaspberryPi3").unwrap(), Platform::RaspberryPi3);
    assert_eq!(Platform::from_string("MILKV_DUOS").unwrap(), Platform::MilkVDuoS);
    assert_eq!(Platform::from_string("milkv_duo256m").unwrap(), Platform::MilkVDuo256M);
}

#[test]
fn platform_parses_aliases() {
    assert_eq!(Platform::from_string("raspberrypi1bplus").unwrap(), Platform::RaspberryPi1bPlus);
    assert_eq!(Platform::from_string("raspberrypi1b+").unwrap(), Platform::RaspberryPi1bPlus);
    assert_eq!(Platform::from_string("OrangePiPCPlus").unwrap(), Platform::OrangePiPCPlus);
    assert_eq!(Platform::from_string("orangepipc+").unwrap(), Platform::OrangePiPCPlus);
}

#[test]
fn platform_rejects_unknown_token() {
    let e = Platform::from_string("Arduino").unwrap_err();
    assert_eq!(e.input(), "Arduino");
    assert_eq!(e.message(), "Can not determine a valid platform from Arduino.");
    assert!(Platform::from_string("").is_err());
    assert!(Platform::from_string("raspberrypi").is_err());
}

#[test]
fn platform_from_lowercase_is_case_sensitive() {
    assert_eq!(Platform::from_lowercase("rock5b"), Some(Platform::Rock5b));
    assert_eq!(Platform::from_lowercase("Rock5b"), None);
}

#[test]
fn platform_names() {
    assert_eq!(Platform::RaspberryPi1bPlus.name(), "raspberrypi1b+");
    assert_eq!(Platform::HummingboardEdgesdl.name(), "hummingboard_edge_sdl");
    assert_eq!(Platform::Odriodc1.name(), "odroidc1");
    for p in [Platform::MilkVDuo, Platform::OrangePiPC2, Platform::RaspberryPiZero, Platform::Rock4] {
        assert_eq!(Platform::from_string(p.name()).unwrap(), p);
    }
}

#[test]
fn strings_compare_by_characters() {
    assert!(str_eq("abc", "abc"));
    assert!(!str_eq("abc", "abd"));
    assert!(!str_eq("abc", "ab"));
    assert!(str_eq("", ""));
}

#[test]
fn uart_config_validation() {
    assert_eq!(config(57600, 8, 1).check(), Ok(()));
    assert_eq!(config(57601, 8, 1).check(), Err(InvalidUARTConfig::BaudRate));
    assert_eq!(config(57600, 6, 1).check(), Err(InvalidUARTConfig::DataBits));
    assert_eq!(config(57600, 8, 3).check(), Err(InvalidUARTConfig::StopBits));
}

#[test]
fn uart_config_edges() {
    assert_eq!(config(50, 7, 2).check(), Ok(()));
    assert_eq!(config(230400, 8, 2).check(), Ok(()));
    assert_eq!(config(460800, 8, 1).check(), Err(InvalidUARTConfig::BaudRate));
    assert_eq!(config(0, 6, 3).check(), Err(InvalidUARTConfig::BaudRate));
    assert_eq!(config(9600, 9, 3).check(), Err(InvalidUARTConfig::DataBits));
    assert_eq!(config(9600, 7, 0).check(), Err(InvalidUARTConfig::StopBits));
}

#[test]
fn uart_config_native_codes() {
    let c = SerialConfig {
        baud_rate: 9600,
        data_bits: 7,
        parity: Parity::Even,
        stop_bits: 2,
        flow_control: FlowControl::XOnOff,
    };
    let n = c.to_native();
    assert_eq!(n.baud, 9600);
    assert_eq!(n.databits, 7);
    assert_eq!(n.parity, 'e' as u32);
    assert_eq!(n.stopbits, 2);
    assert_eq!(n.flowcontrol, 'x' as u32);
    let o = SerialConfig { parity: Parity::Odd, flow_control: FlowControl::Off, ..c }.to_native();
    assert_eq!(o.parity, 'o' as u32);
    assert_eq!(o.flowcontrol, 'n' as u32);
    assert_eq!(config(9600, 8, 1).to_native().parity, 'n' as u32);
}

#[test]
fn registry_insert_contains_remove() {
    let mut r: Registry<i32> = Registry::new();
    assert!(!r.contains(&4));
    r.insert(4);
    r.insert(9);
    assert!(r.contains(&4));
    assert!(r.contains(&9));
    r.remove(&4);
    assert!(!r.contains(&4));
    assert!(r.contains(&9));
    let mut p: Registry<(String, i32)> = Registry::new();
    p.insert(("/dev/i2c-1".to_string(), 0x50));
    assert!(p.contains(&("/dev/i2c-1".to_string(), 0x50)));
    assert!(!p.contains(&("/dev/i2c-1".to_string(), 0x51)));
    assert!(!p.contains(&("/dev/i2c-0".to_string(), 0x50)));
}

#[test]
fn gpio_second_claim_fails_until_release() {
    let mut wx = WiringX::new(Platform::RaspberryPi4);
    let pin = wx.gpio_pin::<Output>(17, true).unwrap();
    assert_eq!(pin.number(), 17);
    assert_eq!(wx.gpio_pin::<Output>(17, true).unwrap_err(), WiringXError::PinUsed);
    assert_eq!(wx.gpio_pin::<Input>(17, true).unwrap_err(), WiringXError::PinUsed);
    wx.release_gpio(pin);
    let again = wx.gpio_pin::<Input>(17, true).unwrap();
    assert_eq!(again.number(), 17);
}

#[test]
fn gpio_invalid_pin_is_refused_without_claim() {
    let mut wx = WiringX::new(Platform::RaspberryPi4);
    assert_eq!(wx.gpio_pin::<Input>(99, false).unwrap_err(), WiringXError::InvalidPin);
    assert!(wx.gpio_pin::<Input>(99, true).is_ok());
}

#[test]
fn gpio_levels_and_modes() {
    let mut wx = WiringX::new(Platform::MilkVDuo);
    let out = wx.gpio_pin::<Output>(1, true).unwrap();
    assert_eq!(out.write(Value::High), 1);
    assert_eq!(out.write(Value::Low), 0);
    let inp = wx.gpio_pin::<Input>(2, true).unwrap();
    assert_eq!(inp.read(1), Value::High);
    assert_eq!(inp.read(0), Value::Low);
    assert_eq!(inp.read(-1), Value::Low);
    assert_eq!(inp.set_isr_mode(0), Ok(()));
    assert_eq!(inp.set_isr_mode(-1), Err(WiringXError::Unsupported));
    assert_eq!(IsrMode::Unknown.code(), 0);
    assert_eq!(IsrMode::Rising.code(), 2);
    assert_eq!(IsrMode::Falling.code(), 4);
    assert_eq!(IsrMode::Both.code(), 8);
    assert_eq!(IsrMode::Off.code(), 16);
    assert_eq!(Input::direction(), Direction::Input);
    assert_eq!(Output::direction(), Direction::Output);
}

#[test]
fn gpio_wait_times_out_within_bound() {
    let mut wx = WiringX::new(Platform::MilkVDuo);
    let inp = wx.gpio_pin::<Input>(3, true).unwrap();
    assert!(matches!(inp.wait_for_interrupt(0), Err(InterruptTimeOut)));
    assert!(matches!(inp.wait_for_interrupt(-1), Err(InterruptTimeOut)));
    assert!(inp.wait_for_interrupt(1).is_ok());
    assert_eq!(wiringx::gpio::Pin::<Input>::wait_millis(250), 250);
    assert_eq!(wiringx::gpio::Pin::<Input>::wait_millis(0), 0);
    assert_eq!(wiringx::gpio::Pin::<Input>::wait_millis(u128::MAX), i32::MAX);
    assert_eq!(wiringx::gpio::Pin::<Input>::wait_millis(1 << 31), i32::MAX);
}

#[test]
fn selectable_fd_outcomes() {
    let wx = WiringX::new(Platform::RaspberryPi3);
    assert!(wx.valid_gpio(0));
    assert!(!wx.valid_gpio(-1));
    assert_eq!(wx.selectable_fd(false, 7, 0), Err(WiringXError::InvalidPin));
    assert_eq!(wx.selectable_fd(true, -1, 5), Err(WiringXError::Io(5)));
    assert_eq!(wx.selectable_fd(true, 7, 0), Ok(7));
}

#[test]
fn pwm_claims() {
    let mut wx = WiringX::new(Platform::MilkVDuo);
    assert_eq!(wx.pwm_available(4), Ok(()));
    assert_eq!(wx.pwm_pin(4, -1).unwrap_err(), WiringXError::Unsupported);
    let pwm = wx.pwm_pin(4, 0).unwrap();
    assert_eq!(pwm.number(), 4);
    assert_eq!(wx.pwm_available(4), Err(WiringXError::PinUsed));
    assert_eq!(wx.pwm_pin(4, 0).unwrap_err(), WiringXError::PinUsed);
    assert_eq!(pwm.set_pwm_period(0), Ok(()));
    assert_eq!(pwm.set_pwm_duty(-1), Err(WiringXError::Unsupported));
    assert_eq!(pwm.set_pwm_polarity(-5), Err(WiringXError::Unsupported));
    wx.release_pwm(pwm);
    assert_eq!(wx.pwm_available(4), Ok(()));
    assert!(wx.pwm_pin(4, 1).is_ok());
}

#[test]
fn pwm_codes_and_durations() {
    assert_eq!(Polarity::Normal.code(), 0);
    assert_eq!(Polarity::Inversed.code(), 1);
    assert_eq!(PwmPin::native_nanos(1_000_000), 1_000_000);
    assert_eq!(PwmPin::native_nanos(u128::MAX), i64::MAX);
    assert_eq!(native_outcome(3), Ok(()));
    assert_eq!(native_outcome(-2), Err(WiringXError::Unsupported));
}

#[test]
fn i2c_distinct_addresses_coexist() {
    let mut wx = WiringX::new(Platform::RaspberryPi4);
    let a = wx.setup_i2c("/dev/i2c-1".to_string(), 0x50, 3).unwrap();
    let b = wx.setup_i2c("/dev/i2c-1".to_string(), 0x51, 4).unwrap();
    assert_eq!(a.address(), 0x50);
    assert_eq!(b.address(), 0x51);
    assert_eq!(a.path(), "/dev/i2c-1");
    assert_eq!(b.fd(), 4);
    assert_eq!(
        wx.setup_i2c("/dev/i2c-1".to_string(), 0x50, 5).unwrap_err(),
        WiringXError::PinUsed
    );
    assert_eq!(wx.i2c_available("/dev/i2c-1", 0x50), Err(WiringXError::PinUsed));
    assert!(wx.setup_i2c("/dev/i2c-0".to_string(), 0x50, 6).is_ok());
    wx.release_i2c(a);
    assert_eq!(wx.i2c_available("/dev/i2c-1", 0x50), Ok(()));
}

#[test]
fn i2c_claim_failures() {
    let mut wx = WiringX::new(Platform::RaspberryPi4);
    assert_eq!(wx.i2c_available("/dev/i2c\0-1", 0x20), Err(WiringXError::InvalidPath));
    assert_eq!(
        wx.setup_i2c("/dev/i2c\0-1".to_string(), 0x20, 3).unwrap_err(),
        WiringXError::InvalidPath
    );
    assert_eq!(
        wx.setup_i2c("/dev/i2c-1".to_string(), 0x20, -1).unwrap_err(),
        WiringXError::Unsupported
    );
    assert!(wx.setup_i2c("/dev/i2c-1".to_string(), 0x20, 3).is_ok());
}

#[test]
fn i2c_transfer_outcomes() {
    let mut wx = WiringX::new(Platform::RaspberryPi4);
    let d = wx.setup_i2c("/dev/i2c-1".to_string(), 0x50, 3).unwrap();
    assert_eq!(d.read(0x7f), Ok(0x7f));
    assert_eq!(d.read(300), Ok(44));
    assert_eq!(d.read(-1), Err(I2CError::Read));
    assert_eq!(d.read_reg8(255), Ok(255));
    assert_eq!(d.read_reg8(-3), Err(I2CError::Read));
    assert_eq!(d.read_reg16(0x1234), Ok(0x1234));
    assert_eq!(d.read_reg16(70000), Ok(4464));
    assert_eq!(d.read_reg16(-1), Err(I2CError::Read));
    assert_eq!(d.write(0), Ok(()));
    assert_eq!(d.write(-1), Err(I2CError::Write));
    assert_eq!(d.write_reg8(1), Ok(()));
    assert_eq!(d.write_reg8(-1), Err(I2CError::Write));
    assert_eq!(d.write_reg16(2), Ok(()));
    assert_eq!(d.write_reg16(-1), Err(I2CError::Write));
}

#[test]
fn spi_claims() {
    let mut wx = WiringX::new(Platform::RaspberryPi4);
    assert_eq!(wx.spi_available(0, 1_000_000), Ok(()));
    assert_eq!(wx.spi_available(0, 3_000_000_000), Err(WiringXError::Unsupported));
    assert_eq!(wx.setup_spi(0, 1_000_000, -1).unwrap_err(), WiringXError::Unsupported);
    let spi = wx.setup_spi(0, 1_000_000, 0).unwrap();
    assert_eq!(spi.channel(), 0);
    assert_eq!(spi.speed(), 1_000_000);
    assert_eq!(wx.setup_spi(0, 500_000, 0).unwrap_err(), WiringXError::PinUsed);
    assert!(wx.setup_spi(1, 500_000, 0).is_ok());
    wx.release_spi(spi);
    assert!(wx.setup_spi(0, 500_000, 0).is_ok());
}

#[test]
fn spi_transfer_keeps_length() {
    let mut wx = WiringX::new(Platform::RaspberryPi4);
    let spi = wx.setup_spi(0, 1_000_000, 0).unwrap();
    let mut data = vec![1u8, 2, 3, 4];
    assert_eq!(spi.read_write(&mut data, &[9, 8, 7, 6], 0), Ok(()));
    assert_eq!(data, vec![9, 8, 7, 6]);
    assert_eq!(spi.read_write(&mut data, &[0, 0, 0, 0], -1), Err(WiringXError::Transfer));
    assert_eq!(data, vec![9, 8, 7, 6]);
    let mut empty: Vec<u8> = Vec::new();
    assert_eq!(spi.read_write(&mut empty, &[], 0), Ok(()));
    assert!(empty.is_empty());
    assert_eq!(spi.transfer_len(4), Ok(4));
    assert_eq!(spi.transfer_len(usize::MAX), Err(WiringXError::Transfer));
}

#[test]
fn uart_claims() {
    let mut wx = WiringX::new(Platform::MilkVDuoS);
    let good = config(115200, 8, 1);
    let bad = config(57601, 8, 1);
    assert_eq!(
        wx.setup_uart("/dev/ttyS1".to_string(), &bad, 3).unwrap_err(),
        WiringXError::InvalidUARTConfig(InvalidUARTConfig::BaudRate)
    );
    let port = wx.setup_uart("/dev/ttyS1".to_string(), &good, 3).unwrap();
    assert_eq!(port.fd(), 3);
    assert_eq!(port.path(), "/dev/ttyS1");
    assert_eq!(wx.uart_available("/dev/ttyS1", &good), Err(WiringXError::PinUsed));
    assert_eq!(
        wx.uart_available("/dev/ttyS1", &bad),
        Err(WiringXError::InvalidUARTConfig(InvalidUARTConfig::BaudRate))
    );
    assert_eq!(
        wx.setup_uart("/dev/ttyS1".to_string(), &good, 4).unwrap_err(),
        WiringXError::PinUsed
    );
    assert_eq!(
        wx.setup_uart("/dev/ttyS2".to_string(), &good, -1).unwrap_err(),
        WiringXError::Unsupported
    );
    assert_eq!(wx.uart_available("/dev/tty\0S2", &good), Err(WiringXError::InvalidPath));
    wx.release_uart(port);
    assert_eq!(wx.uart_available("/dev/ttyS1", &good), Ok(()));
}

#[test]
fn uart_port_values() {
    let mut wx = WiringX::new(Platform::MilkVDuoS);
    let port = wx.setup_uart("/dev/ttyS0".to_string(), &config(9600, 8, 1), 5).unwrap();
    assert_eq!(port.put_char('A'), 65);
    assert_eq!(port.put_char('é'), 233);
    assert_eq!(port.put_char('\u{141}'), 0x41);
    assert!(port.put_string("hello"));
    assert!(!port.put_string("he\0llo"));
    assert_eq!(port.data_available(12), 12);
    assert_eq!(port.data_available(-1), 0);
    assert_eq!(port.read_char(65), 'A');
    assert_eq!(port.read_char(233), 'é');
    assert_eq!(port.read_char(-1), '\0');
    assert!(contains_nul("a\0"));
    assert!(!contains_nul(""));
}

#[test]
fn initialization_first_call_wins() {
    let mut s = Setup::new();
    assert!(s.needs_native_setup());
    assert_eq!(s.initialize(Platform::RaspberryPi3, 0).unwrap(), Platform::RaspberryPi3);
    assert!(!s.needs_native_setup());
    assert_eq!(s.initialize(Platform::RaspberryPi3, 0).unwrap(), Platform::RaspberryPi3);
    assert_eq!(s.initialize(Platform::MilkVDuo, 0).unwrap(), Platform::RaspberryPi3);
    assert_eq!(s.initialize(Platform::MilkVDuo, -1).unwrap(), Platform::RaspberryPi3);
}

#[test]
fn initialization_failure_sticks() {
    let mut s = Setup::new();
    assert!(matches!(s.initialize(Platform::Rock4, -1), Err(WiringXError::InitError(_))));
    assert!(!s.needs_native_setup());
    assert!(matches!(s.initialize(Platform::Rock4, 0), Err(WiringXError::InitError(_))));
}

#[test]
fn controller_reports_platform() {
    let wx = WiringX::new(Platform::OrangePiPC2);
    assert_eq!(wx.platform(), Platform::OrangePiPC2);
}
