//! Typed, exclusive access to the GPIO, PWM, I2C, SPI and UART buses of
//! single-board computers driven by the wiringX native library.

pub mod gpio;
pub mod i2c;
pub mod platform;
pub mod pwm;
pub mod registry;
pub mod spi;
pub mod uart;

use vstd::prelude::*;

use crate::gpio::{Pin, PinState};
use crate::i2c::I2C;
use crate::platform::Platform;
use crate::pwm::PwmPin;
use crate::registry::Registry;
use crate::spi::Spi;
use crate::uart::{config_check, contains_nul, has_nul, InvalidUARTConfig, SerialConfig, Uart};

verus! {

/// Errors of the controller and of the bus handles.
#[derive(Debug, PartialEq, Eq)]
pub enum WiringXError {
    /// The native library could not be set up for the board.
    InitError(String),
    /// An unexpected error.
    Other(String),
    /// The pin does not exist on this board.
    InvalidPin,
    /// The resource is held by a live handle.
    PinUsed,
    /// A pin was asked for with a direction other than input or output.
    InvalidStateType,
    /// The board or the resource lacks the capability.
    Unsupported,
    /// An operating system error, by its number.
    Io(i32),
    /// A device path the native library cannot take.
    InvalidPath,
    /// A serial configuration with an unsupported setting.
    InvalidUARTConfig(InvalidUARTConfig),
    /// A bus transfer failed.
    Transfer,
}


/// The outcome of a native call that reports failure by a negative status.
pub fn native_outcome(status: i32) -> (r: Result<(), WiringXError>)
    ensures
        r == (if status < 0 { Err(WiringXError::Unsupported) } else { Ok(()) }),
{
    if status < 0 {
        Err(WiringXError::Unsupported)
    } else {
        Ok(())
    }
}


/// The refusal that a native status carries: a negative one means the board
/// lacks the capability.
pub open spec fn status_refusal(status: i32) -> Option<WiringXError> {
    if status < 0 {
        Some(WiringXError::Unsupported)
    } else {
        None
    }
}

/// The outcome of claiming `id` from the set `held` of claimed identifiers,
/// where `refusal` is what the board says against it, if anything. A claimed
/// identifier is refused first.
pub open spec fn claim_outcome<K>(held: Set<K>, id: K, refusal: Option<WiringXError>) -> Result<
    (),
    WiringXError,
> {
    if held.contains(id) {
        Err(WiringXError::PinUsed)
    } else {
        match refusal {
            Some(e) => Err(e),
            None => Ok(()),
        }
    }
}

/// The claimed identifiers after a claim of `id` with the given outcome.
pub open spec fn after_claim<K>(held: Set<K>, id: K, outcome: Result<(), WiringXError>) -> Set<K> {
    if outcome is Ok {
        held.insert(id)
    } else {
        held
    }
}

/// A result with its success value dropped.
pub open spec fn unit<T>(r: Result<T, WiringXError>) -> Result<(), WiringXError> {
    match r {
        Ok(_) => Ok(()),
        Err(e) => Err(e),
    }
}

/// Claiming a GPIO pin, which the board says is `valid` or not.
pub open spec fn gpio_claim(held: Set<i32>, pin: i32, valid: bool) -> Result<(), WiringXError> {
    claim_outcome(held, pin, if valid { None } else { Some(WiringXError::InvalidPin) })
}

/// Claiming a PWM pin, whose native enable returned `status`.
pub open spec fn pwm_claim(held: Set<i32>, pin: i32, status: i32) -> Result<(), WiringXError> {
    claim_outcome(held, pin, status_refusal(status))
}

/// The greatest SPI speed, in Hertz, that the native library takes.
pub const MAX_SPI_SPEED: u32 = 2147483647;

/// Claiming an SPI channel at `speed` Hertz, whose native setup returned `status`.
pub open spec fn spi_claim(held: Set<i32>, channel: i32, speed: u32, status: i32) -> Result<
    (),
    WiringXError,
> {
    claim_outcome(
        held,
        channel,
        if speed > MAX_SPI_SPEED {
            Some(WiringXError::Unsupported)
        } else {
            status_refusal(status)
        },
    )
}

/// The refusal of a device path, or else of the native open that returned `fd`.
pub open spec fn path_refusal(path: Seq<char>, fd: i32) -> Option<WiringXError> {
    if has_nul(path) {
        Some(WiringXError::InvalidPath)
    } else {
        status_refusal(fd)
    }
}

/// Claiming the I2C device `addr` on the bus at `path`, whose native open returned `fd`.
pub open spec fn i2c_claim(held: Set<(Seq<char>, i32)>, path: Seq<char>, addr: i32, fd: i32) -> Result<
    (),
    WiringXError,
> {
    claim_outcome(held, (path, addr), path_refusal(path, fd))
}

/// Claiming the serial port at `path` with `config`, whose native open
/// returned `fd`. The configuration is checked before anything else.
pub open spec fn uart_claim(held: Set<Seq<char>>, path: Seq<char>, config: SerialConfig, fd: i32) -> Result<
    (),
    WiringXError,
> {
    match config_check(config) {
        Err(e) => Err(WiringXError::InvalidUARTConfig(e)),
        Ok(_) => claim_outcome(held, path, path_refusal(path, fd)),
    }
}

/// What a controller holds: its board and the claimed identifiers of each bus kind.
pub struct WiringXView {
    pub platform: Platform,
    pub gpio: Set<i32>,
    pub pwm: Set<i32>,
    pub i2c: Set<(Seq<char>, i32)>,
    pub spi: Set<i32>,
    pub uart: Set<Seq<char>>,
}

/// The controller of one board: it hands out a handle for each resource that
/// no live handle holds, and takes the resource back when the handle is released.
#[derive(Debug)]
pub struct WiringX {
    platform: Platform,
    gpio_handles: Registry<i32>,
    pwm_handles: Registry<i32>,
    i2c_handles: Registry<(String, i32)>,
    spi_handles: Registry<i32>,
    uart_handles: Registry<String>,
}

impl View for WiringX {
    type V = WiringXView;

    closed spec fn view(&self) -> WiringXView {
        WiringXView {
            platform: self.platform,
            gpio: self.gpio_handles@,
            pwm: self.pwm_handles@,
            i2c: self.i2c_handles@,
            spi: self.spi_handles@,
            uart: self.uart_handles@,
        }
    }
}

impl WiringX {
    /// A controller for `platform` with nothing claimed.
    pub fn new(platform: Platform) -> (r: WiringX)
        ensures
            r@.platform == platform,
            r@.gpio == Set::<i32>::empty(),
            r@.pwm == Set::<i32>::empty(),
            r@.i2c == Set::<(Seq<char>, i32)>::empty(),
            r@.spi == Set::<i32>::empty(),
            r@.uart == Set::<Seq<char>>::empty(),
    {
        WiringX {
            platform,
            gpio_handles: Registry::new(),
            pwm_handles: Registry::new(),
            i2c_handles: Registry::new(),
            spi_handles: Registry::new(),
            uart_handles: Registry::new(),
        }
    }

    /// Returns the board this controller was set up for.
    pub fn platform(&self) -> (r: Platform)
        ensures
            r == self@.platform,
    {
        self.platform
    }

    /// Whether a pin is valid, from the status of the native query: zero means valid.
    pub fn valid_gpio(&self, status: i32) -> (r: bool)
        ensures
            r == (status == 0),
    {
        status == 0
    }

    /// The pollable descriptor of a pin, from whether the pin is `valid` and
    /// the descriptor `fd` that the native call returned, with the operating
    /// system's error number `errno` for a failed call.
    pub fn selectable_fd(&self, valid: bool, fd: i32, errno: i32) -> (r: Result<i32, WiringXError>)
        ensures
            !valid ==> r == Err::<i32, WiringXError>(WiringXError::InvalidPin),
            valid && fd < 0 ==> r == Err::<i32, WiringXError>(WiringXError::Io(errno)),
            valid && fd >= 0 ==> r == Ok::<i32, WiringXError>(fd),
    {
        if !valid {
            Err(WiringXError::InvalidPin)
        } else if fd < 0 {
            Err(WiringXError::Io(errno))
        } else {
            Ok(fd)
        }
    }

    /// Claims GPIO pin `pin_number` in the direction `S`, where the board says
    /// whether the pin is `valid`. On success the caller sets the pin's
    /// direction in hardware.
    pub fn gpio_pin<S: PinState>(&mut self, pin_number: i32, valid: bool) -> (r: Result<
        Pin<S>,
        WiringXError,
    >)
        ensures
            unit(r) == gpio_claim(old(self)@.gpio, pin_number, valid),
            r matches Ok(p) ==> p@ == pin_number,
            final(self)@ == (WiringXView {
                gpio: after_claim(old(self)@.gpio, pin_number, unit(r)),
                ..old(self)@
            }),
    {
        if self.gpio_handles.contains(&pin_number) {
            return Err(WiringXError::PinUsed);
        }
        if !valid {
            return Err(WiringXError::InvalidPin);
        }
        self.gpio_handles.insert(pin_number);
        Ok(Pin::new(pin_number))
    }

    /// Releases a GPIO pin. Its hardware direction is left as it is.
    pub fn release_gpio<S>(&mut self, pin: Pin<S>)
        ensures
            final(self)@ == (WiringXView { gpio: old(self)@.gpio.remove(pin@), ..old(self)@ }),
    {
        let n = pin.number();
        self.gpio_handles.remove(&n);
    }

    /// Whether PWM pin `pin_number` may be enabled: it fails as a claim would,
    /// before the native enable.
    pub fn pwm_available(&self, pin_number: i32) -> (r: Result<(), WiringXError>)
        ensures
            r == pwm_claim(self@.pwm, pin_number, 0),
    {
        if self.pwm_handles.contains(&pin_number) {
            Err(WiringXError::PinUsed)
        } else {
            Ok(())
        }
    }

    /// Claims PWM pin `pin_number`, whose native enable returned `status`.
    pub fn pwm_pin(&mut self, pin_number: i32, status: i32) -> (r: Result<PwmPin, WiringXError>)
        ensures
            unit(r) == pwm_claim(old(self)@.pwm, pin_number, status),
            r matches Ok(p) ==> p@ == pin_number,
            final(self)@ == (WiringXView {
                pwm: after_claim(old(self)@.pwm, pin_number, unit(r)),
                ..old(self)@
            }),
    {
        if self.pwm_handles.contains(&pin_number) {
            return Err(WiringXError::PinUsed);
        }
        if status < 0 {
            return Err(WiringXError::Unsupported);
        }
        self.pwm_handles.insert(pin_number);
        Ok(PwmPin::new(pin_number))
    }

    /// Releases a PWM pin; the caller disables its channel first.
    pub fn release_pwm(&mut self, pin: PwmPin)
        ensures
            final(self)@ == (WiringXView { pwm: old(self)@.pwm.remove(pin@), ..old(self)@ }),
    {
        let n = pin.number();
        self.pwm_handles.remove(&n);
    }

    /// Whether the I2C device `addr` on the bus at `path` may be opened: it
    /// fails as a claim would, before the native open.
    pub fn i2c_available(&self, path: &str, addr: i32) -> (r: Result<(), WiringXError>)
        ensures
            r == i2c_claim(self@.i2c, path@, addr, 0),
    {
        let key = (String::from_str(path), addr);
        if self.i2c_handles.contains(&key) {
            Err(WiringXError::PinUsed)
        } else if contains_nul(path) {
            Err(WiringXError::InvalidPath)
        } else {
            Ok(())
        }
    }

    /// Claims the I2C device `addr` on the bus at `path`, whose native open
    /// returned the descriptor `fd`.
    pub fn setup_i2c(&mut self, path: String, addr: i32, fd: i32) -> (r: Result<I2C, WiringXError>)
        ensures
            unit(r) == i2c_claim(old(self)@.i2c, path@, addr, fd),
            r matches Ok(d) ==> d@ == (path@, addr, fd),
            final(self)@ == (WiringXView {
                i2c: after_claim(old(self)@.i2c, (path@, addr), unit(r)),
                ..old(self)@
            }),
    {
        let key = (path.clone(), addr);
        if self.i2c_handles.contains(&key) {
            return Err(WiringXError::PinUsed);
        }
        if contains_nul(path.as_str()) {
            return Err(WiringXError::InvalidPath);
        }
        if fd < 0 {
            return Err(WiringXError::Unsupported);
        }
        self.i2c_handles.insert(key);
        Ok(I2C::new(path, addr, fd))
    }

    /// Releases an I2C device.
    pub fn release_i2c(&mut self, device: I2C)
        ensures
            final(self)@ == (WiringXView {
                i2c: old(self)@.i2c.remove((device@.0, device@.1)),
                ..old(self)@
            }),
    {
        let key = (String::from_str(device.path()), device.address());
        self.i2c_handles.remove(&key);
    }

    /// Whether SPI channel `channel` may be set up at `speed` Hertz: it fails
    /// as a claim would, before the native setup. A speed beyond what the
    /// native library takes is unsupported.
    pub fn spi_available(&self, channel: i32, speed: u32) -> (r: Result<(), WiringXError>)
        ensures
            r == spi_claim(self@.spi, channel, speed, 0),
    {
        if self.spi_handles.contains(&channel) {
            Err(WiringXError::PinUsed)
        } else if speed > MAX_SPI_SPEED {
            Err(WiringXError::Unsupported)
        } else {
            Ok(())
        }
    }

    /// Claims SPI channel `channel` at `speed` Hertz, whose native setup
    /// returned `status`.
    pub fn setup_spi(&mut self, channel: i32, speed: u32, status: i32) -> (r: Result<Spi, WiringXError>)
        ensures
            unit(r) == spi_claim(old(self)@.spi, channel, speed, status),
            r matches Ok(s) ==> s@ == (channel, speed as i32),
            final(self)@ == (WiringXView {
                spi: after_claim(old(self)@.spi, channel, unit(r)),
                ..old(self)@
            }),
    {
        if self.spi_handles.contains(&channel) {
            return Err(WiringXError::PinUsed);
        }
        if speed > MAX_SPI_SPEED || status < 0 {
            return Err(WiringXError::Unsupported);
        }
        self.spi_handles.insert(channel);
        Ok(Spi::new(channel, speed as i32))
    }

    /// Releases an SPI channel.
    pub fn release_spi(&mut self, spi: Spi)
        ensures
            final(self)@ == (WiringXView { spi: old(self)@.spi.remove(spi@.0), ..old(self)@ }),
    {
        let c = spi.channel();
        self.spi_handles.remove(&c);
    }

    /// Whether the serial port at `path` may be opened with `config`: it fails
    /// as a claim would, before the native open.
    pub fn uart_available(&self, path: &str, config: &SerialConfig) -> (r: Result<(), WiringXError>)
        ensures
            r == uart_claim(self@.uart, path@, *config, 0),
    {
        match config.check() {
            Err(e) => Err(WiringXError::InvalidUARTConfig(e)),
            Ok(()) => {
                let key = String::from_str(path);
                if self.uart_handles.contains(&key) {
                    Err(WiringXError::PinUsed)
                } else if contains_nul(path) {
                    Err(WiringXError::InvalidPath)
                } else {
                    Ok(())
                }
            },
        }
    }

    /// Claims the serial port at `path` with `config`, whose native open
    /// returned the descriptor `fd`.
    pub fn setup_uart(&mut self, path: String, config: &SerialConfig, fd: i32) -> (r: Result<
        Uart,
        WiringXError,
    >)
        ensures
            unit(r) == uart_claim(old(self)@.uart, path@, *config, fd),
            r matches Ok(u) ==> u@ == (fd, path@),
            final(self)@ == (WiringXView {
                uart: after_claim(old(self)@.uart, path@, unit(r)),
                ..old(self)@
            }),
    {
        if let Err(e) = config.check() {
            return Err(WiringXError::InvalidUARTConfig(e));
        }
        if self.uart_handles.contains(&path) {
            return Err(WiringXError::PinUsed);
        }
        if contains_nul(path.as_str()) {
            return Err(WiringXError::InvalidPath);
        }
        if fd < 0 {
            return Err(WiringXError::Unsupported);
        }
        let key = path.clone();
        self.uart_handles.insert(key);
        Ok(Uart::new(fd, path))
    }

    /// Releases a serial port; the caller closes its descriptor first.
    pub fn release_uart(&mut self, uart: Uart)
        ensures
            final(self)@ == (WiringXView { uart: old(self)@.uart.remove(uart@.1), ..old(self)@ }),
    {
        let key = String::from_str(uart.path());
        self.uart_handles.remove(&key);
    }
}


/// A claim that succeeded leaves its identifier claimed: claiming the same
/// identifier again is refused as in use, whatever the board says of it, and
/// stays refused while other identifiers are claimed and released.
pub proof fn lemma_claim_then_claim_again_fails<K>(
    held: Set<K>,
    id: K,
    first: Option<WiringXError>,
    second: Option<WiringXError>,
)
    requires
        claim_outcome(held, id, first) is Ok,
    ensures
        claim_outcome(after_claim(held, id, claim_outcome(held, id, first)), id, second)
            == Err::<(), WiringXError>(WiringXError::PinUsed),
        forall|other: K, r: Option<WiringXError>|
            other != id ==> claim_outcome(
                #[trigger] after_claim(
                    after_claim(held, id, claim_outcome(held, id, first)),
                    other,
                    claim_outcome(held.insert(id), other, r),
                ),
                id,
                second,
            ) == Err::<(), WiringXError>(WiringXError::PinUsed),
        forall|other: K|
            other != id ==> claim_outcome(
                #[trigger] after_claim(held, id, claim_outcome(held, id, first)).remove(other),
                id,
                second,
            ) == Err::<(), WiringXError>(WiringXError::PinUsed),
{
}

/// Once the handle of an identifier is released, claiming it again succeeds
/// unless the board refuses it.
pub proof fn lemma_release_then_claim_succeeds<K>(
    held: Set<K>,
    id: K,
    refusal: Option<WiringXError>,
)
    ensures
        claim_outcome(held.remove(id), id, refusal) == (match refusal {
            Some(e) => Err(e),
            None => Ok(()),
        }),
{
}

/// A claim does not change the outcome of a claim of another identifier: two
/// distinct identifiers can be held at once.
pub proof fn lemma_distinct_claims_independent<K>(
    held: Set<K>,
    a: K,
    b: K,
    ra: Option<WiringXError>,
    rb: Option<WiringXError>,
)
    requires
        a != b,
    ensures
        claim_outcome(after_claim(held, a, claim_outcome(held, a, ra)), b, rb) == claim_outcome(
            held,
            b,
            rb,
        ),
{
}

/// Where the one-time setup of the native library stands.
#[derive(Debug, Clone, Copy, PartialEq, Eq, Structural)]
pub enum InitState {
    /// Not attempted yet.
    Pending,
    /// Set up for this board.
    Ready(Platform),
    /// The first attempt failed.
    Failed,
}

/// The state after an initialization for `platform` whose native setup
/// returned `status`: only the first one counts.
pub open spec fn init_step(s: InitState, platform: Platform, status: i32) -> InitState {
    match s {
        InitState::Pending => if status == 0 {
            InitState::Ready(platform)
        } else {
            InitState::Failed
        },
        _ => s,
    }
}

/// The board that a setup state observes, if it succeeded.
pub open spec fn init_platform(s: InitState) -> Option<Platform> {
    match s {
        InitState::Ready(p) => Some(p),
        _ => None,
    }
}

/// The one-time setup of the native library: the first initialization
/// decides, and every later one observes its outcome.
#[derive(Debug)]
pub struct Setup {
    state: InitState,
}

impl View for Setup {
    type V = InitState;

    closed spec fn view(&self) -> InitState {
        self.state
    }
}

impl Setup {
    /// A setup not attempted yet.
    pub fn new() -> (r: Setup)
        ensures
            r@ == InitState::Pending,
    {
        Setup { state: InitState::Pending }
    }

    /// Whether the native setup has still to be run.
    pub fn needs_native_setup(&self) -> (r: bool)
        ensures
            r == (self@ == InitState::Pending),
    {
        match self.state {
            InitState::Pending => true,
            _ => false,
        }
    }

    /// Initializes for `platform`, where `status` is what the native setup
    /// returned if it ran (zero for success); returns the board set up, or the
    /// failure of the first attempt.
    pub fn initialize(&mut self, platform: Platform, status: i32) -> (r: Result<Platform, WiringXError>)
        ensures
            final(self)@ == init_step(old(self)@, platform, status),
            r matches Ok(p) ==> init_platform(final(self)@) == Some(p),
            r matches Err(e) ==> init_platform(final(self)@) is None && e matches WiringXError::InitError(_),
            init_platform(final(self)@) is None ==> r is Err,
    {
        if let InitState::Pending = self.state {
            if status == 0 {
                self.state = InitState::Ready(platform);
            } else {
                self.state = InitState::Failed;
            }
        }
        match self.state {
            InitState::Ready(p) => Ok(p),
            _ => Err(WiringXError::InitError(String::from_str("Failed to initialize WiringX"))),
        }
    }
}

/// Initialization is idempotent: a second initialization, for any board,
/// changes nothing and observes the outcome of the first.
pub proof fn lemma_initialize_first_wins(
    s: InitState,
    a: Platform,
    status_a: i32,
    b: Platform,
    status_b: i32,
)
    ensures
        init_step(init_step(s, a, status_a), b, status_b) == init_step(s, a, status_a),
        s == InitState::Pending && status_a == 0 ==> init_platform(
            init_step(init_step(s, a, status_a), b, status_b),
        ) == Some(a),
{
}

} // verus!
