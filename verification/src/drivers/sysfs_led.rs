//! The LED controller: a mode-switch pin and a PWM channel for the
//! brightness.

use vstd::prelude::*;
use vstd::string::StringExecFns;
use crate::capabilities::LEDMode;
use crate::config::ConfigError;
use crate::device::DeviceError;
use crate::drivers::invalid_state;
use crate::text::joined;

verus! {

/// How the LED controller is wired and what it starts with. The default
/// brightness, a fraction, is kept by the caller, beside this.
#[derive(Debug, Clone, Copy, PartialEq, Eq, Structural)]
pub struct SysfsLedControllerConfig {
    pub brightness_pwm_channel: u8,
    pub mode_switch_pin: u8,
    pub default_mode: LEDMode,
    pub default_power_state_on: bool,
    pub power_on_gpio_state: u8,
    pub power_off_gpio_state: u8,
    pub ir_mode_gpio_state: u8,
    pub vis_mode_gpio_state: u8,
    pub pwm_period: u32,
    pub pwm_0_brightness_duty_cycle: u32,
    pub pwm_100_brightness_duty_cycle: u32,
}

impl Default for SysfsLedControllerConfig {
    fn default() -> (config: Self)
        ensures
            config == (SysfsLedControllerConfig {
                brightness_pwm_channel: 0,
                mode_switch_pin: 0,
                default_mode: LEDMode::Visible,
                default_power_state_on: true,
                power_on_gpio_state: 1,
                power_off_gpio_state: 0,
                ir_mode_gpio_state: 0,
                vis_mode_gpio_state: 1,
                pwm_period: 100,
                pwm_0_brightness_duty_cycle: 0,
                pwm_100_brightness_duty_cycle: 100,
            }),
    {
        Self {
            brightness_pwm_channel: 0,
            mode_switch_pin: 0,
            default_mode: LEDMode::Visible,
            default_power_state_on: true,
            power_on_gpio_state: 1,
            power_off_gpio_state: 0,
            ir_mode_gpio_state: 0,
            vis_mode_gpio_state: 1,
            pwm_period: 100,
            pwm_0_brightness_duty_cycle: 0,
            pwm_100_brightness_duty_cycle: 100,
        }
    }
}

impl SysfsLedControllerConfig {
    /// Whether the wiring tells the two power states, the two modes and
    /// the two ends of the brightness scale apart, and has a period.
    pub open spec fn valid(self) -> bool {
        &&& self.power_off_gpio_state != self.power_on_gpio_state
        &&& self.ir_mode_gpio_state != self.vis_mode_gpio_state
        &&& self.pwm_period != 0
        &&& self.pwm_0_brightness_duty_cycle != self.pwm_100_brightness_duty_cycle
    }

    /// The level of the mode-switch pin for `mode`.
    pub open spec fn spec_mode_state(self, mode: LEDMode) -> u8 {
        match mode {
            LEDMode::Visible => self.vis_mode_gpio_state,
            LEDMode::Infrared => self.ir_mode_gpio_state,
        }
    }
}

/// The state of the LED driver.
pub struct SysfsLedController {
    config: SysfsLedControllerConfig,
    mode_switch_open: bool,
    brightness_open: bool,
    mode: LEDMode,
    power_state_on: bool,
    is_loaded: bool,
}

/// The mathematical state of the driver.
pub struct LedState {
    pub config: SysfsLedControllerConfig,
    pub mode_switch_open: bool,
    pub brightness_open: bool,
    pub mode: LEDMode,
    pub power_state_on: bool,
    pub is_loaded: bool,
}

impl View for SysfsLedController {
    type V = LedState;

    closed spec fn view(&self) -> LedState {
        LedState {
            config: self.config,
            mode_switch_open: self.mode_switch_open,
            brightness_open: self.brightness_open,
            mode: self.mode,
            power_state_on: self.power_state_on,
            is_loaded: self.is_loaded,
        }
    }
}

/// What a stop has to close.
#[derive(Debug, Clone, Copy, PartialEq, Eq, Structural)]
pub struct UnloadPlan {
    pub close_mode_switch: bool,
    pub close_brightness: bool,
}

/// What has happened while the driver is being started.
#[derive(Debug, PartialEq)]
pub enum LoadEvent {
    /// The two controllers were asked for: whether the raw GPIO controller
    /// is there, and whether the PWM controller is.
    Controllers { raw: bool, pwm: bool },
    /// The mode-switch pin was asked for: it is open, or the controller
    /// complained.
    ModeSwitch(Result<(), String>),
    /// The brightness channel was asked for: it is open, or the controller
    /// complained.
    Brightness(Result<(), String>),
}

/// What is to be done next while the driver is being started.
#[derive(Debug, PartialEq)]
pub enum LoadAction {
    /// Open this pin as an output, for the mode switch.
    OpenModeSwitch(u8),
    /// Open this PWM channel, for the brightness.
    OpenBrightness(u8),
    /// Close the mode-switch pin again, then give up with this error.
    RollBack(DeviceError),
    /// Give up with this error; nothing is open.
    Fail(DeviceError),
    /// Both are open: enable the channel, book the load and apply the
    /// default mode, brightness and power state.
    Finish,
}

/// Whether `action` is what follows `event` for a driver wired as `config`
/// says. The raw GPIO controller is looked at before the PWM controller,
/// the mode-switch pin is opened before the brightness channel, and a
/// channel that does not open takes the pin back with it.
pub open spec fn load_step_is(config: SysfsLedControllerConfig, event: LoadEvent, action: LoadAction)
    -> bool {
    match event {
        LoadEvent::Controllers { raw, pwm } => if !raw {
            action matches LoadAction::Fail(DeviceError::MissingController(m)) && m@
                == "sysfs_raw"@
        } else if !pwm {
            action matches LoadAction::Fail(DeviceError::MissingController(m)) && m@
                == "sysfs_pwm"@
        } else {
            action == LoadAction::OpenModeSwitch(config.mode_switch_pin)
        },
        LoadEvent::ModeSwitch(Ok(())) => action == LoadAction::OpenBrightness(
            config.brightness_pwm_channel,
        ),
        LoadEvent::ModeSwitch(Err(complaint)) => action matches LoadAction::Fail(
            DeviceError::HardwareError(m),
        ) && m@ == "could not get mode switch pin: "@ + complaint@,
        LoadEvent::Brightness(Ok(())) => action == LoadAction::Finish,
        LoadEvent::Brightness(Err(complaint)) => action matches LoadAction::RollBack(
            DeviceError::HardwareError(m),
        ) && m@ == "could not get brightness control pwm channel: "@ + complaint@,
    }
}

fn invalid_entry(complaint: &str) -> (e: DeviceError)
    ensures
        e matches DeviceError::InvalidConfig(m) && m@ == "invalid config entry: "@ + complaint@,
{
    DeviceError::InvalidConfig(ConfigError::InvalidEntry(String::from_str(complaint)).to_string())
}

impl SysfsLedController {
    /// A driver over `config`, not loaded, in the default mode and power
    /// state.
    ///
    /// A wiring that is not valid is `InvalidConfig`: power states that
    /// overlap first, then modes, then a period of zero, then duty cycles
    /// that overlap.
    pub fn new(config: SysfsLedControllerConfig) -> (r: Result<Self, DeviceError>)
        ensures
            r is Ok <==> config.valid(),
            match r {
                Ok(d) => d@ == (LedState {
                    config,
                    mode_switch_open: false,
                    brightness_open: false,
                    mode: config.default_mode,
                    power_state_on: config.default_power_state_on,
                    is_loaded: false,
                }),
                Err(e) => e matches DeviceError::InvalidConfig(m) && m@ == "invalid config entry: "@
                    + (if config.power_off_gpio_state == config.power_on_gpio_state {
                    "GPIO values for power states overlap"@
                } else if config.ir_mode_gpio_state == config.vis_mode_gpio_state {
                    "GPIO values for modes overlap"@
                } else if config.pwm_period == 0 {
                    "PWM period must be greater than zero"@
                } else {
                    "PWM duty cycles overlap"@
                }),
            },
    {
        if config.power_off_gpio_state == config.power_on_gpio_state {
            return Err(invalid_entry("GPIO values for power states overlap"));
        }
        if config.ir_mode_gpio_state == config.vis_mode_gpio_state {
            return Err(invalid_entry("GPIO values for modes overlap"));
        }
        if config.pwm_period == 0 {
            return Err(invalid_entry("PWM period must be greater than zero"));
        }
        if config.pwm_0_brightness_duty_cycle == config.pwm_100_brightness_duty_cycle {
            return Err(invalid_entry("PWM duty cycles overlap"));
        }
        Ok(
            Self {
                config,
                mode_switch_open: false,
                brightness_open: false,
                mode: config.default_mode,
                power_state_on: config.default_power_state_on,
                is_loaded: false,
            },
        )
    }

    /// The driver's name.
    pub fn name(&self) -> (name: String)
        ensures
            name@ == "sysfs_generic_led"@,
    {
        String::from_str("sysfs_generic_led")
    }

    pub fn is_running(&self) -> (r: bool)
        ensures
            r == self@.is_loaded,
    {
        self.is_loaded
    }

    /// The wiring that the driver was made with.
    pub fn config(&self) -> (c: SysfsLedControllerConfig)
        ensures
            c == self@.config,
    {
        self.config
    }

    /// The next step of a start, after `event`.
    pub fn load_step(&self, event: LoadEvent) -> (action: LoadAction)
        ensures
            load_step_is(self@.config, event, action),
    {
        match event {
            LoadEvent::Controllers { raw, pwm } => {
                if !raw {
                    LoadAction::Fail(DeviceError::MissingController(String::from_str("sysfs_raw")))
                } else if !pwm {
                    LoadAction::Fail(DeviceError::MissingController(String::from_str("sysfs_pwm")))
                } else {
                    LoadAction::OpenModeSwitch(self.config.mode_switch_pin)
                }
            },
            LoadEvent::ModeSwitch(Ok(())) => LoadAction::OpenBrightness(
                self.config.brightness_pwm_channel,
            ),
            LoadEvent::ModeSwitch(Err(complaint)) => LoadAction::Fail(
                DeviceError::HardwareError(
                    joined("could not get mode switch pin: ", complaint.as_str()),
                ),
            ),
            LoadEvent::Brightness(Ok(())) => LoadAction::Finish,
            LoadEvent::Brightness(Err(complaint)) => LoadAction::RollBack(
                DeviceError::HardwareError(
                    joined("could not get brightness control pwm channel: ", complaint.as_str()),
                ),
            ),
        }
    }

    /// Books a start that went through: both the mode-switch pin and the
    /// brightness channel are open.
    pub fn load(&mut self)
        ensures
            final(self)@ == (LedState {
                mode_switch_open: true,
                brightness_open: true,
                is_loaded: true,
                ..old(self)@
            }),
    {
        self.mode_switch_open = true;
        self.brightness_open = true;
        self.is_loaded = true;
    }

    /// What a stop has to close. A driver that is not loaded is `Other`.
    pub fn check_unload(&self) -> (r: Result<UnloadPlan, DeviceError>)
        ensures
            self@.is_loaded ==> r == Ok::<UnloadPlan, DeviceError>(
                UnloadPlan {
                    close_mode_switch: self@.mode_switch_open,
                    close_brightness: self@.brightness_open,
                },
            ),
            !self@.is_loaded ==> (r matches Err(DeviceError::Other(m)) && m@
                == "device unload requested but this device isn't loaded"@),
    {
        if !self.is_loaded {
            return Err(
                DeviceError::Other(
                    String::from_str("device unload requested but this device isn't loaded"),
                ),
            );
        }
        Ok(
            UnloadPlan {
                close_mode_switch: self.mode_switch_open,
                close_brightness: self.brightness_open,
            },
        )
    }

    /// Books that the mode-switch pin is closed.
    pub fn mode_switch_closed(&mut self)
        ensures
            final(self)@ == (LedState { mode_switch_open: false, ..old(self)@ }),
    {
        self.mode_switch_open = false;
    }

    /// Books that the brightness channel is closed.
    pub fn brightness_closed(&mut self)
        ensures
            final(self)@ == (LedState { brightness_open: false, ..old(self)@ }),
    {
        self.brightness_open = false;
    }

    /// Books a stop that went through.
    pub fn unload(&mut self)
        ensures
            final(self)@ == (LedState { is_loaded: false, ..old(self)@ }),
    {
        self.is_loaded = false;
    }

    pub fn get_mode(&self) -> (r: Result<LEDMode, DeviceError>)
        ensures
            self@.is_loaded ==> r == Ok::<LEDMode, DeviceError>(self@.mode),
            !self@.is_loaded ==> (r matches Err(DeviceError::InvalidOperation(m)) && m@
                == "device is in an invalid state"@),
    {
        if !self.is_loaded {
            return Err(invalid_state());
        }
        Ok(self.mode)
    }

    pub fn get_power_state(&self) -> (r: Result<bool, DeviceError>)
        ensures
            self@.is_loaded ==> r == Ok::<bool, DeviceError>(self@.power_state_on),
            !self@.is_loaded ==> (r matches Err(DeviceError::InvalidOperation(m)) && m@
                == "device is in an invalid state"@),
    {
        if !self.is_loaded {
            return Err(invalid_state());
        }
        Ok(self.power_state_on)
    }

    /// The level that the mode-switch pin is to take for `mode`. Without a
    /// loaded driver and its pin the request is `InvalidOperation`.
    pub fn plan_mode(&self, mode: LEDMode) -> (r: Result<u8, DeviceError>)
        ensures
            self@.is_loaded && self@.mode_switch_open ==> r == Ok::<u8, DeviceError>(
                self@.config.spec_mode_state(mode),
            ),
            !(self@.is_loaded && self@.mode_switch_open) ==> (r matches Err(
                DeviceError::InvalidOperation(m),
            ) && m@ == "device is in an invalid state"@),
    {
        if !self.is_loaded || !self.mode_switch_open {
            return Err(invalid_state());
        }
        Ok(
            match mode {
                LEDMode::Visible => self.config.vis_mode_gpio_state,
                LEDMode::Infrared => self.config.ir_mode_gpio_state,
            },
        )
    }

    /// Books a mode that the pin has taken.
    pub fn set_mode(&mut self, mode: LEDMode)
        ensures
            final(self)@ == (LedState { mode, ..old(self)@ }),
    {
        self.mode = mode;
    }

    /// Whether the brightness channel can be driven. Without a loaded
    /// driver and its channel the request is `InvalidOperation`.
    pub fn check_brightness(&self) -> (r: Result<(), DeviceError>)
        ensures
            self@.is_loaded && self@.brightness_open ==> r is Ok,
            !(self@.is_loaded && self@.brightness_open) ==> (r matches Err(
                DeviceError::InvalidOperation(m),
            ) && m@ == "device is in an invalid state"@),
    {
        if !self.is_loaded || !self.brightness_open {
            return Err(invalid_state());
        }
        Ok(())
    }

    /// The width of the brightness scale: how far the duty cycle of full
    /// brightness is above that of none, or `None` where it is below.
    pub fn duty_span(&self) -> (span: Option<u32>)
        ensures
            match span {
                Some(s) => s == self@.config.pwm_100_brightness_duty_cycle
                    - self@.config.pwm_0_brightness_duty_cycle,
                None => self@.config.pwm_100_brightness_duty_cycle
                    < self@.config.pwm_0_brightness_duty_cycle,
            },
    {
        if self.config.pwm_100_brightness_duty_cycle < self.config.pwm_0_brightness_duty_cycle {
            None
        } else {
            Some(
                self.config.pwm_100_brightness_duty_cycle
                    - self.config.pwm_0_brightness_duty_cycle,
            )
        }
    }

    /// The duty cycle to set: `scaled`, the share of the scale that the
    /// brightness asks for, where the LEDs are to be on, and the duty
    /// cycle of no brightness where they are to be off.
    pub fn duty_cycle(&self, powered_on: bool, scaled: u32) -> (duty: u32)
        ensures
            duty == if powered_on {
                scaled
            } else {
                self@.config.pwm_0_brightness_duty_cycle
            },
    {
        if powered_on {
            scaled
        } else {
            self.config.pwm_0_brightness_duty_cycle
        }
    }

    /// Books a power state that the channel has taken.
    pub fn set_power_state(&mut self, powered_on: bool)
        ensures
            final(self)@ == (LedState { power_state_on: powered_on, ..old(self)@ }),
    {
        self.power_state_on = powered_on;
    }
}

} // verus!
