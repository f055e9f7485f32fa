//! Device records and the device server, which owns the bus controllers
//! and the records and drives each device between registered and running.

use vstd::prelude::*;
use vstd::string::StringExecFns;
use crate::bus::BusController;
use crate::capabilities::{
    get_device_capabilities, selected, CapabilityCast, CapabilityId, CapabilityProbe,
};
use crate::config::DeviceConfig;
use crate::text::joined;
use crate::uuid_text::{fresh_token, is_random_uuid, uuid_string, uuid_text};

verus! {

/// The address of a device: the 128-bit number of its UUID.
#[derive(Clone, Copy, Debug, PartialEq, Eq, Structural, Hash)]
pub struct Address {
    pub value: u128,
}

impl Address {
    /// A freshly drawn address: the number of a random (version 4) UUID.
    pub fn random() -> (a: Address)
        ensures
            is_random_uuid(a.value),
    {
        Address { value: fresh_token() }
    }

    /// The address in the hyphenated form of a UUID.
    pub fn to_string(&self) -> (s: String)
        ensures
            s@ == uuid_text(self.value),
    {
        uuid_string(self.value)
    }
}

#[derive(Debug, PartialEq)]
pub enum DeviceError {
    NotFound(Address),
    MissingController(String),
    DuplicateController,
    DuplicateDevice(String),
    HardwareError(String),
    InvalidOperation(String),
    InvalidConfig(String),
    NotSupported,
    Internal,
    Other(String),
}

impl DeviceError {
    /// The text that `to_string` renders.
    pub open spec fn message(&self) -> Seq<char> {
        match self {
            DeviceError::NotFound(a) => "device with address "@ + uuid_text(a.value)
                + " is not registered"@,
            DeviceError::MissingController(n) => "bus controller \""@ + n@
                + "\" was unavailable"@,
            DeviceError::DuplicateController =>
                "bus controller of the same type is already registered"@,
            DeviceError::DuplicateDevice(d) => "duplicate device: "@ + d@,
            DeviceError::HardwareError(d) => "a hardware error has occurred: "@ + d@,
            DeviceError::InvalidOperation(d) => "invalid operation: "@ + d@,
            DeviceError::InvalidConfig(d) => "invalid config: "@ + d@,
            DeviceError::NotSupported => "operation is not supported"@,
            DeviceError::Internal => "an internal error has occurred"@,
            DeviceError::Other(d) => "an unknown error has occurred: "@ + d@,
        }
    }

    pub fn to_string(&self) -> (s: String)
        ensures
            s@ == self.message(),
    {
        match self {
            DeviceError::NotFound(a) => {
                let mut s = joined("device with address ", a.to_string().as_str());
                s.append(" is not registered");
                s
            },
            DeviceError::MissingController(n) => {
                let mut s = joined("bus controller \"", n.as_str());
                s.append("\" was unavailable");
                s
            },
            DeviceError::DuplicateController => String::from_str(
                "bus controller of the same type is already registered",
            ),
            DeviceError::DuplicateDevice(d) => joined("duplicate device: ", d.as_str()),
            DeviceError::HardwareError(d) => joined("a hardware error has occurred: ", d.as_str()),
            DeviceError::InvalidOperation(d) => joined("invalid operation: ", d.as_str()),
            DeviceError::InvalidConfig(d) => joined("invalid config: ", d.as_str()),
            DeviceError::NotSupported => String::from_str("operation is not supported"),
            DeviceError::Internal => String::from_str("an internal error has occurred"),
            DeviceError::Other(d) => joined("an unknown error has occurred: ", d.as_str()),
        }
    }
}

/// One registered controller, under the name that it gave when it was
/// registered.
struct Registered<B> {
    name: String,
    bus: B,
}

/// The bus controllers of a server, in the order in which they were
/// registered. No two of them have the same name.
pub struct BusRegistry<B> {
    controllers: Vec<Registered<B>>,
}

/// Whether no text occurs twice in `names`.
pub open spec fn distinct(names: Seq<Seq<char>>) -> bool {
    forall|i: int, j: int| 0 <= i < j < names.len() ==> names[i] != names[j]
}

/// `names[i]` is the first occurrence of `name`.
pub open spec fn first_named(names: Seq<Seq<char>>, name: Seq<char>, i: int) -> bool {
    &&& 0 <= i < names.len()
    &&& names[i] == name
    &&& forall|j: int| 0 <= j < i ==> names[j] != name
}

/// What registering a controller under `name` comes to: a name that is
/// taken is `DuplicateController` and the names stay as they were, any other
/// name is added at the end. `before` and `after` are the names before and
/// afterwards, `r` the answer.
pub open spec fn registration(
    before: Seq<Seq<char>>,
    name: Seq<char>,
    after: Seq<Seq<char>>,
    r: Result<(), DeviceError>,
) -> bool {
    if before.contains(name) {
        r == Err::<(), DeviceError>(DeviceError::DuplicateController) && after == before
    } else {
        r == Ok::<(), DeviceError>(()) && after == before.push(name)
    }
}

impl<B> View for BusRegistry<B> {
    type V = Seq<Seq<char>>;

    /// The names of the controllers, in registration order.
    closed spec fn view(&self) -> Seq<Seq<char>> {
        Seq::new(self.controllers@.len(), |i: int| self.controllers@[i].name@)
    }
}

impl<B: BusController> BusRegistry<B> {
    /// The controller at position `i`.
    pub closed spec fn controller(&self, i: int) -> B {
        self.controllers@[i].bus
    }

    /// A registry without controllers.
    pub fn new() -> (r: Self)
        ensures
            r@ == Seq::<Seq<char>>::empty(),
    {
        let r = BusRegistry { controllers: Vec::new() };
        proof {
            assert(r@ =~= Seq::<Seq<char>>::empty());
        }
        r
    }

    fn position(&self, name: &str) -> (r: Option<usize>)
        ensures
            match r {
                Some(i) => first_named(self@, name@, i as int),
                None => !self@.contains(name@),
            },
    {
        let wanted = String::from_str(name);
        let n = self.controllers.len();
        let mut i: usize = 0;
        while i < n
            invariant
                i <= n,
                n == self@.len(),
                wanted@ == name@,
                forall|j: int| 0 <= j < i ==> self@[j] != name@,
            decreases n - i,
        {
            if self.controllers[i].name == wanted {
                return Some(i);
            }
            i += 1;
        }
        None
    }

    /// Adds `bus` under `name`, unless a controller of that name is there
    /// already: that is `DuplicateController`, and the registry stays as it
    /// was, with every controller it held.
    pub fn register_bus_as(&mut self, name: String, bus: B) -> (r: Result<(), DeviceError>)
        ensures
            distinct(old(self)@) ==> distinct(final(self)@),
            registration(old(self)@, name@, final(self)@, r),
            r is Err ==> *final(self) == *old(self),
            forall|i: int|
                0 <= i < old(self)@.len() ==> final(self).controller(i) == old(self).controller(i),
            r is Ok ==> final(self).controller(old(self)@.len() as int) == bus,
    {
        if self.position(name.as_str()).is_some() {
            return Err(DeviceError::DuplicateController);
        }
        let ghost text = name@;
        self.controllers.push(Registered { name, bus });
        proof {
            assert(final(self)@ =~= old(self)@.push(text));
        }
        Ok(())
    }

    /// Adds `bus` under the name that it gives, as `register_bus_as` adds
    /// it under that name. A registry without controllers takes any
    /// controller.
    pub fn register_bus(&mut self, bus: B) -> (r: Result<(), DeviceError>)
        ensures
            distinct(old(self)@) ==> distinct(final(self)@),
            exists|name: Seq<char>| #[trigger] registration(old(self)@, name, final(self)@, r),
            old(self)@.len() == 0 ==> r is Ok,
            r is Err ==> *final(self) == *old(self),
            forall|i: int|
                0 <= i < old(self)@.len() ==> final(self).controller(i) == old(self).controller(i),
            r is Ok ==> final(self).controller(old(self)@.len() as int) == bus,
    {
        let name = bus.name();
        let ghost text = name@;
        let r = self.register_bus_as(name, bus);
        proof {
            assert(registration(old(self)@, text, final(self)@, r));
        }
        r
    }

    /// Whether a controller named `name` is registered.
    pub fn has_bus(&self, name: &str) -> (r: bool)
        ensures
            r == self@.contains(name@),
    {
        self.position(name).is_some()
    }

    /// The controller that was registered under `name`.
    pub fn get_bus(&self, name: &str) -> (r: Option<&B>)
        ensures
            r is Some <==> self@.contains(name@),
            r matches Some(b) ==> exists|i: int| #[trigger]
                first_named(self@, name@, i) && *b == self.controller(i),
    {
        match self.position(name) {
            Some(i) => {
                let b = &self.controllers[i].bus;
                proof {
                    assert(first_named(self@, name@, i as int) && *b == self.controller(i as int));
                }
                Some(b)
            },
            None => None,
        }
    }

    /// The number of controllers.
    pub fn len(&self) -> (n: usize)
        ensures
            n == self@.len(),
    {
        self.controllers.len()
    }

    /// The controllers, in registration order.
    pub fn get_buses(&self) -> (all: Vec<&B>)
        ensures
            all@.len() == self@.len(),
            forall|i: int| 0 <= i < all@.len() ==> *all@[i] == #[trigger] self.controller(i),
    {
        let mut all: Vec<&B> = Vec::new();
        let n = self.controllers.len();
        let mut i: usize = 0;
        while i < n
            invariant
                i <= n,
                n == self.controllers@.len(),
                all@.len() == i,
                forall|j: int| 0 <= j < i ==> *all@[j] == self.controllers@[j].bus,
            decreases n - i,
        {
            all.push(&self.controllers[i].bus);
            i += 1;
        }
        all
    }
}

impl<B: BusController + Clone> BusRegistry<B> {
    /// A further handle on the controller that was registered under
    /// `name`, for a driver to keep between `start` and `stop`: a clone of
    /// the registered handle, which for a shared handle is another owner of
    /// the same controller.
    pub fn get_bus_ptr(&self, name: &str) -> (r: Option<B>)
        ensures
            r is Some <==> self@.contains(name@),
            r matches Some(b) ==> exists|i: int| #[trigger]
                first_named(self@, name@, i) && cloned(self.controller(i), b),
    {
        match self.get_bus(name) {
            Some(b) => {
                let handle = b.clone();
                proof {
                    let i = choose|i: int| #[trigger]
                        first_named(self@, name@, i) && *b == self.controller(i);
                    assert(first_named(self@, name@, i) && cloned(self.controller(i), handle));
                }
                Some(handle)
            },
            None => None,
        }
    }
}

/// A device driver: it has a name, says which capabilities it offers, and
/// is started and stopped with the server's bus controllers at hand.
pub trait DeviceDriver: CapabilityProbe + Sized {
    /// The handle by which this driver reaches a bus controller.
    type Bus: BusController;

    fn name(&self) -> String;

    fn is_running(&self) -> bool;

    /// A driver made from its configuration entry, or without one.
    fn new(config: Option<&mut DeviceConfig>) -> Result<Self, DeviceError>;

    fn start(&mut self, parent: &BusRegistry<Self::Bus>) -> Result<(), DeviceError>;

    fn stop(&mut self, parent: &BusRegistry<Self::Bus>) -> Result<(), DeviceError>;
}

/// What the server knows of one device.
pub struct DeviceInfo {
    pub address: u128,
    pub name: Seq<char>,
    pub capabilities: Seq<CapabilityId>,
    pub running: bool,
}

impl DeviceInfo {
    /// The same record with its running flag set to `running`.
    pub open spec fn with_running(self, running: bool) -> DeviceInfo {
        DeviceInfo {
            address: self.address,
            name: self.name,
            capabilities: self.capabilities,
            running,
        }
    }
}

/// A device record: a driver with its address, its name, the capabilities
/// that the driver offered when the record was made, and whether the
/// device is running.
pub struct Device<D> {
    address: Address,
    name: String,
    driver: D,
    capabilities: Vec<CapabilityId>,
    running: bool,
}

impl<D> View for Device<D> {
    type V = DeviceInfo;

    closed spec fn view(&self) -> DeviceInfo {
        DeviceInfo {
            address: self.address.value,
            name: self.name@,
            capabilities: self.capabilities@,
            running: self.running,
        }
    }
}

/// The name of a device that was given none: the driver's name, a hyphen
/// and the address.
pub fn default_device_name(driver_name: &str, address_text: &str) -> (name: String)
    ensures
        name@ == driver_name@ + "-"@ + address_text@,
{
    let mut name = joined(driver_name, "-");
    name.append(address_text);
    name
}

impl<D: DeviceDriver> Device<D> {
    /// The driver of the record.
    pub closed spec fn spec_driver(&self) -> D {
        self.driver
    }

    /// A record at `address` over `driver`, from what the driver said of
    /// itself: its name, whether it runs, and the capabilities it offers.
    ///
    /// An empty friendly name is refused with `InvalidConfig`. Without a
    /// friendly name the device is named after its driver and address.
    pub fn from_parts(
        address: Address,
        driver: D,
        driver_name: &str,
        running: bool,
        capabilities: Vec<CapabilityId>,
        friendly_name: Option<String>,
    ) -> (r: Result<Self, DeviceError>)
        ensures
            match friendly_name {
                Some(n) if n@.len() == 0 => r matches Err(DeviceError::InvalidConfig(m)) && m@
                    == "invalid device name"@,
                _ => r matches Ok(d) && d.spec_driver() == driver && d@ == (DeviceInfo {
                    address: address.value,
                    name: match friendly_name {
                        Some(n) => n@,
                        None => driver_name@ + "-"@ + uuid_text(address.value),
                    },
                    capabilities: capabilities@,
                    running,
                }),
            },
    {
        let name = match friendly_name {
            Some(n) => {
                if n.as_str().is_empty() {
                    return Err(DeviceError::InvalidConfig(String::from_str("invalid device name")));
                }
                n
            },
            None => default_device_name(driver_name, address.to_string().as_str()),
        };
        Ok(Device { address, name, driver, capabilities, running })
    }

    /// Wraps `driver` into a record at `address`: asks the driver for its
    /// name and whether it runs, probes it once for every capability
    /// family, and makes the record as `from_parts` does.
    pub fn from_driver(address: Address, driver: D, friendly_name: Option<String>) -> (r: Result<
        Self,
        DeviceError,
    >)
        ensures
            match friendly_name {
                Some(n) if n@.len() == 0 => r matches Err(DeviceError::InvalidConfig(m)) && m@
                    == "invalid device name"@,
                _ => r matches Ok(d) && d.spec_driver() == driver && d@.address == address.value
                    && (friendly_name matches Some(n) ==> d@.name == n@) && (friendly_name is None
                    ==> exists|driver_name: Seq<char>|
                    d@.name == driver_name + "-"@ + uuid_text(address.value)) && (exists|
                    answers: Seq<bool>,
                | answers.len() == 5 && d@.capabilities == selected(answers, 5)),
            },
    {
        let driver_name = driver.name();
        let capabilities = get_device_capabilities(&driver);
        let running = driver.is_running();
        let r = Self::from_parts(
            address,
            driver,
            driver_name.as_str(),
            running,
            capabilities,
            friendly_name,
        );
        proof {
            if r is Ok && friendly_name is None {
                assert(r->Ok_0@.name == driver_name@ + "-"@ + uuid_text(address.value));
            }
        }
        r
    }

    /// A record over the driver that the driver's own `new` made, or the
    /// error that it gave instead. The record is at `address` or, where
    /// none is given, at a freshly drawn address.
    ///
    /// The error of a driver that could not be made is handed on. A driver
    /// that was made is wrapped as `from_driver` wraps it.
    pub fn from_new_driver(
        address: Option<Address>,
        made: Result<D, DeviceError>,
        friendly_name: Option<String>,
    ) -> (r: Result<Self, DeviceError>)
        ensures
            match made {
                Err(e) => r == Err::<Self, DeviceError>(e),
                Ok(driver) => match friendly_name {
                    Some(n) if n@.len() == 0 => r matches Err(DeviceError::InvalidConfig(m)) && m@
                        == "invalid device name"@,
                    _ => r matches Ok(d) && d.spec_driver() == driver && (match address {
                        Some(a) => d@.address == a.value,
                        None => is_random_uuid(d@.address),
                    }) && (friendly_name matches Some(n) ==> d@.name == n@) && (friendly_name
                        is None ==> exists|driver_name: Seq<char>|
                        d@.name == driver_name + "-"@ + uuid_text(d@.address)) && (exists|
                        answers: Seq<bool>,
                    | answers.len() == 5 && d@.capabilities == selected(answers, 5)),
                },
            },
    {
        let driver = match made {
            Ok(d) => d,
            Err(e) => return Err(e),
        };
        let address = match address {
            Some(a) => a,
            None => Address::random(),
        };
        Self::from_driver(address, driver, friendly_name)
    }

    /// A record over a driver made without configuration, at `address` or,
    /// where none is given, at a freshly drawn address.
    ///
    /// Whether a driver can be made is the driver's own matter; its error
    /// is handed on. An empty friendly name is refused in any case. Without
    /// a friendly name the device is named after its driver and address.
    pub fn new(address: Option<Address>, friendly_name: Option<String>) -> (r: Result<
        Self,
        DeviceError,
    >)
        ensures
            friendly_name matches Some(n) && n@.len() == 0 ==> r is Err,
            r matches Ok(d) ==> {
                &&& match address {
                    Some(a) => d@.address == a.value,
                    None => is_random_uuid(d@.address),
                }
                &&& friendly_name matches Some(n) ==> d@.name == n@ && n@.len() > 0
                &&& friendly_name is None ==> exists|driver_name: Seq<char>|
                    d@.name == driver_name + "-"@ + uuid_text(d@.address)
                &&& exists|answers: Seq<bool>|
                    answers.len() == 5 && d@.capabilities == selected(answers, 5)
            },
    {
        Self::from_new_driver(address, D::new(None), friendly_name)
    }

    /// A record at `address` over a driver made from `config`, under the
    /// friendly name that `config` gives once the driver has seen it.
    ///
    /// Whether a driver can be made from `config` is the driver's own
    /// matter; its error is handed on. An empty friendly name is refused in
    /// any case. Without a friendly name the device is named after its
    /// driver and address.
    pub fn from_config(address: Address, config: &mut DeviceConfig) -> (r: Result<
        Self,
        DeviceError,
    >)
        ensures
            final(config).friendly_name matches Some(n) && n@.len() == 0 ==> r is Err,
            r matches Ok(d) ==> {
                &&& d@.address == address.value
                &&& final(config).friendly_name matches Some(n) ==> d@.name == n@ && n@.len() > 0
                &&& final(config).friendly_name is None ==> exists|driver_name: Seq<char>|
                    d@.name == driver_name + "-"@ + uuid_text(address.value)
                &&& exists|answers: Seq<bool>|
                    answers.len() == 5 && d@.capabilities == selected(answers, 5)
            },
    {
        let made = D::new(Some(config));
        let friendly_name = match &config.friendly_name {
            Some(n) => Some(n.clone()),
            None => None,
        };
        Self::from_new_driver(Some(address), made, friendly_name)
    }

    pub fn address(&self) -> (a: Address)
        ensures
            a.value == self@.address,
    {
        self.address
    }

    pub fn device_name(&self) -> (name: String)
        ensures
            name@ == self@.name,
    {
        self.name.clone()
    }

    /// The name that the driver gives.
    pub fn driver_name(&self) -> String {
        self.driver.name()
    }

    /// Whether the device is running: the outcome of its last successful
    /// transition.
    pub fn is_running(&self) -> (r: bool)
        ensures
            r == self@.running,
    {
        self.running
    }

    /// The driver.
    pub fn as_ref(&self) -> (d: &D)
        ensures
            *d == self.spec_driver(),
    {
        &self.driver
    }

    /// The driver, for use through one of its capability interfaces. The
    /// record's address, name, capabilities and running flag are out of
    /// its reach.
    pub fn as_mut(&mut self) -> (d: &mut D)
        ensures
            *d == old(self).spec_driver(),
            final(self).spec_driver() == *final(d),
            final(self)@ == old(self)@,
            final(self)@.capabilities == old(self)@.capabilities,
    {
        &mut self.driver
    }

    /// The driver through its capability interface `C`, or nothing where
    /// the driver has no adapter to offer.
    pub fn as_capability_ref<C: ?Sized>(&self) -> (r: Option<&C>) where D: CapabilityCast<C> {
        self.driver.cast_ref()
    }

    /// The driver through its capability interface `C`, for an operation
    /// that changes the device, or nothing where the driver has no adapter
    /// to offer. The record's address, name, capabilities and running flag
    /// are out of the interface's reach.
    pub fn as_capability_mut<C: ?Sized>(&mut self) -> (r: Option<&mut C>) where
        D: CapabilityCast<C>,
        ensures
            final(self)@ == old(self)@,
    {
        self.driver.cast_mut()
    }

    /// Whether the driver offered `capability` when the record was made.
    pub fn has_capability(&self, capability: CapabilityId) -> (r: bool)
        ensures
            r == self@.capabilities.contains(capability),
    {
        let n = self.capabilities.len();
        let mut i: usize = 0;
        while i < n
            invariant
                i <= n,
                n == self@.capabilities.len(),
                forall|j: int| 0 <= j < i ==> self@.capabilities[j] != capability,
            decreases n - i,
        {
            if self.capabilities[i] == capability {
                return true;
            }
            i += 1;
        }
        false
    }

    pub fn get_capabilities(&self) -> (caps: Vec<CapabilityId>)
        ensures
            caps@ == self@.capabilities,
    {
        let mut caps: Vec<CapabilityId> = Vec::new();
        let n = self.capabilities.len();
        let mut i: usize = 0;
        while i < n
            invariant
                i <= n,
                n == self@.capabilities.len(),
                caps@ == self@.capabilities.take(i as int),
            decreases n - i,
        {
            caps.push(self.capabilities[i]);
            proof {
                assert(self@.capabilities.take(i + 1) =~= self@.capabilities.take(i as int).push(
                    self@.capabilities[i as int],
                ));
            }
            i += 1;
        }
        proof {
            assert(self@.capabilities.take(n as int) =~= self@.capabilities);
        }
        caps
    }

    /// Books the outcome of the driver's `start`: a success makes the
    /// device running, a failure leaves the record as it was. The outcome
    /// is handed on.
    pub fn settle_start(&mut self, outcome: Result<(), DeviceError>) -> (r: Result<(), DeviceError>)
        ensures
            r == outcome,
            final(self)@.capabilities == old(self)@.capabilities,
            final(self).spec_driver() == old(self).spec_driver(),
            outcome is Ok ==> final(self)@ == old(self)@.with_running(true),
            outcome is Err ==> final(self)@ == old(self)@,
    {
        if outcome.is_ok() {
            self.running = true;
        }
        outcome
    }

    /// Books the outcome of the driver's `stop`: a success makes the device
    /// not running, a failure leaves the record as it was. The outcome is
    /// handed on.
    pub fn settle_stop(&mut self, outcome: Result<(), DeviceError>) -> (r: Result<(), DeviceError>)
        ensures
            r == outcome,
            final(self)@.capabilities == old(self)@.capabilities,
            final(self).spec_driver() == old(self).spec_driver(),
            outcome is Ok ==> final(self)@ == old(self)@.with_running(false),
            outcome is Err ==> final(self)@ == old(self)@,
    {
        if outcome.is_ok() {
            self.running = false;
        }
        outcome
    }

    /// Starts the device with the controllers of `parent`.
    ///
    /// A running device is refused with `InvalidOperation`; its driver is
    /// not called and the record stays as it was. Otherwise the driver
    /// decides: where it succeeds the device is running, where it fails the
    /// record is as before and the driver's error is returned.
    pub fn start(&mut self, parent: &BusRegistry<D::Bus>) -> (r: Result<(), DeviceError>)
        ensures
            final(self)@.capabilities == old(self)@.capabilities,
            old(self)@.running ==> (r matches Err(DeviceError::InvalidOperation(m)) && m@
                == "device is already running"@) && *final(self) == *old(self),
            old(self)@.running ==> final(self).spec_driver() == old(self).spec_driver(),
            !old(self)@.running ==> match r {
                Ok(()) => final(self)@ == old(self)@.with_running(true),
                Err(_) => final(self)@ == old(self)@,
            },
    {
        if self.running {
            return Err(
                DeviceError::InvalidOperation(String::from_str("device is already running")),
            );
        }
        let outcome = self.driver.start(parent);
        self.settle_start(outcome)
    }

    /// Stops the device with the controllers of `parent`.
    ///
    /// A device that is not running is refused with `InvalidOperation`;
    /// its driver is not called and the record stays as it was. Otherwise
    /// the driver decides: where it succeeds the device is not running,
    /// where it fails the record is as before and the driver's error is
    /// returned.
    pub fn stop(&mut self, parent: &BusRegistry<D::Bus>) -> (r: Result<(), DeviceError>)
        ensures
            final(self)@.capabilities == old(self)@.capabilities,
            !old(self)@.running ==> (r matches Err(DeviceError::InvalidOperation(m)) && m@
                == "device is not currently running"@) && *final(self) == *old(self),
            !old(self)@.running ==> final(self).spec_driver() == old(self).spec_driver(),
            old(self)@.running ==> match r {
                Ok(()) => final(self)@ == old(self)@.with_running(false),
                Err(_) => final(self)@ == old(self)@,
            },
    {
        if !self.running {
            return Err(
                DeviceError::InvalidOperation(String::from_str("device is not currently running")),
            );
        }
        let outcome = self.driver.stop(parent);
        self.settle_stop(outcome)
    }
}

/// The mathematical state of a device server: the names of its bus
/// controllers and its device records, both in registration order.
pub struct ServerState {
    pub buses: Seq<Seq<char>>,
    pub devices: Seq<DeviceInfo>,
}

impl ServerState {
    pub open spec fn has_device(self, address: u128) -> bool {
        exists|i: int| 0 <= i < self.devices.len() && (#[trigger] self.devices[i]).address == address
    }

    pub open spec fn has_name(self, name: Seq<char>) -> bool {
        exists|i: int| 0 <= i < self.devices.len() && (#[trigger] self.devices[i]).name == name
    }

    /// The record at `i` is the first with the address `address`.
    pub open spec fn is_first(self, address: u128, i: int) -> bool {
        &&& 0 <= i < self.devices.len()
        &&& self.devices[i].address == address
        &&& forall|j: int| 0 <= j < i ==> (#[trigger] self.devices[j]).address != address
    }

    /// The record at `i` is the first with the name `name`.
    pub open spec fn is_first_named(self, name: Seq<char>, i: int) -> bool {
        &&& 0 <= i < self.devices.len()
        &&& self.devices[i].name == name
        &&& forall|j: int| 0 <= j < i ==> (#[trigger] self.devices[j]).name != name
    }

    /// `after` holds the records of this state, each with the address, the
    /// name and the capabilities that it has here.
    pub open spec fn same_records(self, after: ServerState) -> bool {
        &&& after.devices.len() == self.devices.len()
        &&& forall|i: int|
            0 <= i < self.devices.len() ==> (#[trigger] after.devices[i]).address
                == self.devices[i].address && after.devices[i].name == self.devices[i].name
                && after.devices[i].capabilities == self.devices[i].capabilities
    }

    /// No two controllers have the same name, and no two records the same
    /// address or the same name.
    pub open spec fn wf(self) -> bool {
        &&& distinct(self.buses)
        &&& forall|i: int, j: int|
            0 <= i < j < self.devices.len() ==> (#[trigger] self.devices[i]).address != (
            #[trigger] self.devices[j]).address
        &&& forall|i: int, j: int|
            0 <= i < j < self.devices.len() ==> (#[trigger] self.devices[i]).name != (
            #[trigger] self.devices[j]).name
    }
}

/// Uniqueness: in a well-formed server an address names at most one record,
/// and so does a name.
pub proof fn lemma_records_unique(state: ServerState, i: int, j: int)
    requires
        state.wf(),
        0 <= i < state.devices.len(),
        0 <= j < state.devices.len(),
        state.devices[i].address == state.devices[j].address || state.devices[i].name
            == state.devices[j].name,
    ensures
        i == j,
{
    if i < j {
        assert(state.devices[i].address != state.devices[j].address);
        assert(state.devices[i].name != state.devices[j].name);
    } else if j < i {
        assert(state.devices[j].address != state.devices[i].address);
        assert(state.devices[j].name != state.devices[i].name);
    }
}

/// A registered address has a first record.
pub proof fn lemma_first_record(state: ServerState, address: u128)
    requires
        state.has_device(address),
    ensures
        exists|i: int| state.is_first(address, i),
{
    let k = choose|k: int|
        0 <= k < state.devices.len() && (#[trigger] state.devices[k]).address == address;
    lemma_first_below(state, address, k);
}

proof fn lemma_first_below(state: ServerState, address: u128, k: int)
    requires
        0 <= k < state.devices.len(),
        state.devices[k].address == address,
    ensures
        exists|i: int| state.is_first(address, i),
    decreases k,
{
    if forall|j: int| 0 <= j < k ==> (#[trigger] state.devices[j]).address != address {
        assert(state.is_first(address, k));
    } else {
        let j = choose|j: int| 0 <= j < k && (#[trigger] state.devices[j]).address == address;
        lemma_first_below(state, address, j);
    }
}

/// Capability stability: a state that holds the same records as an earlier
/// one answers every capability question about a device as the earlier one
/// did, whatever has become of the running flags.
pub proof fn lemma_capabilities_stable(
    before: ServerState,
    after: ServerState,
    i: int,
    capability: CapabilityId,
)
    requires
        before.same_records(after),
        0 <= i < before.devices.len(),
    ensures
        after.devices[i].capabilities.contains(capability) == before.devices[i].capabilities.contains(
            capability,
        ),
{
    assert(after.devices[i].capabilities == before.devices[i].capabilities);
}

/// Holding the same records is transitive, so it holds across any run of
/// starts and stops.
pub proof fn lemma_same_records_transitive(a: ServerState, b: ServerState, c: ServerState)
    requires
        a.same_records(b),
        b.same_records(c),
    ensures
        a.same_records(c),
{
    assert forall|i: int| 0 <= i < a.devices.len() implies (#[trigger] c.devices[i]).address
        == a.devices[i].address && c.devices[i].name == a.devices[i].name
        && c.devices[i].capabilities == a.devices[i].capabilities by {
        assert(b.devices[i].address == a.devices[i].address);
    }
}

/// The device server.
pub struct DeviceServer<D: DeviceDriver> {
    bus_controllers: BusRegistry<D::Bus>,
    devices: Vec<Device<D>>,
}

impl<D: DeviceDriver> View for DeviceServer<D> {
    type V = ServerState;

    closed spec fn view(&self) -> ServerState {
        ServerState {
            buses: self.bus_controllers@,
            devices: Seq::new(self.devices@.len(), |i: int| self.devices@[i]@),
        }
    }
}

fn already_registered_text(kind: &str, what: &str) -> (m: String)
    ensures
        m@ == kind@ + what@ + " already registered"@,
{
    let mut m = joined(kind, what);
    m.append(" already registered");
    m
}

impl<D: DeviceDriver> DeviceServer<D> {
    /// The record at position `i`.
    pub closed spec fn device(&self, i: int) -> Device<D> {
        self.devices@[i]
    }

    /// The registry of bus controllers.
    pub closed spec fn registry(&self) -> BusRegistry<D::Bus> {
        self.bus_controllers
    }

    pub broadcast proof fn lemma_device_view(&self, i: int)
        requires
            0 <= i < self@.devices.len(),
        ensures
            (#[trigger] self.device(i))@ == self@.devices[i],
    {
    }

    /// A server without controllers and without devices.
    pub fn new() -> (server: Self)
        ensures
            server@.buses == Seq::<Seq<char>>::empty(),
            server@.devices == Seq::<DeviceInfo>::empty(),
            server@.wf(),
    {
        let server = DeviceServer { bus_controllers: BusRegistry::new(), devices: Vec::new() };
        proof {
            assert(server@.devices =~= Seq::<DeviceInfo>::empty());
        }
        server
    }

    fn find_device(&self, address: u128) -> (r: Option<usize>)
        ensures
            match r {
                Some(i) => self@.is_first(address, i as int),
                None => !self@.has_device(address),
            },
    {
        let n = self.devices.len();
        let mut i: usize = 0;
        while i < n
            invariant
                i <= n,
                n == self@.devices.len(),
                forall|j: int| 0 <= j < i ==> (#[trigger] self@.devices[j]).address != address,
            decreases n - i,
        {
            if self.devices[i].address.value == address {
                return Some(i);
            }
            i += 1;
        }
        None
    }

    fn find_name(&self, name: &str) -> (r: Option<usize>)
        ensures
            match r {
                Some(i) => self@.is_first_named(name@, i as int),
                None => !self@.has_name(name@),
            },
    {
        let wanted = String::from_str(name);
        let n = self.devices.len();
        let mut i: usize = 0;
        while i < n
            invariant
                i <= n,
                n == self@.devices.len(),
                wanted@ == name@,
                forall|j: int| 0 <= j < i ==> (#[trigger] self@.devices[j]).name != name@,
            decreases n - i,
        {
            if self.devices[i].name == wanted {
                return Some(i);
            }
            i += 1;
        }
        None
    }

    /// Why `device` cannot be added, if anything stands against it: its
    /// address is taken, or its name is.
    fn registration_refusal(&self, device: &Device<D>) -> (r: Option<DeviceError>)
        ensures
            self@.has_device(device@.address) ==> (r matches Some(DeviceError::DuplicateDevice(m))
                && m@ == "device with address "@ + uuid_text(device@.address)
                + " already registered"@),
            !self@.has_device(device@.address) && self@.has_name(device@.name) ==> (
            r matches Some(DeviceError::DuplicateDevice(m)) && m@ == "device with name "@
                + device@.name + " already registered"@),
            !self@.has_device(device@.address) && !self@.has_name(device@.name) ==> r is None,
    {
        if self.find_device(device.address.value).is_some() {
            return Some(
                DeviceError::DuplicateDevice(
                    already_registered_text(
                        "device with address ",
                        device.address.to_string().as_str(),
                    ),
                ),
            );
        }
        if self.find_name(device.name.as_str()).is_some() {
            return Some(
                DeviceError::DuplicateDevice(
                    already_registered_text("device with name ", device.name.as_str()),
                ),
            );
        }
        None
    }

    /// Books a registration once the driver has answered: `outcome` is
    /// what the driver's `start` came to, or `Ok` where the device was not
    /// to be started.
    ///
    /// A device whose address or name is taken is refused with
    /// `DuplicateDevice`. The driver's error is handed on as it is, and the
    /// device is not recorded. Otherwise the device is recorded behind the
    /// others. A refusal leaves the server as it was.
    pub fn settle_registration(&mut self, device: Device<D>, outcome: Result<(), DeviceError>) -> (r:
        Result<Address, DeviceError>)
        ensures
            old(self)@.wf() ==> final(self)@.wf(),
            final(self).registry() == old(self).registry(),
            r is Err ==> *final(self) == *old(self),
            forall|j: int|
                0 <= j < old(self)@.devices.len() ==> final(self).device(j) == old(self).device(j),
            old(self)@.has_device(device@.address) ==> (r matches Err(
                DeviceError::DuplicateDevice(m),
            ) && m@ == "device with address "@ + uuid_text(device@.address)
                + " already registered"@),
            !old(self)@.has_device(device@.address) && old(self)@.has_name(device@.name) ==> (
            r matches Err(DeviceError::DuplicateDevice(m)) && m@ == "device with name "@
                + device@.name + " already registered"@),
            !old(self)@.has_device(device@.address) && !old(self)@.has_name(device@.name)
                ==> match outcome {
                Err(e) => r == Err::<Address, DeviceError>(e),
                Ok(()) => r == Ok::<Address, DeviceError>(Address { value: device@.address })
                    && final(self)@.devices == old(self)@.devices.push(device@) && final(
                    self).device(old(self)@.devices.len() as int) == device,
            },
    {
        if let Some(e) = self.registration_refusal(&device) {
            return Err(e);
        }
        match outcome {
            Ok(()) => {},
            Err(e) => return Err(e),
        }
        let address = device.address;
        let ghost added = device@;
        self.devices.push(device);
        proof {
            assert(final(self)@.devices =~= old(self)@.devices.push(added));
            if old(self)@.wf() {
                assert forall|i: int, j: int|
                    0 <= i < j < final(self)@.devices.len() implies (
                #[trigger] final(self)@.devices[i]).address != (
                #[trigger] final(self)@.devices[j]).address && final(self)@.devices[i].name
                    != final(self)@.devices[j].name by {
                    if j == old(self)@.devices.len() {
                        assert(old(self)@.devices[i].address != added.address);
                        assert(old(self)@.devices[i].name != added.name);
                    }
                }
            }
        }
        Ok(address)
    }

    /// Adds `device` to the server, and starts it first where
    /// `start_device` asks for it and the device is not running.
    ///
    /// A device whose address is taken is refused with `DuplicateDevice`,
    /// and so is one whose name is taken; its driver is not called. Where
    /// the device is to be started its driver decides: a failure of `start`
    /// is returned and the device is not recorded, as `settle_registration`
    /// says. A refusal leaves the server as it was, with every controller
    /// and record it held.
    pub fn register_device(&mut self, device: Device<D>, start_device: bool) -> (r: Result<
        Address,
        DeviceError,
    >)
        ensures
            final(self)@.buses == old(self)@.buses,
            final(self).registry() == old(self).registry(),
            old(self)@.wf() ==> final(self)@.wf(),
            r is Err ==> final(self)@ == old(self)@ && *final(self) == *old(self),
            forall|j: int|
                0 <= j < old(self)@.devices.len() ==> final(self).device(j) == old(self).device(j),
            old(self)@.has_device(device@.address) ==> (r matches Err(
                DeviceError::DuplicateDevice(m),
            ) && m@ == "device with address "@ + uuid_text(device@.address)
                + " already registered"@),
            !old(self)@.has_device(device@.address) && old(self)@.has_name(device@.name) ==> (
            r matches Err(DeviceError::DuplicateDevice(m)) && m@ == "device with name "@
                + device@.name + " already registered"@),
            !old(self)@.has_device(device@.address) && !old(self)@.has_name(device@.name) ==> (
            if start_device && !device@.running {
                r matches Ok(a) ==> a.value == device@.address && final(self)@.devices == old(
                    self)@.devices.push(device@.with_running(true))
            } else {
                r == Ok::<Address, DeviceError>(Address { value: device@.address }) && final(
                    self)@.devices == old(self)@.devices.push(device@) && final(self).device(
                    old(self)@.devices.len() as int,
                ) == device
            }),
    {
        let mut device = device;
        if let Some(e) = self.registration_refusal(&device) {
            return Err(e);
        }
        let outcome = if start_device && !device.running {
            device.start(&self.bus_controllers)
        } else {
            Ok(())
        };
        self.settle_registration(device, outcome)
    }

    /// Removes the device at `address`, stopping it first where it runs.
    ///
    /// An unknown address is `NotFound`. Where the device runs its driver
    /// decides: a failure of `stop` is returned and the record stays, as
    /// it was.
    pub fn remove_device(&mut self, address: &Address) -> (r: Result<(), DeviceError>)
        ensures
            final(self)@.buses == old(self)@.buses,
            old(self)@.wf() ==> final(self)@.wf(),
            r is Err ==> final(self)@ == old(self)@,
            final(self).registry() == old(self).registry(),
            !old(self)@.has_device(address.value) ==> r == Err::<(), DeviceError>(
                DeviceError::NotFound(*address),
            ) && *final(self) == *old(self),
            forall|i: int| #[trigger]
                old(self)@.is_first(address.value, i) ==> (if old(self)@.devices[i].running {
                    r is Ok ==> final(self)@.devices == old(self)@.devices.remove(i)
                } else {
                    r == Ok::<(), DeviceError>(()) && final(self)@.devices == old(
                        self)@.devices.remove(i)
                }),
    {
        let i = match self.find_device(address.value) {
            Some(i) => i,
            None => return Err(DeviceError::NotFound(*address)),
        };
        proof {
            assert forall|k: int| #[trigger] old(self)@.is_first(address.value, k) implies k
                == i by {
                if k < i {
                    assert(old(self)@.devices[k].address != address.value);
                } else if i < k {
                    assert(old(self)@.devices[i as int].address != address.value);
                }
            }
        }
        if self.devices[i].running {
            let dev = &mut self.devices[i];
            match dev.stop(&self.bus_controllers) {
                Ok(()) => {},
                Err(e) => {
                    proof {
                        assert(final(self)@.devices =~= old(self)@.devices);
                    }
                    return Err(e);
                },
            }
        }
        self.devices.remove(i);
        proof {
            assert(final(self)@.devices =~= old(self)@.devices.remove(i as int));
        }
        Ok(())
    }

    /// Starts the device at `address`.
    ///
    /// An unknown address is `NotFound`, a running device
    /// `InvalidOperation`. Otherwise the driver decides: where it succeeds
    /// the device is running, where it fails the server is as before and
    /// the driver's error is returned.
    pub fn start_device(&mut self, address: &Address) -> (r: Result<(), DeviceError>)
        ensures
            final(self).registry() == old(self).registry(),
            final(self)@.buses == old(self)@.buses,
            old(self)@.same_records(final(self)@),
            old(self)@.wf() ==> final(self)@.wf(),
            r is Err ==> final(self)@ == old(self)@,
            !old(self)@.has_device(address.value) ==> r == Err::<(), DeviceError>(
                DeviceError::NotFound(*address),
            ) && *final(self) == *old(self),
            forall|i: int| #[trigger]
                old(self)@.is_first(address.value, i) && old(self)@.devices[i].running ==> *final(self) == *old(
                    self) && final(self).device(i).spec_driver() == old(self).device(
                    i,
                ).spec_driver(),
            forall|i: int, j: int| #[trigger]
                old(self)@.is_first(address.value, i) && 0 <= j < old(self)@.devices.len() && j
                    != i ==> #[trigger] final(self).device(j) == old(self).device(j),
            forall|i: int| #[trigger]
                old(self)@.is_first(address.value, i) ==> (if old(self)@.devices[i].running {
                    r matches Err(DeviceError::InvalidOperation(m)) && m@
                        == "device is already running"@
                } else {
                    r is Ok ==> final(self)@.devices == old(self)@.devices.update(
                        i,
                        old(self)@.devices[i].with_running(true),
                    )
                }),
    {
        let i = match self.find_device(address.value) {
            Some(i) => i,
            None => return Err(DeviceError::NotFound(*address)),
        };
        proof {
            assert forall|k: int| #[trigger] old(self)@.is_first(address.value, k) implies k
                == i by {
                if k < i {
                    assert(old(self)@.devices[k].address != address.value);
                } else if i < k {
                    assert(old(self)@.devices[i as int].address != address.value);
                }
            }
        }
        if self.devices[i].running {
            return Err(DeviceError::InvalidOperation(String::from_str("device is already running")));
        }
        let dev = &mut self.devices[i];
        let r = dev.start(&self.bus_controllers);
        proof {
            if r is Ok {
                assert(final(self)@.devices =~= old(self)@.devices.update(
                    i as int,
                    old(self)@.devices[i as int].with_running(true),
                ));
            } else {
                assert(final(self)@.devices =~= old(self)@.devices);
            }
        }
        r
    }

    /// Stops the device at `address`.
    ///
    /// An unknown address is `NotFound`, a device that is not running
    /// `InvalidOperation`. Otherwise the driver decides: where it succeeds
    /// the device is not running, where it fails the server is as before
    /// and the driver's error is returned.
    pub fn stop_device(&mut self, address: &Address) -> (r: Result<(), DeviceError>)
        ensures
            final(self).registry() == old(self).registry(),
            final(self)@.buses == old(self)@.buses,
            old(self)@.same_records(final(self)@),
            old(self)@.wf() ==> final(self)@.wf(),
            r is Err ==> final(self)@ == old(self)@,
            !old(self)@.has_device(address.value) ==> r == Err::<(), DeviceError>(
                DeviceError::NotFound(*address),
            ) && *final(self) == *old(self),
            forall|i: int| #[trigger]
                old(self)@.is_first(address.value, i) && !old(self)@.devices[i].running ==> *final(self) == *old(
                    self) && final(self).device(i).spec_driver() == old(self).device(
                    i,
                ).spec_driver(),
            forall|i: int, j: int| #[trigger]
                old(self)@.is_first(address.value, i) && 0 <= j < old(self)@.devices.len() && j
                    != i ==> #[trigger] final(self).device(j) == old(self).device(j),
            forall|i: int| #[trigger]
                old(self)@.is_first(address.value, i) ==> (if !old(self)@.devices[i].running {
                    r matches Err(DeviceError::InvalidOperation(m)) && m@
                        == "device is not currently running"@
                } else {
                    r is Ok ==> final(self)@.devices == old(self)@.devices.update(
                        i,
                        old(self)@.devices[i].with_running(false),
                    )
                }),
    {
        let i = match self.find_device(address.value) {
            Some(i) => i,
            None => return Err(DeviceError::NotFound(*address)),
        };
        proof {
            assert forall|k: int| #[trigger] old(self)@.is_first(address.value, k) implies k
                == i by {
                if k < i {
                    assert(old(self)@.devices[k].address != address.value);
                } else if i < k {
                    assert(old(self)@.devices[i as int].address != address.value);
                }
            }
        }
        if !self.devices[i].running {
            return Err(DeviceError::InvalidOperation(String::from_str("device is not currently running")));
        }
        let dev = &mut self.devices[i];
        let r = dev.stop(&self.bus_controllers);
        proof {
            if r is Ok {
                assert(final(self)@.devices =~= old(self)@.devices.update(
                    i as int,
                    old(self)@.devices[i as int].with_running(false),
                ));
            } else {
                assert(final(self)@.devices =~= old(self)@.devices);
            }
        }
        r
    }

    /// Adds `bus` under `name`, unless a controller of that name is there
    /// already: that is `DuplicateController`, and the server stays as it
    /// was, with every controller and record it held.
    pub fn register_bus_as(&mut self, name: String, bus: D::Bus) -> (r: Result<(), DeviceError>)
        ensures
            final(self)@.devices == old(self)@.devices,
            old(self)@.wf() ==> final(self)@.wf(),
            registration(old(self)@.buses, name@, final(self)@.buses, r),
            r is Err ==> *final(self) == *old(self),
            forall|i: int|
                0 <= i < old(self)@.buses.len() ==> final(self).registry().controller(i) == old(
                    self).registry().controller(i),
            r is Ok ==> final(self).registry().controller(old(self)@.buses.len() as int) == bus,
    {
        let r = self.bus_controllers.register_bus_as(name, bus);
        proof {
            assert(final(self)@.devices =~= old(self)@.devices);
        }
        r
    }

    /// Adds `bus` under the name that it gives, as `register_bus_as` adds
    /// it under that name. A server without controllers takes any
    /// controller.
    pub fn register_bus(&mut self, bus: D::Bus) -> (r: Result<(), DeviceError>)
        ensures
            final(self)@.devices == old(self)@.devices,
            old(self)@.wf() ==> final(self)@.wf(),
            exists|name: Seq<char>| #[trigger]
                registration(old(self)@.buses, name, final(self)@.buses, r),
            old(self)@.buses.len() == 0 ==> r is Ok,
            r is Err ==> *final(self) == *old(self),
            forall|i: int|
                0 <= i < old(self)@.buses.len() ==> final(self).registry().controller(i) == old(
                    self).registry().controller(i),
            r is Ok ==> final(self).registry().controller(old(self)@.buses.len() as int) == bus,
    {
        let r = self.bus_controllers.register_bus(bus);
        proof {
            assert(final(self)@.devices =~= old(self)@.devices);
            let name = choose|name: Seq<char>| #[trigger]
                registration(old(self).bus_controllers@, name, final(self).bus_controllers@, r);
            assert(registration(old(self)@.buses, name, final(self)@.buses, r));
        }
        r
    }

    /// The bus controllers, as a driver sees them in `start` and `stop`.
    pub fn buses(&self) -> (registry: &BusRegistry<D::Bus>)
        ensures
            *registry == self.registry(),
    {
        &self.bus_controllers
    }

    /// The controller that was registered under `name`.
    pub fn get_bus(&self, name: &str) -> (r: Option<&D::Bus>)
        ensures
            r is Some <==> self@.buses.contains(name@),
            r matches Some(b) ==> exists|i: int| #[trigger]
                first_named(self@.buses, name@, i) && *b == self.registry().controller(i),
    {
        let r = self.bus_controllers.get_bus(name);
        proof {
            if let Some(b) = r {
                let i = choose|i: int| #[trigger]
                    first_named(self.bus_controllers@, name@, i) && *b
                        == self.bus_controllers.controller(i);
                assert(first_named(self@.buses, name@, i) && *b == self.registry().controller(i));
            }
        }
        r
    }

    /// The controllers, in registration order.
    pub fn get_buses(&self) -> (all: Vec<&D::Bus>)
        ensures
            all@.len() == self@.buses.len(),
            forall|i: int|
                0 <= i < all@.len() ==> *all@[i] == #[trigger] self.registry().controller(i),
    {
        self.bus_controllers.get_buses()
    }

    /// Whether a controller named `name` is registered.
    pub fn has_bus(&self, name: &str) -> (r: bool)
        ensures
            r == self@.buses.contains(name@),
    {
        self.bus_controllers.has_bus(name)
    }

    /// The record at `address`.
    pub fn get_device(&self, address: &Address) -> (r: Option<&Device<D>>)
        ensures
            r is Some <==> self@.has_device(address.value),
            r matches Some(d) ==> d@.address == address.value && exists|i: int| #[trigger]
                self@.is_first(address.value, i) && *d == self.device(i),
    {
        match self.find_device(address.value) {
            Some(i) => {
                let d = &self.devices[i];
                proof {
                    assert(self@.is_first(address.value, i as int) && *d == self.device(i as int));
                }
                Some(d)
            },
            None => None,
        }
    }

    /// The record named `name`.
    pub fn get_device_with_name(&self, name: &str) -> (r: Option<&Device<D>>)
        ensures
            r is Some <==> self@.has_name(name@),
            r matches Some(d) ==> d@.name == name@ && exists|i: int| #[trigger]
                self@.is_first_named(name@, i) && *d == self.device(i),
    {
        match self.find_name(name) {
            Some(i) => {
                let d = &self.devices[i];
                proof {
                    assert(self@.is_first_named(name@, i as int) && *d == self.device(i as int));
                }
                Some(d)
            },
            None => None,
        }
    }

    /// The records, in registration order.
    pub fn get_devices(&self) -> (all: Vec<&Device<D>>)
        ensures
            all@.len() == self@.devices.len(),
            forall|i: int| 0 <= i < all@.len() ==> *all@[i] == #[trigger] self.device(i),
    {
        let mut all: Vec<&Device<D>> = Vec::new();
        let n = self.devices.len();
        let mut i: usize = 0;
        while i < n
            invariant
                i <= n,
                n == self.devices@.len(),
                all@.len() == i,
                forall|j: int| 0 <= j < i ==> *all@[j] == self.devices@[j],
            decreases n - i,
        {
            all.push(&self.devices[i]);
            i += 1;
        }
        all
    }

    /// The driver of the device at `address`, for use through one of its
    /// capability interfaces. The records themselves stay as they are.
    pub fn get_device_mut(&mut self, address: &Address) -> (r: Option<&mut D>)
        ensures
            r is Some <==> old(self)@.has_device(address.value),
            old(self)@.same_records(final(self)@),
            final(self)@.buses == old(self)@.buses,
            final(self)@.devices =~= old(self)@.devices,
            r matches Some(d) ==> exists|i: int| #[trigger]
                old(self)@.is_first(address.value, i) && *d == old(self).device(i).spec_driver(),
    {
        match self.find_device(address.value) {
            Some(i) => {
                let dev = &mut self.devices[i];
                proof {
                    assert(old(self)@.is_first(address.value, i as int));
                }
                Some(dev.as_mut())
            },
            None => None,
        }
    }

    /// The driver of the device at `address` through its capability
    /// interface `C`, for an operation that changes the device. There is
    /// nothing to hand out where no device is at `address`, or where its
    /// driver has no adapter to offer. The records themselves stay as they
    /// are.
    pub fn get_capability_mut<C: ?Sized>(&mut self, address: &Address) -> (r: Option<&mut C>) where
        D: CapabilityCast<C>,
        ensures
            r is Some ==> old(self)@.has_device(address.value),
            old(self)@.same_records(final(self)@),
            final(self)@.buses == old(self)@.buses,
            final(self)@.devices =~= old(self)@.devices,
    {
        match self.find_device(address.value) {
            Some(i) => {
                let dev = &mut self.devices[i];
                dev.as_capability_mut()
            },
            None => None,
        }
    }

    /// Whether a device is registered at `address`.
    pub fn has_device(&self, address: &Address) -> (r: bool)
        ensures
            r == self@.has_device(address.value),
    {
        self.find_device(address.value).is_some()
    }
}

impl<D: DeviceDriver> DeviceServer<D> where D::Bus: Clone {
    /// A further handle on the controller that was registered under
    /// `name`, for a driver to keep between `start` and `stop`: a clone of
    /// the registered handle.
    pub fn get_bus_ptr(&self, name: &str) -> (r: Option<D::Bus>)
        ensures
            r is Some <==> self@.buses.contains(name@),
            r matches Some(b) ==> exists|i: int| #[trigger]
                first_named(self@.buses, name@, i) && cloned(self.registry().controller(i), b),
    {
        let r = self.bus_controllers.get_bus_ptr(name);
        proof {
            if r is Some {
                let i = choose|i: int| #[trigger]
                    first_named(self.bus_controllers@, name@, i) && cloned(
                        self.bus_controllers.controller(i),
                        r->Some_0,
                    );
                assert(first_named(self@.buses, name@, i) && cloned(
                    self.registry().controller(i),
                    r->Some_0,
                ));
            }
        }
        r
    }
}

/// What a builder has collected: the names of the controllers and the
/// records, both in the order in which they were added.
pub struct BuilderState {
    pub buses: Seq<Seq<char>>,
    pub devices: Seq<DeviceInfo>,
}

impl BuilderState {
    /// Every record is running, so that none is left to start.
    pub open spec fn all_running(self) -> bool {
        forall|i: int| 0 <= i < self.devices.len() ==> (#[trigger] self.devices[i]).running
    }

    /// No two records have the same address or the same name.
    pub open spec fn devices_distinct(self) -> bool {
        &&& forall|i: int, j: int|
            0 <= i < j < self.devices.len() ==> (#[trigger] self.devices[i]).address != (
            #[trigger] self.devices[j]).address
        &&& forall|i: int, j: int|
            0 <= i < j < self.devices.len() ==> (#[trigger] self.devices[i]).name != (
            #[trigger] self.devices[j]).name
    }
}

/// Collects controllers and devices for a server. `build` registers them
/// last added first.
pub struct DeviceServerBuilder<D: DeviceDriver> {
    bus_controllers: Vec<Registered<D::Bus>>,
    devices: Vec<Device<D>>,
}

impl<D: DeviceDriver> View for DeviceServerBuilder<D> {
    type V = BuilderState;

    closed spec fn view(&self) -> BuilderState {
        BuilderState {
            buses: Seq::new(
                self.bus_controllers@.len(),
                |i: int| self.bus_controllers@[i].name@,
            ),
            devices: Seq::new(self.devices@.len(), |i: int| self.devices@[i]@),
        }
    }
}

impl<D: DeviceDriver> DeviceServerBuilder<D> {
    /// A builder that has collected nothing.
    pub fn configure() -> (builder: Self)
        ensures
            builder@.buses == Seq::<Seq<char>>::empty(),
            builder@.devices == Seq::<DeviceInfo>::empty(),
    {
        let builder = DeviceServerBuilder { bus_controllers: Vec::new(), devices: Vec::new() };
        proof {
            assert(builder@.buses =~= Seq::<Seq<char>>::empty());
            assert(builder@.devices =~= Seq::<DeviceInfo>::empty());
        }
        builder
    }

    pub fn add_device(self, device: Device<D>) -> (builder: Self)
        ensures
            builder@.buses == self@.buses,
            builder@.devices == self@.devices.push(device@),
    {
        let mut builder = self;
        builder.devices.push(device);
        proof {
            assert(builder@.buses =~= self@.buses);
            assert(builder@.devices =~= self@.devices.push(device@));
        }
        builder
    }

    /// Adds `bus` under `name`.
    pub fn add_bus_as(self, name: String, bus: D::Bus) -> (builder: Self)
        ensures
            builder@.buses == self@.buses.push(name@),
            builder@.devices == self@.devices,
    {
        let mut builder = self;
        let ghost text = name@;
        builder.bus_controllers.push(Registered { name, bus });
        proof {
            assert(builder@.buses =~= self@.buses.push(text));
            assert(builder@.devices =~= self@.devices);
        }
        builder
    }

    /// Adds `bus` under the name that it gives.
    pub fn add_bus(self, bus: D::Bus) -> (builder: Self)
        ensures
            exists|name: Seq<char>| builder@.buses == self@.buses.push(name),
            builder@.devices == self@.devices,
    {
        let name = bus.name();
        self.add_bus_as(name, bus)
    }

    /// Builds the server: registers the controllers, then the devices, each
    /// kind last added first, and with `start_devices` starts every device
    /// that is not running.
    ///
    /// Two controllers of one name are `DuplicateController`. Two devices
    /// of one address or one name are `DuplicateDevice`. With
    /// `start_devices` a driver that fails to start ends the build with its
    /// error. Where nothing repeats and no device is left to start, the
    /// build succeeds.
    pub fn build(self, start_devices: bool) -> (r: Result<DeviceServer<D>, DeviceError>)
        ensures
            !distinct(self@.buses) ==> r == Err::<DeviceServer<D>, DeviceError>(
                DeviceError::DuplicateController,
            ),
            distinct(self@.buses) && !self@.devices_distinct() ==> r is Err,
            distinct(self@.buses) && self@.devices_distinct() && (!start_devices
                || self@.all_running()) ==> r is Ok,
            r matches Ok(server) ==> {
                &&& server@.wf()
                &&& server@.buses == self@.buses.reverse()
                &&& server@.devices.len() == self@.devices.len()
                &&& forall|i: int|
                    0 <= i < server@.devices.len() ==> #[trigger] server@.devices[i]
                        == self@.devices[self@.devices.len() - 1 - i].with_running(
                        start_devices || self@.devices[self@.devices.len() - 1 - i].running,
                    )
            },
    {
        let mut buses = self.bus_controllers;
        let mut devices = self.devices;
        let mut server: DeviceServer<D> = DeviceServer::new();
        let ghost names = self@.buses;
        let ghost records = self@.devices;
        let n = buses.len();
        let mut k: usize = 0;
        while k < n
            invariant
                k <= n,
                n == names.len(),
                names == self@.buses,
                buses@.len() == n - k,
                forall|i: int| 0 <= i < n - k ==> (#[trigger] buses@[i]).name@ == names[i],
                server@.wf(),
                server@.devices == Seq::<DeviceInfo>::empty(),
                server@.buses.len() == k,
                forall|i: int| 0 <= i < k ==> #[trigger] server@.buses[i] == names[n - 1 - i],
            decreases n - k,
        {
            let entry = buses.pop().unwrap();
            let ghost name = entry.name@;
            proof {
                assert(name == names[n - 1 - k]);
                if server@.buses.contains(name) {
                    let i = choose|i: int| 0 <= i < k && server@.buses[i] == name;
                    assert(names[n - 1 - i] == names[n - 1 - k]);
                }
            }
            match server.register_bus_as(entry.name, entry.bus) {
                Ok(()) => {},
                Err(e) => return Err(e),
            }
            k += 1;
        }
        proof {
            assert(server@.buses =~= names.reverse());
            assert(distinct(names)) by {
                assert forall|i: int, j: int| 0 <= i < j < names.len() implies names[i]
                    != names[j] by {
                    assert(server@.buses[n - 1 - j] == names[j]);
                    assert(server@.buses[n - 1 - i] == names[i]);
                }
            }
        }
        let m = devices.len();
        let mut k: usize = 0;
        while k < m
            invariant
                k <= m,
                m == records.len(),
                records == self@.devices,
                distinct(self@.buses),
                devices@.len() == m - k,
                forall|i: int| 0 <= i < m - k ==> (#[trigger] devices@[i])@ == records[i],
                server@.wf(),
                server@.buses == names.reverse(),
                server@.devices.len() == k,
                forall|i: int|
                    0 <= i < k ==> #[trigger] server@.devices[i] == records[m - 1 - i].with_running(
                        start_devices || records[m - 1 - i].running,
                    ),
            decreases m - k,
        {
            let device = devices.pop().unwrap();
            let ghost info = device@;
            proof {
                assert(info == records[m - 1 - k]);
                if server@.has_device(info.address) {
                    let i = choose|i: int|
                        0 <= i < k && (#[trigger] server@.devices[i]).address == info.address;
                    assert(records[m - 1 - i].address == records[m - 1 - k].address);
                }
                if server@.has_name(info.name) {
                    let i = choose|i: int|
                        0 <= i < k && (#[trigger] server@.devices[i]).name == info.name;
                    assert(records[m - 1 - i].name == records[m - 1 - k].name);
                }
            }
            match server.register_device(device, start_devices) {
                Ok(_) => {},
                Err(e) => {
                    return Err(e);
                },
            }
            k += 1;
        }
        proof {
            assert(self@.devices_distinct()) by {
                assert forall|i: int, j: int| 0 <= i < j < records.len() implies (
                #[trigger] records[i]).address != (#[trigger] records[j]).address && records[i].name
                    != records[j].name by {
                    assert(server@.devices[m - 1 - j].address == records[j].address);
                    assert(server@.devices[m - 1 - i].address == records[i].address);
                    assert(server@.devices[m - 1 - j].name == records[j].name);
                    assert(server@.devices[m - 1 - i].name == records[i].name);
                }
            }
        }
        Ok(server)
    }
}

} // verus!
