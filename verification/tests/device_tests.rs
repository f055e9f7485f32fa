use std::sync::Arc;

use device_supervisor::bus::BusController;
use device_supervisor::capabilities::{CapabilityCast, CapabilityId, CapabilityProbe};
use device_supervisor::config::DeviceConfig;
use device_supervisor::device::{
    Address, BusRegistry, Device, DeviceDriver, DeviceError, DeviceServer, DeviceServerBuilder,
};
use parking_lot::RwLock;

struct StubController {}

impl StubController {
    fn new() -> Self {
        StubController {}
    }

    fn do_thing(&self) -> String {
        "hello".to_string()
    }

    fn name(&self) -> String {
        "STUB".to_string()
    }
}

struct FunController {
    fun_count: u32,
}

impl FunController {
    pub fn new() -> Self {
        Self { fun_count: 0 }
    }

    pub fn increase_fun(&mut self) -> Option<u32> {
        if self.fun_count >= 10 {
            return None;
        }

        self.fun_count += 1;
        Some(self.fun_count)
    }

    pub fn get_fun_count(&self) -> u32 {
        self.fun_count
    }

    fn name(&self) -> String {
        "FUN".to_string()
    }
}

/// A shared handle on one of the controllers of these tests.
#[derive(Clone)]
enum TestBus {
    Stub(Arc<RwLock<StubController>>),
    Fun(Arc<RwLock<FunController>>),
}

impl TestBus {
    fn stub(c: StubController) -> Self {
        TestBus::Stub(Arc::new(RwLock::new(c)))
    }

    fn fun(c: FunController) -> Self {
        TestBus::Fun(Arc::new(RwLock::new(c)))
    }

    fn as_stub(self) -> Option<Arc<RwLock<StubController>>> {
        match self {
            TestBus::Stub(c) => Some(c),
            _ => None,
        }
    }

    fn as_fun(self) -> Option<Arc<RwLock<FunController>>> {
        match self {
            TestBus::Fun(c) => Some(c),
            _ => None,
        }
    }
}

impl BusController for TestBus {
    fn name(&self) -> String {
        match self {
            TestBus::Stub(c) => c.read().name(),
            TestBus::Fun(c) => c.read().name(),
        }
    }
}

trait FunCapable {
    fn have_fun(&mut self) -> String;
    fn how_much_fun(&self) -> u32;
}

trait SleepCapable {
    fn sleep(&mut self) -> String;
    fn wake_up(&mut self) -> String;
}

struct NoCapDevice {
    is_loaded: bool,
}

struct FunDevice {
    is_loaded: bool,
    fun_controller: Option<Arc<RwLock<FunController>>>,
}

struct SleepyDevice {
    is_loaded: bool,
    is_resting: bool,
}

struct DummyLedController {
    is_loaded: bool,
}

/// A driver that asks for a PWM controller when it starts.
struct PwmHungryDevice {
    is_loaded: bool,
}

impl FunCapable for FunDevice {
    fn have_fun(&mut self) -> String {
        let mut controller = self.fun_controller.as_ref().expect("device not initialized").write();

        let fun_count = match controller.increase_fun() {
            Some(c) => c,
            None => return "had too much fun!".to_string(),
        };

        if fun_count < 3 {
            "slightly fun".to_string()
        } else if fun_count >= 3 && fun_count < 7 {
            "pretty fun".to_string()
        } else if fun_count >= 7 && fun_count <= 10 {
            "very fun".to_string()
        } else {
            panic!("Invalid fun_count");
        }
    }

    fn how_much_fun(&self) -> u32 {
        let controller = self.fun_controller.as_ref().expect("device not initialized").read();
        controller.get_fun_count()
    }
}

impl SleepCapable for SleepyDevice {
    fn sleep(&mut self) -> String {
        if self.is_resting {
            return "I'm already asleep... zzz..".to_string();
        }

        self.is_resting = true;
        "Going to sleep... Zzz...".to_string()
    }

    fn wake_up(&mut self) -> String {
        if !self.is_resting {
            return "I'm not sleeping!".to_string();
        }

        self.is_resting = false;
        "Good morning".to_string()
    }
}

/// The drivers of these tests, as one closed set.
enum TestDriver {
    NoCap(NoCapDevice),
    Fun(FunDevice),
    Sleepy(SleepyDevice),
    DummyLed(DummyLedController),
    PwmHungry(PwmHungryDevice),
}

impl TestDriver {
    fn nocap() -> Self {
        TestDriver::NoCap(NoCapDevice { is_loaded: false })
    }

    fn fun() -> Self {
        TestDriver::Fun(FunDevice { is_loaded: false, fun_controller: None })
    }

    fn sleepy() -> Self {
        TestDriver::Sleepy(SleepyDevice { is_loaded: false, is_resting: false })
    }

    fn dummy_led() -> Self {
        TestDriver::DummyLed(DummyLedController { is_loaded: false })
    }

    fn pwm_hungry() -> Self {
        TestDriver::PwmHungry(PwmHungryDevice { is_loaded: false })
    }

    fn loaded(&mut self) -> &mut bool {
        match self {
            TestDriver::NoCap(d) => &mut d.is_loaded,
            TestDriver::Fun(d) => &mut d.is_loaded,
            TestDriver::Sleepy(d) => &mut d.is_loaded,
            TestDriver::DummyLed(d) => &mut d.is_loaded,
            TestDriver::PwmHungry(d) => &mut d.is_loaded,
        }
    }

    fn is_nocap(&self) -> bool {
        matches!(self, TestDriver::NoCap(_))
    }
}

impl CapabilityCast<dyn SleepCapable> for TestDriver {
    fn cast_ref(&self) -> Option<&(dyn SleepCapable + 'static)> {
        match self {
            TestDriver::Sleepy(d) => Some(d),
            _ => None,
        }
    }

    fn cast_mut(&mut self) -> Option<&mut (dyn SleepCapable + 'static)> {
        match self {
            TestDriver::Sleepy(d) => Some(d),
            _ => None,
        }
    }
}

impl CapabilityCast<dyn FunCapable> for TestDriver {
    fn cast_ref(&self) -> Option<&(dyn FunCapable + 'static)> {
        match self {
            TestDriver::Fun(d) => Some(d),
            _ => None,
        }
    }

    fn cast_mut(&mut self) -> Option<&mut (dyn FunCapable + 'static)> {
        match self {
            TestDriver::Fun(d) => Some(d),
            _ => None,
        }
    }
}

impl CapabilityProbe for TestDriver {
    fn has_capability(&self, capability: CapabilityId) -> bool {
        matches!((self, capability), (TestDriver::DummyLed(_), CapabilityId::LEDController))
    }
}

impl DeviceDriver for TestDriver {
    type Bus = TestBus;

    fn name(&self) -> String {
        match self {
            TestDriver::NoCap(_) => "nocap".to_string(),
            TestDriver::Fun(_) => "fun".to_string(),
            TestDriver::Sleepy(_) => "sleepy".to_string(),
            TestDriver::DummyLed(_) => "sleepy".to_string(),
            TestDriver::PwmHungry(_) => "hungry".to_string(),
        }
    }

    fn is_running(&self) -> bool {
        match self {
            TestDriver::NoCap(d) => d.is_loaded,
            TestDriver::Fun(d) => d.is_loaded,
            TestDriver::Sleepy(d) => d.is_loaded,
            TestDriver::DummyLed(d) => d.is_loaded,
            TestDriver::PwmHungry(d) => d.is_loaded,
        }
    }

    fn new(_config: Option<&mut DeviceConfig>) -> Result<Self, DeviceError> {
        Ok(TestDriver::nocap())
    }

    fn start(&mut self, parent: &BusRegistry<TestBus>) -> Result<(), DeviceError> {
        match self {
            TestDriver::Fun(d) => {
                d.is_loaded = true;
                d.fun_controller = match parent.get_bus_ptr("FUN").and_then(|b| b.as_fun()) {
                    Some(c) => Some(c),
                    None => return Err(DeviceError::MissingController("FUN".to_string())),
                };
                Ok(())
            }
            TestDriver::PwmHungry(d) => {
                if !parent.has_bus("pwm") {
                    return Err(DeviceError::MissingController("pwm".to_string()));
                }
                d.is_loaded = true;
                Ok(())
            }
            other => {
                *other.loaded() = true;
                Ok(())
            }
        }
    }

    fn stop(&mut self, _parent: &BusRegistry<TestBus>) -> Result<(), DeviceError> {
        *self.loaded() = false;
        Ok(())
    }
}

fn device(
    driver: TestDriver,
    address: Option<Address>,
    friendly_name: Option<String>,
) -> Result<Device<TestDriver>, DeviceError> {
    let address = match address {
        Some(a) => a,
        None => Address::random(),
    };
    Device::from_driver(address, driver, friendly_name)
}

#[test]
fn ds_build_auto() {
    let server = DeviceServerBuilder::configure()
        .add_bus(TestBus::fun(FunController::new()))
        .add_device(device(TestDriver::nocap(), None, None).unwrap())
        .add_device(device(TestDriver::fun(), None, None).unwrap())
        .add_device(device(TestDriver::sleepy(), None, None).unwrap())
        .build(true)
        .expect("failed to build server");

    assert_eq!(server.get_buses().len(), 1);
    assert_eq!(server.get_devices().len(), 3);
}

#[test]
fn ds_build_manual() {
    let mut server: DeviceServer<TestDriver> = DeviceServer::new();
    assert_eq!(server.get_buses().len(), 0);
    assert_eq!(server.get_devices().len(), 0);

    server.register_bus(TestBus::fun(FunController::new())).expect("failed to register bus");
    assert_eq!(server.get_buses().len(), 1);

    server
        .register_bus(TestBus::fun(FunController::new()))
        .expect_err("duplicate bus check failed");
    assert_eq!(server.get_buses().len(), 1);

    let id = server
        .register_device(device(TestDriver::nocap(), None, None).unwrap(), true)
        .expect("failed to add NoCapDevice");
    assert_eq!(server.get_devices().len(), 1);

    server
        .register_device(device(TestDriver::fun(), None, None).unwrap(), true)
        .expect("failed to add FunDevice");
    assert_eq!(server.get_devices().len(), 2);

    server.remove_device(&id).expect("failed to remove NoCapDevice");
    assert_eq!(server.get_devices().len(), 1);
}

#[test]
fn ds_has_bus() {
    let server = DeviceServerBuilder::configure()
        .add_bus(TestBus::fun(FunController::new()))
        .add_device(device(TestDriver::nocap(), None, None).unwrap())
        .add_device(device(TestDriver::fun(), None, None).unwrap())
        .add_device(device(TestDriver::sleepy(), None, None).unwrap())
        .build(true)
        .expect("failed to build server");

    assert!(server.has_bus("FUN"));
    assert!(!server.has_bus("STUB"));
}

#[test]
fn ds_has_device() {
    let server = DeviceServerBuilder::configure()
        .add_bus(TestBus::fun(FunController::new()))
        .add_device(device(TestDriver::nocap(), None, None).unwrap())
        .add_device(device(TestDriver::fun(), None, None).unwrap())
        .add_device(device(TestDriver::sleepy(), None, None).unwrap())
        .build(true)
        .expect("failed to build server");

    let device_ids = server.get_devices().iter().map(|d| d.address()).collect::<Vec<Address>>();
    assert_eq!(device_ids.len(), 3);

    for id in device_ids {
        assert!(server.has_device(&id));
    }
}

#[test]
fn ds_get_device() {
    let mut server = DeviceServerBuilder::configure()
        .add_bus(TestBus::fun(FunController::new()))
        .add_device(device(TestDriver::fun(), None, None).unwrap())
        .add_device(device(TestDriver::sleepy(), None, None).unwrap())
        .build(true)
        .expect("failed to build server");

    let id = server
        .register_device(device(TestDriver::nocap(), None, None).unwrap(), true)
        .expect("failed to register device");
    let device = server.get_device(&id);
    assert!(device.is_some());
    let device = device.unwrap();
    assert!(device.as_ref().is_nocap());
}

#[test]
fn ds_get_buses() {
    let mut bus_names = vec!["STUB", "FUN"];
    let server = DeviceServerBuilder::configure()
        .add_bus(TestBus::fun(FunController::new()))
        .add_bus(TestBus::stub(StubController::new()))
        .add_device(device(TestDriver::nocap(), None, None).unwrap())
        .add_device(device(TestDriver::fun(), None, None).unwrap())
        .add_device(device(TestDriver::sleepy(), None, None).unwrap())
        .build(true)
        .expect("failed to build server");

    for bus in server.get_buses() {
        let bus_name = bus.name();
        if bus_names.len() == 0 {
            panic!(
                "all expected bus names have been seen but get_buses returned another bus: {}",
                &bus_name
            );
        }

        if let Some(index) = bus_names.iter().position(|&name| name == bus_name) {
            bus_names.remove(index);
        } else {
            panic!("duplicate bus returned: {}", &bus_name);
        }
    }

    if !bus_names.is_empty() {
        panic!("expected buses not returned by the server: {:?}", &bus_names);
    }
}

#[test]
fn ds_get_devices() {
    let mut driver_names = vec!["nocap", "fun", "sleepy"];
    let server = DeviceServerBuilder::configure()
        .add_bus(TestBus::fun(FunController::new()))
        .add_device(device(TestDriver::nocap(), None, None).unwrap())
        .add_device(device(TestDriver::fun(), None, None).unwrap())
        .add_device(device(TestDriver::sleepy(), None, None).unwrap())
        .build(true)
        .expect("failed to build server");

    for device in server.get_devices() {
        let driver_name = device.driver_name();
        if driver_names.len() == 0 {
            panic!(
                "all expected driver names have been seen but get_devices returned another device: {}",
                &driver_name
            );
        }

        if let Some(index) = driver_names.iter().position(|&name| name == driver_name) {
            driver_names.remove(index);
        } else {
            panic!("duplicate device returned: {}", &driver_name);
        }
    }

    if !driver_names.is_empty() {
        panic!("expected devices not returned by the server: {:?}", &driver_names);
    }
}

#[test]
fn device_get_capabilities() {
    let mut server: DeviceServer<TestDriver> =
        DeviceServerBuilder::configure().build(true).expect("failed to build server");

    let id = server
        .register_device(device(TestDriver::dummy_led(), None, None).unwrap(), true)
        .expect("failed to register device");
    let device = server.get_device(&id).expect("failed to get device");
    let caps = device.get_capabilities();
    assert!(caps.contains(&CapabilityId::LEDController));
    assert!(!caps.contains(&CapabilityId::GPS));
}

#[test]
fn device_has_capability() {
    let mut server = DeviceServerBuilder::configure()
        .add_bus(TestBus::fun(FunController::new()))
        .add_device(device(TestDriver::nocap(), None, None).unwrap())
        .add_device(device(TestDriver::sleepy(), None, None).unwrap())
        .build(true)
        .expect("failed to build server");

    let id = server
        .register_device(device(TestDriver::sleepy(), None, None).unwrap(), true)
        .expect("failed to register device");
    let device = server.get_device(&id).expect("failed to get device");
    assert!(device.as_capability_ref::<dyn SleepCapable>().is_some());
    assert!(!device.as_capability_ref::<dyn FunCapable>().is_some());
}

#[test]
fn device_as_capability() {
    let mut server = DeviceServerBuilder::configure()
        .add_bus(TestBus::fun(FunController::new()))
        .add_device(device(TestDriver::nocap(), None, None).unwrap())
        .add_device(device(TestDriver::sleepy(), None, None).unwrap())
        .build(true)
        .expect("failed to build server");

    let id = server
        .register_device(device(TestDriver::sleepy(), None, None).unwrap(), true)
        .expect("failed to register device");
    let device = server.get_device(&id).expect("failed to get device");
    device.as_capability_ref::<dyn SleepCapable>().expect("failed to cast device");
}

#[test]
fn device_as_capability_mut() {
    let mut server = DeviceServerBuilder::configure()
        .add_bus(TestBus::fun(FunController::new()))
        .add_device(device(TestDriver::nocap(), None, None).unwrap())
        .add_device(device(TestDriver::sleepy(), None, None).unwrap())
        .build(true)
        .expect("failed to build server");

    let id = server
        .register_device(device(TestDriver::sleepy(), None, None).unwrap(), true)
        .expect("failed to register device");
    let sleepy =
        server.get_capability_mut::<dyn SleepCapable>(&id).expect("failed to cast device");

    // go to sleep
    assert_eq!(sleepy.sleep(), "Going to sleep... Zzz...");
    assert_eq!(sleepy.sleep(), "I'm already asleep... zzz..");

    // and try to wake up
    assert_eq!(sleepy.wake_up(), "Good morning");
    assert_eq!(sleepy.wake_up(), "I'm not sleeping!");
}

#[test]
fn device_bus_access() {
    let mut server = DeviceServerBuilder::configure()
        .add_bus(TestBus::fun(FunController::new()))
        .add_device(device(TestDriver::nocap(), None, None).unwrap())
        .add_device(device(TestDriver::sleepy(), None, None).unwrap())
        .build(true)
        .expect("failed to build server");

    let id = server
        .register_device(device(TestDriver::fun(), None, None).unwrap(), true)
        .expect("failed to register device");
    let fun = server.get_capability_mut::<dyn FunCapable>(&id).expect("failed to cast device");

    for i in 0..10 {
        let fun_status = fun.have_fun();
        assert_eq!(
            match i {
                0 => fun_status == "slightly fun",
                3 => fun_status == "pretty fun",
                7 => fun_status == "very fun",
                _ => true,
            },
            true
        );
    }
}

#[test]
fn ds_bus_ptr_safety_check() {
    let server = DeviceServerBuilder::configure()
        .add_bus(TestBus::fun(FunController::new()))
        .add_device(device(TestDriver::nocap(), None, None).unwrap())
        .add_device(device(TestDriver::sleepy(), None, None).unwrap())
        .build(true)
        .expect("failed to build server");

    assert!(server.get_bus_ptr("STUB").is_none());
    assert!(server.get_bus_ptr("FUN").is_some());
}

#[test]
fn ds_bus_ptr_ref_eq() {
    let server = DeviceServerBuilder::configure()
        .add_bus(TestBus::fun(FunController::new()))
        .add_bus(TestBus::stub(StubController::new()))
        .add_device(device(TestDriver::nocap(), None, None).unwrap())
        .add_device(device(TestDriver::sleepy(), None, None).unwrap())
        .build(true)
        .expect("failed to build server");

    let stub1 =
        server.get_bus_ptr("STUB").and_then(|b| b.as_stub()).expect("failed to get stub ptr");
    let stub2 =
        server.get_bus_ptr("STUB").and_then(|b| b.as_stub()).expect("failed to get stub ptr");
    assert_eq!(Arc::strong_count(&stub1), Arc::strong_count(&stub2));
    assert!(Arc::ptr_eq(&stub1, &stub2));

    let fun1 = server.get_bus_ptr("FUN").and_then(|b| b.as_fun()).expect("failed to get fun ptr");
    let fun2 = server.get_bus_ptr("FUN").and_then(|b| b.as_fun()).expect("failed to get fun ptr");
    assert_eq!(Arc::strong_count(&fun1), Arc::strong_count(&fun2));
    assert!(Arc::ptr_eq(&fun1, &fun2));

    let stub1_ptr = Arc::as_ptr(&stub1).cast::<()>();
    let stub2_ptr = Arc::as_ptr(&stub2).cast::<()>();
    let fun1_ptr = Arc::as_ptr(&fun1).cast::<()>();
    let fun2_ptr = Arc::as_ptr(&fun2).cast::<()>();

    assert_eq!(stub1_ptr, stub2_ptr);
    assert_eq!(fun1_ptr, fun2_ptr);
    assert_ne!(stub1_ptr, fun1_ptr);
    assert_ne!(stub2_ptr, fun2_ptr);
}

#[test]
fn ds_bus_ptr_access() {
    let server = DeviceServerBuilder::configure()
        .add_bus(TestBus::fun(FunController::new()))
        .add_bus(TestBus::stub(StubController::new()))
        .add_device(device(TestDriver::nocap(), None, None).unwrap())
        .add_device(device(TestDriver::sleepy(), None, None).unwrap())
        .build(true)
        .expect("failed to build server");

    let stub =
        server.get_bus_ptr("STUB").and_then(|b| b.as_stub()).expect("failed to get stub ptr");
    let fun = server.get_bus_ptr("FUN").and_then(|b| b.as_fun()).expect("failed to get fun ptr");

    // test stub
    assert_eq!(stub.read().name(), "STUB");
    assert_eq!(stub.read().do_thing(), "hello");

    // test fun
    assert_eq!(fun.read().name(), "FUN");
    assert_eq!(fun.read().get_fun_count(), 0);
    assert_eq!(fun.write().increase_fun().unwrap(), 1);
    assert_eq!(fun.read().get_fun_count(), 1);
}

#[test]
fn ds_start_devices() {
    let address = Address::random();
    let server = DeviceServerBuilder::configure()
        .add_device(device(TestDriver::sleepy(), Some(address), None).unwrap())
        .build(true)
        .expect("failed to build server");

    let device = server.get_device(&address).expect("failed to get device by id");
    assert_eq!(device.is_running(), true);
}

#[test]
fn ds_device_start() {
    let address = Address::random();
    let mut server = DeviceServerBuilder::configure()
        .add_device(device(TestDriver::sleepy(), Some(address), None).unwrap())
        .build(false)
        .expect("failed to build server");

    let device = server.get_device(&address).expect("failed to get device by id");
    assert_eq!(device.is_running(), false);

    server.start_device(&address).expect("failed to start device");
    let device = server.get_device(&address).expect("failed to get device by id");
    assert_eq!(device.is_running(), true);

    server.start_device(&address).expect_err("started device twice");
}

#[test]
fn ds_stop_device() {
    let address = Address::random();
    let mut server = DeviceServerBuilder::configure()
        .add_device(device(TestDriver::sleepy(), Some(address), None).unwrap())
        .build(true)
        .expect("failed to build server");

    let device = server.get_device(&address).expect("failed to get device by id");
    assert_eq!(device.is_running(), true);

    server.stop_device(&address).expect("failed to stop device");
    let device = server.get_device(&address).expect("failed to get device by id");
    assert_eq!(device.is_running(), false);

    server.stop_device(&address).expect_err("attempted to stop device twice");
}

#[test]
fn ds_duplicate_address_check() {
    let address = Address::random();
    let server = DeviceServerBuilder::configure()
        .add_device(device(TestDriver::sleepy(), Some(address), None).unwrap())
        .add_device(device(TestDriver::sleepy(), Some(address), None).unwrap())
        .add_device(device(TestDriver::sleepy(), Some(address), None).unwrap())
        .build(true);

    assert!(server.is_err(), "somehow managed to add multiple duplicates");
}

#[test]
fn ds_duplicate_name_check() {
    let name = "some_device".to_owned();
    let server = DeviceServerBuilder::configure()
        .add_device(device(TestDriver::sleepy(), None, Some(name.clone())).unwrap())
        .add_device(device(TestDriver::sleepy(), None, Some(name.clone())).unwrap())
        .add_device(device(TestDriver::sleepy(), None, Some(name.clone())).unwrap())
        .build(true);

    assert!(server.is_err(), "somehow managed to add multiple duplicates");
}

#[test]
fn ds_get_device_by_name() {
    let server = DeviceServerBuilder::configure()
        .add_device(device(TestDriver::sleepy(), None, Some("device1".to_owned())).unwrap())
        .add_device(device(TestDriver::sleepy(), None, Some("device2".to_owned())).unwrap())
        .add_device(device(TestDriver::sleepy(), None, Some("device7".to_owned())).unwrap())
        .build(true)
        .expect("failed to build device server");

    assert!(server.get_device_with_name("device1").is_some(), "failed to find valid device");
    assert!(server.get_device_with_name("device2").is_some(), "failed to find valid device");
    assert!(server.get_device_with_name("device3").is_none(), "found non-existent device");
    assert!(server.get_device_with_name("device7").is_some(), "failed to find valid device");
}

#[test]
fn missing_controller_aborts_registration() {
    let mut server: DeviceServer<TestDriver> = DeviceServer::new();
    server.register_bus(TestBus::stub(StubController::new())).expect("failed to register bus");

    let r = server.register_device(device(TestDriver::pwm_hungry(), None, None).unwrap(), true);
    assert_eq!(r, Err(DeviceError::MissingController("pwm".to_string())));
    assert_eq!(server.get_devices().len(), 0);
}

#[test]
fn have_fun_follows_the_count() {
    let mut server = DeviceServerBuilder::configure()
        .add_bus(TestBus::fun(FunController::new()))
        .build(true)
        .expect("failed to build server");
    let id = server
        .register_device(device(TestDriver::fun(), None, None).unwrap(), true)
        .expect("failed to register device");
    let fun = server.get_capability_mut::<dyn FunCapable>(&id).expect("failed to cast device");

    let mut said = Vec::new();
    for _ in 0..12 {
        said.push(fun.have_fun());
    }
    assert_eq!(
        said,
        vec![
            "slightly fun",
            "slightly fun",
            "pretty fun",
            "pretty fun",
            "pretty fun",
            "pretty fun",
            "very fun",
            "very fun",
            "very fun",
            "very fun",
            "had too much fun!",
            "had too much fun!",
        ]
    );
    assert_eq!(fun.how_much_fun(), 10);
}

#[test]
fn duplicate_name_and_address_are_refused() {
    let a = Address { value: 0xa1a2a3a4b1b2c1c2d1d2d3d4d5d6d7d8 };
    let b = Address { value: 7 };
    let mut server: DeviceServer<TestDriver> = DeviceServer::new();
    server
        .register_device(
            device(TestDriver::sleepy(), Some(a), Some("sensor1".to_string())).unwrap(),
            false,
        )
        .expect("failed to register device");

    let same_name = server.register_device(
        device(TestDriver::nocap(), Some(b), Some("sensor1".to_string())).unwrap(),
        false,
    );
    assert_eq!(
        same_name,
        Err(DeviceError::DuplicateDevice("device with name sensor1 already registered".to_string()))
    );

    let same_address = server.register_device(
        device(TestDriver::nocap(), Some(a), Some("sensor2".to_string())).unwrap(),
        false,
    );
    assert_eq!(
        same_address,
        Err(DeviceError::DuplicateDevice(
            "device with address a1a2a3a4-b1b2-c1c2-d1d2-d3d4d5d6d7d8 already registered"
                .to_string()
        ))
    );
    assert_eq!(server.get_devices().len(), 1);
}

#[test]
fn default_name_is_driver_and_address() {
    let a = Address { value: 0xa1a2a3a4b1b2c1c2d1d2d3d4d5d6d7d8 };
    let d = device(TestDriver::sleepy(), Some(a), None).unwrap();
    assert_eq!(d.device_name(), "sleepy-a1a2a3a4-b1b2-c1c2-d1d2-d3d4d5d6d7d8");
    assert_eq!(d.address(), a);
    assert_eq!(a.to_string(), "a1a2a3a4-b1b2-c1c2-d1d2-d3d4d5d6d7d8");

    let empty = device(TestDriver::sleepy(), Some(a), Some(String::new()));
    assert!(matches!(empty, Err(DeviceError::InvalidConfig(m)) if m == "invalid device name"));
}

#[test]
fn capabilities_stay_as_probed() {
    let a = Address { value: 1 };
    let mut server: DeviceServer<TestDriver> = DeviceServer::new();
    server
        .register_device(device(TestDriver::dummy_led(), Some(a), None).unwrap(), false)
        .unwrap();
    let before = server.get_device(&a).unwrap().get_capabilities();
    assert_eq!(before, vec![CapabilityId::LEDController]);

    server.start_device(&a).unwrap();
    // the driver is swapped for one that offers nothing: the record keeps what it probed
    *server.get_device_mut(&a).unwrap() = TestDriver::nocap();
    server.stop_device(&a).unwrap();

    let device = server.get_device(&a).unwrap();
    assert_eq!(device.get_capabilities(), before);
    assert!(device.has_capability(CapabilityId::LEDController));
    assert!(!device.has_capability(CapabilityId::GPS));
}

#[test]
fn lifecycle_errors_name_the_state() {
    let a = Address { value: 2 };
    let missing = Address { value: 3 };
    let mut server: DeviceServer<TestDriver> = DeviceServer::new();
    server.register_device(device(TestDriver::sleepy(), Some(a), None).unwrap(), false).unwrap();

    assert_eq!(
        server.stop_device(&a),
        Err(DeviceError::InvalidOperation("device is not currently running".to_string()))
    );
    assert_eq!(server.start_device(&a), Ok(()));
    assert!(server.get_device(&a).unwrap().is_running());
    assert_eq!(
        server.start_device(&a),
        Err(DeviceError::InvalidOperation("device is already running".to_string()))
    );
    assert_eq!(server.start_device(&missing), Err(DeviceError::NotFound(missing)));
    assert_eq!(server.stop_device(&missing), Err(DeviceError::NotFound(missing)));
    assert_eq!(server.remove_device(&missing), Err(DeviceError::NotFound(missing)));
    assert_eq!(server.remove_device(&a), Ok(()));
    assert!(!server.has_device(&a));
}

#[test]
fn duplicate_bus_leaves_registry_unchanged() {
    let mut server: DeviceServer<TestDriver> = DeviceServer::new();
    assert_eq!(server.register_bus(TestBus::fun(FunController::new())), Ok(()));
    assert_eq!(server.register_bus(TestBus::stub(StubController::new())), Ok(()));
    assert_eq!(
        server.register_bus(TestBus::fun(FunController::new())),
        Err(DeviceError::DuplicateController)
    );
    let names: Vec<String> = server.get_buses().iter().map(|b| b.name()).collect();
    assert_eq!(names, vec!["FUN", "STUB"]);

    let held = server.get_bus_ptr("FUN").and_then(|b| b.as_fun()).unwrap();
    let other = server.get_bus_ptr("FUN").and_then(|b| b.as_fun()).unwrap();
    drop(held);
    assert_eq!(other.write().increase_fun(), Some(1));
    assert_eq!(
        server.register_bus(TestBus::fun(FunController::new())),
        Err(DeviceError::DuplicateController)
    );
}

#[test]
fn sleepy_started_on_build_then_stopped_twice() {
    let a = Address { value: 0x51ee9 };
    let mut server = DeviceServerBuilder::configure()
        .add_device(device(TestDriver::sleepy(), Some(a), None).unwrap())
        .build(true)
        .expect("failed to build server");

    assert!(server.get_device(&a).unwrap().is_running());
    assert_eq!(server.stop_device(&a), Ok(()));
    assert!(!server.get_device(&a).unwrap().is_running());
    assert_eq!(
        server.stop_device(&a),
        Err(DeviceError::InvalidOperation("device is not currently running".to_string()))
    );
    assert!(!server.get_device(&a).unwrap().is_running());
}

#[test]
fn builder_registers_last_added_first() {
    let server = DeviceServerBuilder::configure()
        .add_bus(TestBus::fun(FunController::new()))
        .add_bus(TestBus::stub(StubController::new()))
        .add_device(device(TestDriver::nocap(), Some(Address { value: 1 }), None).unwrap())
        .add_device(device(TestDriver::sleepy(), Some(Address { value: 2 }), None).unwrap())
        .build(false)
        .expect("failed to build server");
    let names: Vec<String> = server.get_buses().iter().map(|b| b.name()).collect();
    assert_eq!(names, vec!["STUB", "FUN"]);
    let addresses: Vec<u128> = server.get_devices().iter().map(|d| d.address().value).collect();
    assert_eq!(addresses, vec![2, 1]);
    assert!(server.get_devices().iter().all(|d| !d.is_running()));

    let twice = DeviceServerBuilder::<TestDriver>::configure()
        .add_bus(TestBus::fun(FunController::new()))
        .add_bus(TestBus::fun(FunController::new()))
        .build(false);
    assert!(matches!(twice, Err(DeviceError::DuplicateController)));
}

#[test]
fn record_from_parts() {
    let a = Address { value: 9 };
    let d = Device::from_parts(
        a,
        TestDriver::nocap(),
        "drv",
        true,
        vec![CapabilityId::GPS, CapabilityId::Barometer],
        None,
    )
    .unwrap();
    assert_eq!(d.device_name(), "drv-00000000-0000-0000-0000-000000000009");
    assert_eq!(d.driver_name(), "nocap");
    assert!(d.is_running());
    assert_eq!(d.get_capabilities(), vec![CapabilityId::GPS, CapabilityId::Barometer]);
    assert!(d.has_capability(CapabilityId::Barometer));
    assert!(!d.has_capability(CapabilityId::LightSensor));

    let named = Device::from_parts(
        a,
        TestDriver::nocap(),
        "drv",
        false,
        Vec::new(),
        Some("porch".to_string()),
    )
    .unwrap();
    assert_eq!(named.device_name(), "porch");
    assert!(!named.is_running());
}

#[test]
fn random_addresses_are_version_4_uuids() {
    let mut seen = Vec::new();
    for _ in 0..32 {
        let a = Address::random();
        assert_eq!((a.value >> 76) & 0xf, 4);
        assert_eq!((a.value >> 62) & 0x3, 2);
        let text = a.to_string();
        assert_eq!(text.len(), 36);
        assert_eq!(text.as_bytes()[14], b'4');
        assert!(matches!(text.as_bytes()[19], b'8' | b'9' | b'a' | b'b'));
        assert!(!seen.contains(&a));
        seen.push(a);
    }
}

#[test]
fn record_from_new_driver() {
    let a = Address { value: 11 };
    let failed: Result<Device<TestDriver>, DeviceError> = Device::from_new_driver(
        Some(a),
        Err(DeviceError::HardwareError("no chip".to_string())),
        Some("lamp".to_string()),
    );
    assert!(matches!(failed, Err(DeviceError::HardwareError(m)) if m == "no chip"));

    let empty = Device::from_new_driver(Some(a), Ok(TestDriver::sleepy()), Some(String::new()));
    assert!(matches!(empty, Err(DeviceError::InvalidConfig(m)) if m == "invalid device name"));

    let d = Device::from_new_driver(Some(a), Ok(TestDriver::sleepy()), None).unwrap();
    assert_eq!(d.address(), a);
    assert_eq!(d.device_name(), "sleepy-00000000-0000-0000-0000-00000000000b");
    assert_eq!(d.driver_name(), "sleepy");

    let drawn = Device::from_new_driver(None, Ok(TestDriver::dummy_led()), None).unwrap();
    assert_eq!((drawn.address().value >> 76) & 0xf, 4);
    assert_eq!(drawn.device_name(), format!("sleepy-{}", drawn.address().to_string()));
    assert_eq!(drawn.get_capabilities(), vec![CapabilityId::LEDController]);
}

#[test]
fn record_new_and_from_config() {
    let a = Address { value: 12 };
    let d: Device<TestDriver> = Device::new(Some(a), Some("plain".to_string())).unwrap();
    assert_eq!(d.address(), a);
    assert_eq!(d.device_name(), "plain");
    assert_eq!(d.driver_name(), "nocap");
    assert!(!d.is_running());
    assert_eq!(d.get_capabilities(), Vec::new());

    let drawn: Device<TestDriver> = Device::new(None, None).unwrap();
    assert_eq!((drawn.address().value >> 76) & 0xf, 4);
    assert_eq!(drawn.device_name(), format!("nocap-{}", drawn.address().to_string()));

    let empty: Result<Device<TestDriver>, DeviceError> = Device::new(Some(a), Some(String::new()));
    assert!(matches!(empty, Err(DeviceError::InvalidConfig(m)) if m == "invalid device name"));

    let mut entry = DeviceConfig::new("nocap".to_string(), Some("shelf".to_string()), "{}".to_string());
    let d: Device<TestDriver> = Device::from_config(a, &mut entry).unwrap();
    assert_eq!(d.address(), a);
    assert_eq!(d.device_name(), "shelf");

    let mut unnamed = DeviceConfig::new_without_data("nocap".to_string(), None);
    let d: Device<TestDriver> = Device::from_config(a, &mut unnamed).unwrap();
    assert_eq!(d.device_name(), "nocap-00000000-0000-0000-0000-00000000000c");

    let mut blank = DeviceConfig::new_without_data("nocap".to_string(), Some(String::new()));
    let r: Result<Device<TestDriver>, DeviceError> = Device::from_config(a, &mut blank);
    assert!(matches!(r, Err(DeviceError::InvalidConfig(m)) if m == "invalid device name"));
}

/// Counts how often it is started and stopped.
struct CountingDriver {
    starts: u32,
    stops: u32,
    is_loaded: bool,
    fail: bool,
}

impl CapabilityProbe for CountingDriver {
    fn has_capability(&self, _capability: CapabilityId) -> bool {
        false
    }
}

impl DeviceDriver for CountingDriver {
    type Bus = TestBus;

    fn name(&self) -> String {
        "counting".to_string()
    }

    fn is_running(&self) -> bool {
        self.is_loaded
    }

    fn new(_config: Option<&mut DeviceConfig>) -> Result<Self, DeviceError> {
        Ok(CountingDriver { starts: 0, stops: 0, is_loaded: false, fail: false })
    }

    fn start(&mut self, _parent: &BusRegistry<TestBus>) -> Result<(), DeviceError> {
        self.starts += 1;
        if self.fail {
            return Err(DeviceError::HardwareError("no answer".to_string()));
        }
        self.is_loaded = true;
        Ok(())
    }

    fn stop(&mut self, _parent: &BusRegistry<TestBus>) -> Result<(), DeviceError> {
        self.stops += 1;
        self.is_loaded = false;
        Ok(())
    }
}

#[test]
fn refused_transitions_do_not_reach_the_driver() {
    let a = Address { value: 21 };
    let mut server: DeviceServer<CountingDriver> = DeviceServer::new();
    server.register_device(Device::new(Some(a), None).unwrap(), false).unwrap();

    assert!(server.stop_device(&a).is_err());
    assert_eq!(server.get_device(&a).unwrap().as_ref().stops, 0);
    assert!(!server.get_device(&a).unwrap().is_running());

    assert_eq!(server.start_device(&a), Ok(()));
    assert_eq!(server.get_device(&a).unwrap().as_ref().starts, 1);
    assert!(server.start_device(&a).is_err());
    assert_eq!(server.get_device(&a).unwrap().as_ref().starts, 1);
    assert!(server.get_device(&a).unwrap().is_running());
    assert!(server.has_device(&a));

    // a second device at the same address is refused before its driver is asked
    let mut twin: Device<CountingDriver> = Device::new(Some(a), Some("twin".to_string())).unwrap();
    twin.as_mut().fail = true;
    assert!(matches!(
        server.register_device(twin, true),
        Err(DeviceError::DuplicateDevice(_))
    ));
    assert_eq!(server.get_devices().len(), 1);
}

#[test]
fn registration_hands_the_drivers_error_on() {
    let mut server: DeviceServer<CountingDriver> = DeviceServer::new();
    server.register_bus(TestBus::stub(StubController::new())).unwrap();
    let mut failing: Device<CountingDriver> = Device::new(Some(Address { value: 22 }), None).unwrap();
    failing.as_mut().fail = true;
    assert_eq!(
        server.register_device(failing, true),
        Err(DeviceError::HardwareError("no answer".to_string()))
    );
    assert_eq!(server.get_devices().len(), 0);
    assert!(!server.has_device(&Address { value: 22 }));
    assert_eq!(server.get_buses().len(), 1);
    assert!(server.has_bus("STUB"));

    let d: Device<CountingDriver> = Device::new(Some(Address { value: 23 }), None).unwrap();
    assert_eq!(
        server.settle_registration(d, Err(DeviceError::MissingController("pwm".to_string()))),
        Err(DeviceError::MissingController("pwm".to_string()))
    );
    assert_eq!(server.get_devices().len(), 0);

    let d: Device<CountingDriver> = Device::new(Some(Address { value: 23 }), None).unwrap();
    assert_eq!(server.settle_registration(d, Ok(())), Ok(Address { value: 23 }));
    let again: Device<CountingDriver> =
        Device::new(Some(Address { value: 23 }), Some("other".to_string())).unwrap();
    assert!(matches!(
        server.settle_registration(again, Ok(())),
        Err(DeviceError::DuplicateDevice(_))
    ));
    assert_eq!(server.get_devices().len(), 1);
}

#[test]
fn refused_bus_leaves_the_held_controller_in_place() {
    let mut server: DeviceServer<TestDriver> = DeviceServer::new();
    // an empty server takes any controller
    assert_eq!(server.register_bus(TestBus::fun(FunController::new())), Ok(()));
    let first = server.get_bus_ptr("FUN").and_then(|b| b.as_fun()).unwrap();
    assert_eq!(first.write().increase_fun(), Some(1));

    let dropped = server.get_bus_ptr("FUN").and_then(|b| b.as_fun()).unwrap();
    drop(dropped);
    assert_eq!(
        server.register_bus(TestBus::fun(FunController::new())),
        Err(DeviceError::DuplicateController)
    );
    assert_eq!(
        server.register_bus_as("FUN".to_string(), TestBus::stub(StubController::new())),
        Err(DeviceError::DuplicateController)
    );
    assert_eq!(server.get_buses().len(), 1);
    let after = server.get_bus_ptr("FUN").and_then(|b| b.as_fun()).unwrap();
    assert!(Arc::ptr_eq(&first, &after));
    assert_eq!(after.read().get_fun_count(), 1);
    assert_eq!(
        server.register_bus_as("spare".to_string(), TestBus::fun(FunController::new())),
        Ok(())
    );
    assert!(server.has_bus("spare"));
}

#[test]
fn capability_adapters_on_a_record() {
    let mut d = device(TestDriver::sleepy(), Some(Address { value: 31 }), None).unwrap();
    assert!(d.as_capability_ref::<dyn SleepCapable>().is_some());
    assert!(d.as_capability_ref::<dyn FunCapable>().is_none());
    let sleepy = d.as_capability_mut::<dyn SleepCapable>().unwrap();
    assert_eq!(sleepy.sleep(), "Going to sleep... Zzz...");
    assert!(d.as_capability_mut::<dyn FunCapable>().is_none());
    assert_eq!(d.address(), Address { value: 31 });
    assert_eq!(d.device_name(), "sleepy-00000000-0000-0000-0000-00000000001f");

    let mut server: DeviceServer<TestDriver> = DeviceServer::new();
    assert!(server.get_capability_mut::<dyn SleepCapable>(&Address { value: 31 }).is_none());
    server.register_device(d, false).unwrap();
    assert!(server.get_capability_mut::<dyn FunCapable>(&Address { value: 31 }).is_none());
    let sleepy = server.get_capability_mut::<dyn SleepCapable>(&Address { value: 31 }).unwrap();
    assert_eq!(sleepy.sleep(), "I'm already asleep... zzz..");
}
