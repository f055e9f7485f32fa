use std::collections::HashMap;

use device_supervisor::gpio::{GpioBorrowChecker, GpioError, LeaseId, PinState};
use device_supervisor::text::decimal;

fn pool() -> GpioBorrowChecker {
    let mut pin_map = HashMap::new();
    pin_map.insert(2, PinState::new(2, 12));
    pin_map.insert(3, PinState::new(3, 13));
    pin_map.insert(4, PinState::new(4, 14));
    pin_map.insert(5, PinState::new(5, 15));
    pin_map.insert(6, PinState::new(6, 16));
    GpioBorrowChecker::new(pin_map)
}

fn ids(pins: Vec<&PinState>) -> Vec<u8> {
    pins.iter().map(|p| p.pin_id()).collect()
}

#[test]
fn lease_scenario_busy_then_release() {
    let mut gpio = pool();

    let l1 = gpio.borrow_many(vec![2, 3]).expect("first lease");
    assert_eq!(ids(gpio.get_borrowed()), vec![2, 3]);

    assert_eq!(gpio.borrow_many(vec![3, 5]), Err(GpioError::Busy(3)));
    // the refusal changed nothing
    assert_eq!(ids(gpio.get_borrowed()), vec![2, 3]);
    assert!(gpio.can_borrow_one(5));
    assert!(gpio.has_lease(&l1));

    assert_eq!(gpio.release(&l1), Ok(()));
    assert_eq!(ids(gpio.get_borrowed()), Vec::<u8>::new());

    let l2 = gpio.borrow_many(vec![3, 5]).expect("second lease");
    assert_ne!(l1, l2);
    assert_eq!(ids(gpio.get_borrowed()), vec![3, 5]);
    assert!(!gpio.has_lease(&l1));
    assert!(gpio.has_lease(&l2));
}

#[test]
fn refusal_is_about_the_first_pin_that_blocks() {
    let mut gpio = pool();
    gpio.borrow_one(4).unwrap();
    assert_eq!(gpio.borrow_many(vec![2, 9, 4]), Err(GpioError::PinNotFound(9)));
    assert_eq!(gpio.borrow_many(vec![2, 4, 9]), Err(GpioError::Busy(4)));
    assert_eq!(ids(gpio.get_borrowed()), vec![4]);
    assert!(gpio.can_borrow_many(&[2, 3, 5, 6]));
    assert!(!gpio.can_borrow_many(&[2, 4]));
    assert!(!gpio.can_borrow_many(&[2, 9]));
    assert!(gpio.can_borrow_many(&[]));
}

#[test]
fn lease_token_cannot_be_used_twice() {
    let mut gpio = pool();
    let id = LeaseId { value: 77 };
    assert_eq!(gpio.borrow_many_with_id(vec![2], id), Ok(id));
    assert_eq!(
        gpio.borrow_many_with_id(vec![3], id),
        Err(GpioError::Other("lease identifier is already in use".to_string()))
    );
    assert!(gpio.can_borrow_one(3));
    assert_eq!(gpio.release(&id), Ok(()));
    assert!(gpio.can_borrow_one(2));
}

#[test]
fn same_pin_twice_in_one_request_is_one_lease() {
    let mut gpio = pool();
    let id = gpio.borrow_many(vec![2, 2]).unwrap();
    assert_eq!(ids(gpio.get_borrowed()), vec![2]);
    assert_eq!(gpio.release(&id), Ok(()));
    assert!(gpio.can_borrow_one(2));
}

#[test]
fn release_of_unknown_lease_changes_nothing() {
    let mut gpio = pool();
    let held = gpio.borrow_many(vec![5, 6]).unwrap();
    let unknown = LeaseId { value: held.value.wrapping_add(1) };
    assert_eq!(gpio.release(&unknown), Err(GpioError::LeaseNotFound));
    assert_eq!(ids(gpio.get_borrowed()), vec![5, 6]);
    assert_eq!(gpio.release(&held), Ok(()));
    assert_eq!(gpio.release(&held), Err(GpioError::LeaseNotFound));
}

#[test]
fn fresh_tokens_differ() {
    let mut gpio = pool();
    let a = gpio.borrow_one(2).unwrap();
    let b = gpio.borrow_one(3).unwrap();
    let c = gpio.borrow_one(4).unwrap();
    assert_ne!(a, b);
    assert_ne!(b, c);
    assert_ne!(a, c);
}

#[test]
fn get_translates_to_the_hardware_identifier() {
    let gpio = pool();
    assert_eq!(gpio.get(&3).map(|p| (p.pin_id(), p.bcm_id())), Ok((3, 13)));
    assert_eq!(gpio.get(&16).map(|p| p.bcm_id()), Err(GpioError::PinNotFound(16)));
    assert_eq!(ids(gpio.get_pins()), vec![2, 3, 4, 5, 6]);
    let bcm: Vec<u8> = gpio.get_pins().iter().map(|p| p.bcm_id()).collect();
    assert_eq!(bcm, vec![12, 13, 14, 15, 16]);
}

#[test]
fn pins_at_the_ends_of_the_range() {
    let mut pin_map = HashMap::new();
    pin_map.insert(0, PinState::new(0, 1));
    pin_map.insert(255, PinState::new(255, 2));
    let mut gpio = GpioBorrowChecker::new(pin_map);
    assert!(gpio.has_pin(0));
    assert!(gpio.has_pin(255));
    let id = gpio.borrow_many(vec![255, 0]).unwrap();
    assert_eq!(ids(gpio.get_borrowed()), vec![0, 255]);
    assert_eq!(gpio.release(&id), Ok(()));
    assert_eq!(ids(gpio.get_borrowed()), Vec::<u8>::new());
}

#[test]
fn arbiter_errors_render() {
    assert_eq!(GpioError::Busy(3).to_string(), "pin 3 is busy");
    assert_eq!(GpioError::PinNotFound(255).to_string(), "pin 255 is not available");
    assert_eq!(GpioError::LeaseNotFound.to_string(), "specified lease does not exist");
    assert_eq!(GpioError::PermissionDenied("no".to_string()).to_string(), "permission denied: no");
    assert_eq!(GpioError::OsError("gone".to_string()).to_string(), "os error: gone");
    assert_eq!(GpioError::Unsupported("alt".to_string()).to_string(), "not supported: alt");
    assert_eq!(GpioError::Other("x".to_string()).to_string(), "x");
}

#[test]
fn decimal_renders_numbers() {
    assert_eq!(decimal(0), "0");
    assert_eq!(decimal(9), "9");
    assert_eq!(decimal(10), "10");
    assert_eq!(decimal(255), "255");
    assert_eq!(decimal(61930), "61930");
    assert_eq!(decimal(u64::MAX), "18446744073709551615");
}
