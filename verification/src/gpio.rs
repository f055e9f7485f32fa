//! The pin arbiter: a fixed pool of GPIO lines and the leases that hold
//! them. A lease covers one or more pins and is taken and given back as a
//! whole.

use std::collections::HashMap;
use vstd::prelude::*;
use vstd::string::StringExecFns;
use crate::text::{decimal, decimal_text, joined};
use crate::uuid_text::{fresh_token, is_random_uuid};

verus! {

broadcast use vstd::std_specs::hash::group_hash_axioms;

/// One GPIO line: its logical identifier, the identifier that the hardware
/// knows it by, and whether a lease currently holds it.
#[derive(Clone, Copy, Debug, PartialEq, Eq)]
pub struct PinState {
    pin_number: u8,
    bcm_id: u8,
    leased: bool,
}

impl PinState {
    pub closed spec fn spec_pin_id(&self) -> u8 {
        self.pin_number
    }

    pub closed spec fn spec_bcm_id(&self) -> u8 {
        self.bcm_id
    }

    pub closed spec fn is_leased(&self) -> bool {
        self.leased
    }

    /// The same line with its lease flag set to `leased`.
    pub closed spec fn marked(self, leased: bool) -> PinState {
        PinState { pin_number: self.pin_number, bcm_id: self.bcm_id, leased }
    }

    pub broadcast proof fn lemma_marked(self, leased: bool)
        ensures
            (#[trigger] self.marked(leased)).spec_pin_id() == self.spec_pin_id(),
            self.marked(leased).spec_bcm_id() == self.spec_bcm_id(),
            self.marked(leased).is_leased() == leased,
            self.is_leased() == leased ==> self.marked(leased) == self,
    {
    }

    /// A free line.
    pub fn new(pin_number: u8, bcm_id: u8) -> (pin: Self)
        ensures
            pin.spec_pin_id() == pin_number,
            pin.spec_bcm_id() == bcm_id,
            !pin.is_leased(),
    {
        PinState { pin_number, bcm_id, leased: false }
    }

    #[verifier::when_used_as_spec(spec_pin_id)]
    pub fn pin_id(&self) -> (id: u8)
        ensures
            id == self.spec_pin_id(),
    {
        self.pin_number
    }

    #[verifier::when_used_as_spec(spec_bcm_id)]
    pub fn bcm_id(&self) -> (id: u8)
        ensures
            id == self.spec_bcm_id(),
    {
        self.bcm_id
    }
}

/// What the arbiter, and the raw GPIO controllers built on it, can fail
/// with.
#[derive(Debug, PartialEq)]
pub enum GpioError {
    Busy(u8),
    PinNotFound(u8),
    LeaseNotFound,
    PermissionDenied(String),
    OsError(String),
    Unsupported(String),
    Other(String),
}

impl GpioError {
    /// The text that `to_string` renders.
    pub open spec fn message(&self) -> Seq<char> {
        match self {
            GpioError::Busy(p) => "pin "@ + decimal_text(*p as nat) + " is busy"@,
            GpioError::PinNotFound(p) => "pin "@ + decimal_text(*p as nat) + " is not available"@,
            GpioError::LeaseNotFound => "specified lease does not exist"@,
            GpioError::PermissionDenied(s) => "permission denied: "@ + s@,
            GpioError::OsError(s) => "os error: "@ + s@,
            GpioError::Unsupported(s) => "not supported: "@ + s@,
            GpioError::Other(s) => s@,
        }
    }

    pub fn to_string(&self) -> (s: String)
        ensures
            s@ == self.message(),
    {
        match self {
            GpioError::Busy(p) => {
                let mut s = joined("pin ", decimal(*p as u64).as_str());
                s.append(" is busy");
                s
            },
            GpioError::PinNotFound(p) => {
                let mut s = joined("pin ", decimal(*p as u64).as_str());
                s.append(" is not available");
                s
            },
            GpioError::LeaseNotFound => String::from_str("specified lease does not exist"),
            GpioError::PermissionDenied(s) => joined("permission denied: ", s.as_str()),
            GpioError::OsError(s) => joined("os error: ", s.as_str()),
            GpioError::Unsupported(s) => joined("not supported: ", s.as_str()),
            GpioError::Other(s) => s.clone(),
        }
    }
}

/// The token that names a lease. Its value is the 128-bit number of the
/// UUID that was drawn for the lease.
#[derive(Clone, Copy, Debug, PartialEq, Eq, Structural, Hash)]
pub struct LeaseId {
    pub value: u128,
}

/// The mathematical state of an arbiter: the pool and the outstanding
/// leases, each lease with the pins that were asked for, in the order
/// asked.
pub struct ArbiterState {
    pub pool: Map<u8, PinState>,
    pub leases: Map<u128, Seq<u8>>,
}

/// The pin arbiter.
pub struct GpioBorrowChecker {
    pins: HashMap<u8, PinState>,
    leases: HashMap<u128, Vec<u8>>,
}

/// `pool` with the lease flag of every pin in `pins` set to `leased`.
pub open spec fn pool_marked(pool: Map<u8, PinState>, pins: Set<u8>, leased: bool) -> Map<
    u8,
    PinState,
> {
    Map::new(
        |k: u8| pool.contains_key(k),
        |k: u8|
            if pins.contains(k) {
                pool[k].marked(leased)
            } else {
                pool[k]
            },
    )
}

/// `pool` with every line free.
pub open spec fn pool_released(pool: Map<u8, PinState>) -> Map<u8, PinState> {
    Map::new(|k: u8| pool.contains_key(k), |k: u8| pool[k].marked(false))
}

/// The pins of `pool`, by ascending key below `upto`; with `only_leased`,
/// the leased ones alone.
pub open spec fn pins_below(pool: Map<u8, PinState>, upto: int, only_leased: bool) -> Seq<PinState>
    decreases upto,
{
    if upto <= 0 {
        Seq::empty()
    } else {
        let rest = pins_below(pool, upto - 1, only_leased);
        let key = (upto - 1) as u8;
        if pool.contains_key(key) && (!only_leased || pool[key].is_leased()) {
            rest.push(pool[key])
        } else {
            rest
        }
    }
}

impl View for GpioBorrowChecker {
    type V = ArbiterState;

    closed spec fn view(&self) -> ArbiterState {
        ArbiterState {
            pool: self.pins@,
            leases: Map::new(
                |id: u128| self.leases@.contains_key(id),
                |id: u128| self.leases@[id]@,
            ),
        }
    }
}

impl ArbiterState {
    pub open spec fn has(self, pin: u8) -> bool {
        self.pool.contains_key(pin)
    }

    pub open spec fn leased(self, pin: u8) -> bool {
        self.pool.contains_key(pin) && self.pool[pin].is_leased()
    }

    pub open spec fn free(self, pin: u8) -> bool {
        self.pool.contains_key(pin) && !self.pool[pin].is_leased()
    }

    pub open spec fn all_free(self, pins: Seq<u8>) -> bool {
        forall|i: int| 0 <= i < pins.len() ==> self.free(#[trigger] pins[i])
    }

    /// `pins[i]` is the first pin of the request that cannot be leased.
    pub open spec fn refused_at(self, pins: Seq<u8>, i: int) -> bool {
        &&& 0 <= i < pins.len()
        &&& !self.free(pins[i])
        &&& self.all_free(pins.take(i))
    }

    /// Why `pin` cannot be leased.
    pub open spec fn refusal(self, pin: u8) -> GpioError {
        if self.has(pin) {
            GpioError::Busy(pin)
        } else {
            GpioError::PinNotFound(pin)
        }
    }

    /// Lease `id` is outstanding and covers `pin`.
    pub open spec fn holds(self, id: u128, pin: u8) -> bool {
        self.leases.contains_key(id) && self.leases[id].contains(pin)
    }

    /// The pins that are marked leased.
    pub open spec fn leased_pins(self) -> Set<u8> {
        Set::new(|pin: u8| self.leased(pin))
    }

    /// The pins of lease `id`.
    pub open spec fn lease_pins(self, id: u128) -> Set<u8> {
        Set::new(|pin: u8| self.holds(id, pin))
    }

    /// The union of the pin sets of all outstanding leases.
    pub open spec fn held_pins(self) -> Set<u8> {
        Set::new(|pin: u8| exists|id: u128| self.holds(id, pin))
    }

    /// A pin is marked leased exactly if one outstanding lease covers it.
    pub open spec fn wf(self) -> bool {
        &&& forall|id: u128, pin: u8| #[trigger] self.holds(id, pin) ==> self.leased(pin)
        &&& forall|pin: u8| #[trigger] self.leased(pin) ==> exists|id: u128| self.holds(id, pin)
        &&& forall|a: u128, b: u128, pin: u8|
            #[trigger] self.holds(a, pin) && #[trigger] self.holds(b, pin) ==> a == b
    }

    /// The state after a lease `id` over `pins` was granted.
    pub open spec fn granted(self, id: u128, pins: Seq<u8>) -> ArbiterState {
        ArbiterState {
            pool: pool_marked(self.pool, pins.to_set(), true),
            leases: self.leases.insert(id, pins),
        }
    }

    /// What a request for free pins `pins` comes to under the token `t`:
    /// a token that names a lease already is refused and nothing changes,
    /// any other token becomes the lease. `after` is the state afterwards,
    /// `r` the answer.
    pub open spec fn grant_outcome(
        self,
        t: u128,
        pins: Seq<u8>,
        after: ArbiterState,
        r: Result<LeaseId, GpioError>,
    ) -> bool {
        if self.leases.contains_key(t) {
            (r matches Err(GpioError::Other(m)) && m@ == "lease identifier is already in use"@)
                && after == self
        } else {
            r == Ok::<LeaseId, GpioError>(LeaseId { value: t }) && after == self.granted(t, pins)
        }
    }

    /// There is no outstanding lease.
    pub open spec fn no_lease(self) -> bool {
        forall|t: u128| !self.leases.contains_key(t)
    }

    /// The state after lease `id` was given back.
    pub open spec fn released(self, id: u128) -> ArbiterState {
        ArbiterState {
            pool: pool_marked(self.pool, self.leases[id].to_set(), false),
            leases: self.leases.remove(id),
        }
    }
}

/// Whether the answer `r` of an operation that leases free pins is what the
/// token `t` decides: the lease `t`, unless `t` names a lease already.
pub open spec fn token_decides<E>(gpio: ArbiterState, t: u128, r: Result<LeaseId, E>) -> bool {
    if gpio.leases.contains_key(t) {
        r is Err
    } else {
        r matches Ok(id) && id.value == t
    }
}

/// At most one pin of a request is its first refused one.
pub proof fn lemma_first_refusal_unique(state: ArbiterState, pins: Seq<u8>, i: int, j: int)
    requires
        state.refused_at(pins, i),
        state.refused_at(pins, j),
    ensures
        i == j,
{
    if i < j {
        assert(pins.take(j)[i] == pins[i]);
    } else if j < i {
        assert(pins.take(i)[j] == pins[j]);
    }
}

/// A request is refused at some pin exactly if not all of its pins are free.
pub proof fn lemma_refusal_exists(state: ArbiterState, pins: Seq<u8>)
    ensures
        !state.all_free(pins) <==> exists|i: int| state.refused_at(pins, i),
    decreases pins.len(),
{
    if !state.all_free(pins) {
        let k = choose|k: int| 0 <= k < pins.len() && !state.free(#[trigger] pins[k]);
        if state.all_free(pins.take(k)) {
            assert(state.refused_at(pins, k));
        } else {
            lemma_refusal_exists(state, pins.take(k));
            let i = choose|i: int| state.refused_at(pins.take(k), i);
            assert(pins.take(k).take(i) =~= pins.take(i));
            assert(pins.take(k)[i] == pins[i]);
            assert(state.refused_at(pins, i));
        }
    } else {
        assert forall|i: int| !state.refused_at(pins, i) by {
            if 0 <= i < pins.len() {
                assert(state.free(pins[i]));
            }
        }
    }
}

proof fn lemma_take_contains(s: Seq<u8>, i: int, k: u8)
    requires
        0 <= i < s.len(),
    ensures
        s.take(i + 1).contains(k) <==> (s.take(i).contains(k) || k == s[i]),
{
    if s.take(i + 1).contains(k) {
        let j = choose|j: int| 0 <= j < s.take(i + 1).len() && #[trigger] s.take(i + 1)[j] == k;
        if j < i {
            assert(s.take(i)[j] == k);
        }
    }
    if s.take(i).contains(k) {
        let j = choose|j: int| 0 <= j < s.take(i).len() && #[trigger] s.take(i)[j] == k;
        assert(s.take(i + 1)[j] == k);
    }
    if k == s[i] {
        assert(s.take(i + 1)[i] == k);
    }
}

/// Pin exclusivity: in a well-formed state the pins marked leased are
/// exactly the union of the pin sets of the outstanding leases, and no pin
/// belongs to two leases.
pub proof fn lemma_pin_exclusivity(state: ArbiterState)
    requires
        state.wf(),
    ensures
        state.leased_pins() == state.held_pins(),
        forall|a: u128, b: u128|
            a != b ==> #[trigger] state.lease_pins(a).disjoint(#[trigger] state.lease_pins(b)),
{
    assert forall|pin: u8| state.leased_pins().contains(pin) == state.held_pins().contains(
        pin,
    ) by {
        if state.held_pins().contains(pin) {
            let id = choose|id: u128| state.holds(id, pin);
            assert(state.holds(id, pin));
        }
        if state.leased(pin) {
        }
    }
    assert(state.leased_pins() =~= state.held_pins());
    assert forall|a: u128, b: u128| a != b implies #[trigger] state.lease_pins(a).disjoint(
        #[trigger] state.lease_pins(b),
    ) by {
        assert forall|pin: u8|
            !(state.lease_pins(a).contains(pin) && state.lease_pins(b).contains(pin)) by {
            if state.holds(a, pin) && state.holds(b, pin) {
            }
        }
    }
}

/// Granting a lease over free pins under an unused token keeps the state
/// well formed.
pub proof fn lemma_grant_keeps_wf(state: ArbiterState, id: u128, pins: Seq<u8>)
    requires
        state.wf(),
        state.all_free(pins),
        !state.leases.contains_key(id),
    ensures
        state.granted(id, pins).wf(),
{
    broadcast use PinState::lemma_marked;

    let next = state.granted(id, pins);
    assert forall|pin: u8| pins.contains(pin) implies state.free(pin) && next.leased(pin) by {
        let i = choose|i: int| 0 <= i < pins.len() && #[trigger] pins[i] == pin;
        assert(state.free(pins[i]));
    }
    assert forall|x: u128, pin: u8| #[trigger] next.holds(x, pin) implies next.leased(pin) by {
        if x != id {
            assert(state.holds(x, pin));
        }
    }
    assert forall|pin: u8| #[trigger] next.leased(pin) implies exists|x: u128|
        next.holds(x, pin) by {
        if pins.contains(pin) {
            assert(next.holds(id, pin));
        } else {
            assert(state.leased(pin));
            let x = choose|x: u128| state.holds(x, pin);
            assert(next.holds(x, pin));
        }
    }
    assert forall|a: u128, b: u128, pin: u8| #[trigger]
        next.holds(a, pin) && #[trigger] next.holds(b, pin) implies a == b by {
        if a != id {
            assert(state.holds(a, pin));
        }
        if b != id {
            assert(state.holds(b, pin));
        }
    }
}

/// Giving a lease back keeps the state well formed.
pub proof fn lemma_release_keeps_wf(state: ArbiterState, id: u128)
    requires
        state.wf(),
        state.leases.contains_key(id),
    ensures
        state.released(id).wf(),
{
    broadcast use PinState::lemma_marked;

    let next = state.released(id);
    assert forall|x: u128, pin: u8| #[trigger] next.holds(x, pin) implies next.leased(pin) by {
        assert(state.holds(x, pin));
        if state.leases[id].contains(pin) {
            assert(state.holds(id, pin));
        }
    }
    assert forall|pin: u8| #[trigger] next.leased(pin) implies exists|x: u128|
        next.holds(x, pin) by {
        assert(state.leased(pin));
        let x = choose|x: u128| state.holds(x, pin);
        if x == id {
            assert(state.leases[id].contains(pin));
        }
        assert(next.holds(x, pin));
    }
    assert forall|a: u128, b: u128, pin: u8| #[trigger]
        next.holds(a, pin) && #[trigger] next.holds(b, pin) implies a == b by {
        assert(state.holds(a, pin));
        assert(state.holds(b, pin));
    }
}

impl GpioBorrowChecker {
    /// An arbiter over the given pool, with every line free and no lease.
    pub fn new(pins: HashMap<u8, PinState>) -> (arbiter: Self)
        ensures
            arbiter@.pool == pool_released(pins@),
            arbiter@.leases == Map::<u128, Seq<u8>>::empty(),
            arbiter@.wf(),
    {
        let mut pool: HashMap<u8, PinState> = HashMap::new();
        let mut key: u16 = 0;
        while key < 256
            invariant
                key <= 256,
                forall|k: u8| pool@.contains_key(k) <==> (k < key && pins@.contains_key(k)),
                forall|k: u8| pool@.contains_key(k) ==> pool@[k] == pins@[k].marked(false),
            decreases 256 - key,
        {
            let id = key as u8;
            match pins.get(&id) {
                Some(p) => {
                    pool.insert(
                        id,
                        PinState { pin_number: p.pin_number, bcm_id: p.bcm_id, leased: false },
                    );
                },
                None => {},
            }
            key += 1;
        }
        let arbiter = GpioBorrowChecker { pins: pool, leases: HashMap::new() };
        proof {
            assert(arbiter@.pool =~= pool_released(pins@));
            assert(arbiter@.leases =~= Map::<u128, Seq<u8>>::empty());
        }
        arbiter
    }

    /// The record of `pin`.
    pub fn get(&self, pin: &u8) -> (r: Result<&PinState, GpioError>)
        ensures
            match r {
                Ok(state) => self@.has(*pin) && *state == self@.pool[*pin],
                Err(e) => !self@.has(*pin) && e == GpioError::PinNotFound(*pin),
            },
    {
        match self.pins.get(pin) {
            Some(state) => Ok(state),
            None => Err(GpioError::PinNotFound(*pin)),
        }
    }

    fn collect(&self, only_leased: bool) -> (found: Vec<&PinState>)
        ensures
            found@.len() == pins_below(self@.pool, 256, only_leased).len(),
            forall|i: int|
                0 <= i < found@.len() ==> *found@[i] == pins_below(self@.pool, 256, only_leased)[i],
    {
        let mut found: Vec<&PinState> = Vec::new();
        let mut key: u16 = 0;
        while key < 256
            invariant
                key <= 256,
                found@.len() == pins_below(self@.pool, key as int, only_leased).len(),
                forall|i: int|
                    0 <= i < found@.len() ==> *found@[i] == pins_below(
                        self@.pool,
                        key as int,
                        only_leased,
                    )[i],
            decreases 256 - key,
        {
            let id = key as u8;
            match self.pins.get(&id) {
                Some(state) => {
                    if !only_leased || state.leased {
                        found.push(state);
                    }
                },
                None => {},
            }
            key += 1;
        }
        found
    }

    /// Every pin of the pool, by ascending pin identifier.
    pub fn get_pins(&self) -> (all: Vec<&PinState>)
        ensures
            all@.len() == pins_below(self@.pool, 256, false).len(),
            forall|i: int| 0 <= i < all@.len() ==> *all@[i] == pins_below(self@.pool, 256, false)[i],
    {
        self.collect(false)
    }

    /// The pins that a lease holds, by ascending pin identifier.
    pub fn get_borrowed(&self) -> (held: Vec<&PinState>)
        ensures
            held@.len() == pins_below(self@.pool, 256, true).len(),
            forall|i: int|
                0 <= i < held@.len() ==> *held@[i] == pins_below(self@.pool, 256, true)[i],
    {
        self.collect(true)
    }

    pub fn has_pin(&self, pin: u8) -> (r: bool)
        ensures
            r == self@.has(pin),
    {
        self.pins.contains_key(&pin)
    }

    pub fn has_lease(&self, borrow_id: &LeaseId) -> (r: bool)
        ensures
            r == self@.leases.contains_key(borrow_id.value),
    {
        self.leases.contains_key(&borrow_id.value)
    }

    /// Whether `pin` is in the pool and free. Nothing is reserved.
    pub fn can_borrow_one(&self, pin: u8) -> (r: bool)
        ensures
            r == self@.free(pin),
    {
        match self.pins.get(&pin) {
            Some(state) => !state.leased,
            None => false,
        }
    }

    /// Whether every pin of `pins` is in the pool and free.
    pub fn can_borrow_many(&self, pins: &[u8]) -> (r: bool)
        ensures
            r == self@.all_free(pins@),
    {
        let n = pins.len();
        let mut i: usize = 0;
        while i < n
            invariant
                i <= n,
                n == pins@.len(),
                forall|j: int| 0 <= j < i ==> self@.free(#[trigger] pins@[j]),
            decreases n - i,
        {
            if !self.can_borrow_one(pins[i]) {
                return false;
            }
            i += 1;
        }
        true
    }

    /// Leases `pins` as a whole under the token `id`.
    ///
    /// The request is refused at its first pin that is missing from the
    /// pool (`PinNotFound`) or already leased (`Busy`). A token that
    /// already names a lease is refused with `Other`. A refusal changes
    /// nothing.
    pub fn borrow_many_with_id(&mut self, pins: Vec<u8>, id: LeaseId) -> (r: Result<
        LeaseId,
        GpioError,
    >)
        ensures
            old(self)@.wf() ==> final(self)@.wf(),
            r is Err ==> final(self)@ == old(self)@,
            forall|i: int| #[trigger]
                old(self)@.refused_at(pins@, i) ==> r == Err::<LeaseId, GpioError>(
                    old(self)@.refusal(pins@[i]),
                ),
            !old(self)@.all_free(pins@) ==> r is Err,
            old(self)@.all_free(pins@) && old(self)@.leases.contains_key(id.value) ==> (r matches Err(
                GpioError::Other(m),
            ) && m@ == "lease identifier is already in use"@),
            old(self)@.all_free(pins@) && !old(self)@.leases.contains_key(id.value) ==> r == Ok::<
                LeaseId,
                GpioError,
            >(id) && final(self)@ == old(self)@.granted(id.value, pins@),
    {
        broadcast use PinState::lemma_marked;

        let n = pins.len();
        let mut i: usize = 0;
        while i < n
            invariant
                i <= n,
                n == pins@.len(),
                *self == *old(self),
                self@.all_free(pins@.take(i as int)),
            decreases n - i,
        {
            let pin = pins[i];
            if !self.can_borrow_one(pin) {
                let refusal = if self.has_pin(pin) {
                    GpioError::Busy(pin)
                } else {
                    GpioError::PinNotFound(pin)
                };
                proof {
                    assert(self@.refused_at(pins@, i as int));
                    assert forall|j: int| #[trigger] self@.refused_at(pins@, j) implies j == i by {
                        lemma_first_refusal_unique(self@, pins@, i as int, j);
                    }
                    assert(!self@.free(pins@[i as int]));
                }
                return Err(refusal);
            }
            proof {
                assert forall|j: int| 0 <= j < i + 1 implies self@.free(
                    #[trigger] pins@.take(i + 1)[j],
                ) by {
                    if j < i {
                        assert(pins@.take(i as int)[j] == pins@[j]);
                    }
                }
            }
            i += 1;
        }
        proof {
            assert(pins@.take(n as int) =~= pins@);
            lemma_refusal_exists(self@, pins@);
        }
        if self.leases.contains_key(&id.value) {
            return Err(GpioError::Other(String::from_str("lease identifier is already in use")));
        }
        let mut i: usize = 0;
        while i < n
            invariant
                i <= n,
                n == pins@.len(),
                self.leases == old(self).leases,
                old(self)@.all_free(pins@),
                self.pins@ =~= pool_marked(
                    old(self).pins@,
                    pins@.take(i as int).to_set(),
                    true,
                ),
            decreases n - i,
        {
            let pin = pins[i];
            let current = match self.pins.get(&pin) {
                Some(state) => Some(*state),
                None => None,
            };
            proof {
                assert(old(self)@.free(pins@[i as int]));
                assert forall|k: u8|
                    pins@.take(i + 1).to_set().contains(k) <==> (pins@.take(
                        i as int,
                    ).to_set().contains(k) || k == pin) by {
                    lemma_take_contains(pins@, i as int, k);
                }
            }
            if let Some(state) = current {
                self.pins.insert(
                    pin,
                    PinState { pin_number: state.pin_number, bcm_id: state.bcm_id, leased: true },
                );
            }
            i += 1;
        }
        proof {
            assert(pins@.take(n as int) =~= pins@);
        }
        self.leases.insert(id.value, pins);
        proof {
            assert(final(self)@.leases =~= old(self)@.leases.insert(id.value, pins@));
            assert(final(self)@.pool =~= old(self)@.granted(id.value, pins@).pool);
            if old(self)@.wf() {
                lemma_grant_keeps_wf(old(self)@, id.value, pins@);
            }
        }
        Ok(id)
    }

    /// Leases `pins` as a whole under a freshly drawn token, the number of
    /// a random UUID.
    ///
    /// Refusals are those of `borrow_many_with_id`. Where every pin is
    /// free the drawn token decides: the lease is granted, unless the token
    /// already names a lease. With no lease outstanding the lease is
    /// granted.
    pub fn borrow_many(&mut self, pins: Vec<u8>) -> (r: Result<LeaseId, GpioError>)
        ensures
            old(self)@.wf() ==> final(self)@.wf(),
            r is Err ==> final(self)@ == old(self)@,
            forall|i: int| #[trigger]
                old(self)@.refused_at(pins@, i) ==> r == Err::<LeaseId, GpioError>(
                    old(self)@.refusal(pins@[i]),
                ),
            !old(self)@.all_free(pins@) ==> r is Err,
            old(self)@.all_free(pins@) ==> exists|t: u128| #[trigger]
                is_random_uuid(t) && old(self)@.grant_outcome(t, pins@, final(self)@, r),
            old(self)@.all_free(pins@) && old(self)@.no_lease() ==> r is Ok,
            old(self)@.all_free(pins@) ==> match r {
                Ok(id) => !old(self)@.leases.contains_key(id.value) && final(self)@ == old(
                    self)@.granted(id.value, pins@),
                Err(e) => e matches GpioError::Other(m) && m@
                    == "lease identifier is already in use"@,
            },
    {
        let token = fresh_token();
        let r = self.borrow_many_with_id(pins, LeaseId { value: token });
        proof {
            if old(self)@.all_free(pins@) {
                assert(is_random_uuid(token) && old(self)@.grant_outcome(
                    token,
                    pins@,
                    final(self)@,
                    r,
                ));
            }
        }
        r
    }

    /// Leases the single pin `pin` under a freshly drawn token, the number
    /// of a random UUID.
    ///
    /// A pin that is not free is refused. For a free pin the drawn token
    /// decides, as in `borrow_many`; with no lease outstanding the lease is
    /// granted.
    pub fn borrow_one(&mut self, pin: u8) -> (r: Result<LeaseId, GpioError>)
        ensures
            old(self)@.wf() ==> final(self)@.wf(),
            r is Err ==> final(self)@ == old(self)@,
            !old(self)@.free(pin) ==> r == Err::<LeaseId, GpioError>(old(self)@.refusal(pin)),
            old(self)@.free(pin) ==> exists|t: u128| #[trigger]
                is_random_uuid(t) && old(self)@.grant_outcome(t, seq![pin], final(self)@, r),
            old(self)@.free(pin) && old(self)@.no_lease() ==> r is Ok,
            old(self)@.free(pin) ==> match r {
                Ok(id) => !old(self)@.leases.contains_key(id.value) && final(self)@ == old(
                    self)@.granted(id.value, seq![pin]),
                Err(e) => e matches GpioError::Other(m) && m@
                    == "lease identifier is already in use"@,
            },
    {
        let pins = vec![pin];
        proof {
            assert(pins@ =~= seq![pin]);
            assert(pins@.take(0) =~= Seq::<u8>::empty());
            if !old(self)@.free(pin) {
                assert(old(self)@.refused_at(pins@, 0));
            } else {
                assert(old(self)@.all_free(pins@));
            }
        }
        self.borrow_many(pins)
    }

    /// Gives lease `borrow_id` back: every pin of it becomes free and the
    /// lease is gone. An unknown lease is refused with `LeaseNotFound`, and
    /// nothing changes.
    pub fn release(&mut self, borrow_id: &LeaseId) -> (r: Result<(), GpioError>)
        ensures
            old(self)@.wf() ==> final(self)@.wf(),
            !old(self)@.leases.contains_key(borrow_id.value) ==> r == Err::<(), GpioError>(
                GpioError::LeaseNotFound,
            ) && final(self)@ == old(self)@,
            old(self)@.leases.contains_key(borrow_id.value) ==> r == Ok::<(), GpioError>(())
                && final(self)@ == old(self)@.released(borrow_id.value),
    {
        broadcast use PinState::lemma_marked;

        let lease = match self.leases.remove(&borrow_id.value) {
            Some(lease) => lease,
            None => {
                proof {
                    assert(final(self)@.leases =~= old(self)@.leases);
                }
                return Err(GpioError::LeaseNotFound);
            },
        };
        let n = lease.len();
        let mut i: usize = 0;
        while i < n
            invariant
                i <= n,
                n == lease@.len(),
                self.leases@ == old(self).leases@.remove(borrow_id.value),
                self.pins@ =~= pool_marked(
                    old(self).pins@,
                    lease@.take(i as int).to_set(),
                    false,
                ),
            decreases n - i,
        {
            let pin = lease[i];
            let current = match self.pins.get(&pin) {
                Some(state) => Some(*state),
                None => None,
            };
            proof {
                assert forall|k: u8|
                    lease@.take(i + 1).to_set().contains(k) <==> (lease@.take(
                        i as int,
                    ).to_set().contains(k) || k == pin) by {
                    lemma_take_contains(lease@, i as int, k);
                }
            }
            if let Some(state) = current {
                self.pins.insert(
                    pin,
                    PinState { pin_number: state.pin_number, bcm_id: state.bcm_id, leased: false },
                );
            }
            i += 1;
        }
        proof {
            assert(lease@.take(n as int) =~= lease@);
            assert(final(self)@.leases =~= old(self)@.leases.remove(borrow_id.value));
            assert(final(self)@.pool =~= old(self)@.released(borrow_id.value).pool);
            if old(self)@.wf() {
                lemma_release_keeps_wf(old(self)@, borrow_id.value);
            }
        }
        Ok(())
    }
}

} // verus!
