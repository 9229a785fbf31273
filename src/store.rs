use vstd::prelude::*;
use vstd::rwlock::{RwLock, RwLockPredicate};

use crate::frame::{decode_and_classify, decoded_message, Message, ParseError};

verus! {

/// The latest reading of each kind, each unset until a reading of that kind
/// arrives.
#[derive(Debug, Clone, Copy, PartialEq, Eq, Structural)]
pub struct MetricValues {
    pub co2_ppm: Option<u16>,
    pub temp_celsius_ten_thousandths: Option<i32>,
}

/// The store after taking in `m`: only the field of `m`'s kind is replaced.
pub open spec fn updated(v: MetricValues, m: Message) -> MetricValues {
    match m {
        Message::Co2Level { ppm } => MetricValues { co2_ppm: Some(ppm), ..v },
        Message::Temperature { celsius_ten_thousandths } => MetricValues {
            temp_celsius_ten_thousandths: Some(celsius_ten_thousandths),
            ..v
        },
    }
}

/// The store before any reading: both fields unset.
pub open spec fn empty_values() -> MetricValues {
    MetricValues { co2_ppm: None, temp_celsius_ten_thousandths: None }
}

impl MetricValues {
    /// A store with both fields unset.
    pub fn new() -> (r: MetricValues)
        ensures
            r == empty_values(),
    {
        MetricValues { co2_ppm: None, temp_celsius_ten_thousandths: None }
    }

    /// Both readings, if both kinds have been seen.
    pub fn complete(&self) -> (r: Option<(u16, i32)>)
        ensures
            r == (match (self.co2_ppm, self.temp_celsius_ten_thousandths) {
                (Some(p), Some(t)) => Some((p, t)),
                _ => None::<(u16, i32)>,
            }),
    {
        match (self.co2_ppm, self.temp_celsius_ten_thousandths) {
            (Some(p), Some(t)) => Some((p, t)),
            _ => None,
        }
    }

    /// Records `msg` as the latest reading of its kind.
    pub fn update(&mut self, msg: Message)
        ensures
            *final(self) == updated(*old(self), msg),
    {
        match msg {
            Message::Co2Level { ppm } => self.co2_ppm = Some(ppm),
            Message::Temperature { celsius_ten_thousandths } => {
                self.temp_celsius_ten_thousandths = Some(celsius_ten_thousandths)
            },
        }
    }

}

/// The values that the fields of a shared store may hold.
pub ghost struct Admitted {
    pub co2: Set<u16>,
    pub temp: Set<i32>,
}

/// Every value of each field.
pub open spec fn admit_all() -> Admitted {
    Admitted { co2: Set::full(), temp: Set::full() }
}

/// Each field of `v` is unset or an admitted value.
pub open spec fn values_admitted(a: Admitted, v: MetricValues) -> bool {
    &&& (v.co2_ppm matches Some(p) ==> a.co2.contains(p))
    &&& (v.temp_celsius_ten_thousandths matches Some(t) ==> a.temp.contains(t))
}

/// The reading carried by `m` is admitted for its field.
pub open spec fn message_admitted(a: Admitted, m: Message) -> bool {
    match m {
        Message::Co2Level { ppm } => a.co2.contains(ppm),
        Message::Temperature { celsius_ten_thousandths } => a.temp.contains(celsius_ten_thousandths),
    }
}

impl RwLockPredicate<MetricValues> for Admitted {
    open spec fn inv(self, v: MetricValues) -> bool {
        values_admitted(self, v)
    }
}

/// The latest readings, shared between one producer and any number of readers.
pub struct Metrics {
    values: RwLock<MetricValues, Admitted>,
}

impl Metrics {
    /// The values that this store's fields may hold.
    pub closed spec fn admitted(&self) -> Admitted {
        self.values.pred()
    }

    /// A shared store with both fields unset, admitting every value.
    pub fn new() -> (r: Metrics)
        ensures
            r.admitted() == admit_all(),
    {
        Metrics::new_admitting(Ghost(admit_all()))
    }

    /// A shared store with both fields unset, whose fields may only ever hold
    /// the values of `admitted`.
    pub fn new_admitting(admitted: Ghost<Admitted>) -> (r: Metrics)
        ensures
            r.admitted() == admitted@,
    {
        let v = MetricValues::new();
        Metrics { values: RwLock::new(v, admitted) }
    }

    /// Records `msg` as the latest reading of its kind, under the write lock.
    pub fn update(&self, msg: Message)
        requires
            message_admitted(self.admitted(), msg),
    {
        let (mut v, handle) = self.values.acquire_write();
        v.update(msg);
        handle.release_write(v);
    }

    /// Decodes a raw frame with `key` and, if it is accepted, records its
    /// reading; a rejected frame is dropped.
    pub fn ingest(&self, raw: &[u8; 8], key: &[u8; 8]) -> (r: Result<Message, ParseError>)
        requires
            decoded_message(raw@, key@) matches Ok(m) ==> message_admitted(self.admitted(), m),
        ensures
            r == decoded_message(raw@, key@),
    {
        let r = decode_and_classify(raw, key);
        if let Ok(m) = r {
            self.update(m);
        }
        r
    }

    /// A copy of both fields, taken under the read lock. Each field is unset
    /// or holds a value that was admitted, so that it came from some update
    /// when updates pass admitted values only.
    pub fn snapshot(&self) -> (r: MetricValues)
        ensures
            values_admitted(self.admitted(), r),
    {
        let handle = self.values.acquire_read();
        let v = *handle.borrow();
        handle.release_read();
        v
    }
}

/// Readings of the two kinds do not interfere: after a CO2 reading and then a
/// temperature reading, in either order, both fields hold exactly those values.
pub proof fn updates_are_independent(v: MetricValues, ppm: u16, t: i32)
    ensures
        updated(updated(v, Message::Co2Level { ppm }), Message::Temperature { celsius_ten_thousandths: t })
            == (MetricValues { co2_ppm: Some(ppm), temp_celsius_ten_thousandths: Some(t) }),
        updated(updated(v, Message::Temperature { celsius_ten_thousandths: t }), Message::Co2Level { ppm })
            == (MetricValues { co2_ppm: Some(ppm), temp_celsius_ten_thousandths: Some(t) }),
{
}

/// A reading of one kind leaves the field of the other kind as it was; in
/// particular a fresh store that took in only a temperature has no CO2 value.
pub proof fn update_keeps_other_field(v: MetricValues, m: Message)
    ensures
        m is Temperature ==> updated(v, m).co2_ppm == v.co2_ppm,
        m is Co2Level ==> updated(v, m).temp_celsius_ten_thousandths == v.temp_celsius_ten_thousandths,
        m is Temperature ==> updated(empty_values(), m).co2_ppm is None,
{
}

} // verus!
