//! Acquisition of the fields that a sensor only pushes: subscribing to the
//! characteristics that notify them, and sorting the notifications that
//! arrive into named fields until every required field has a value.

use crate::gatt::{CharacteristicDescriptor, NotFoundError, Property, UnsupportedOperationError};
use crate::radio::{run, Reply, Request, Step};
use crate::retry::{RetryPolicy, Verdict};
use crate::session::{ConnectOp, ConnectionError};
use crate::telemetry::{
    spec_decode_scaled_int16_le,
    DecodeError,
    Field,
    SensorModel,
    SensorReading,
};
use vstd::prelude::*;

verus! {

/// Why notifications of a characteristic could not be turned on.
#[derive(Clone, Debug, PartialEq, Eq)]
pub enum SubscribeError {
    /// The tree holds no characteristic of that UUID pair.
    NotFound(NotFoundError),
    /// The characteristic does not have the NOTIFY property.
    Unsupported(UnsupportedOperationError),
    /// The link was down and could not be brought up.
    Connection(ConnectionError),
    /// Every subscribe attempt of the budget failed.
    RetriesExhausted { characteristic_uuid: String },
}

/// What a subscription is waiting for.
#[derive(Clone, Copy, Debug, PartialEq, Eq, Structural)]
pub enum SubscribePhase {
    /// For the link to be made sure of, before attempt number `attempt`.
    Connecting { attempt: u32, link: ConnectOp },
    /// For the result of subscribe attempt number `attempt`.
    Subscribing { attempt: u32 },
    /// For the end of the pause after the failure of attempt number `attempt`.
    BackingOff { attempt: u32 },
}

/// A subscription to one characteristic in progress.
#[derive(Clone, Debug, PartialEq, Eq)]
pub struct SubscribeOp {
    pub characteristic: CharacteristicDescriptor,
    pub policy: RetryPolicy,
    pub phase: SubscribePhase,
}

impl SubscribeOp {
    /// The machine for the same subscription in another phase.
    pub open spec fn at(self, phase: SubscribePhase) -> SubscribeOp {
        SubscribeOp { characteristic: self.characteristic, policy: self.policy, phase }
    }

    /// The error of a subscription whose budget is spent.
    pub open spec fn exhausted(self) -> Step<SubscribeOp, (), SubscribeError> {
        Step::Finished(
            Err(SubscribeError::RetriesExhausted { characteristic_uuid: self.characteristic.uuid }),
        )
    }

    /// Carries a step of making sure of the link over into the subscription:
    /// the link's requests are passed on, its failure ends the subscription,
    /// and once the link is up the subscribe request is made.
    pub open spec fn with_link(
        self,
        attempt: u32,
        link: Step<ConnectOp, (), ConnectionError>,
    ) -> Step<SubscribeOp, (), SubscribeError> {
        match link {
            Step::Continue { state, request } => Step::Continue {
                state: self.at(SubscribePhase::Connecting { attempt, link: state }),
                request,
            },
            Step::Finished(Ok(_)) => Step::Continue {
                state: self.at(SubscribePhase::Subscribing { attempt }),
                request: Request::Subscribe { characteristic: self.characteristic },
            },
            Step::Finished(Err(e)) => Step::Finished(Err(SubscribeError::Connection(e))),
        }
    }

    /// A subscription is refused at once, before any radio request, when the
    /// characteristic lacks the NOTIFY property. Otherwise it begins by
    /// making sure of the link, with a single connect attempt where it is down.
    pub open spec fn spec_start(characteristic: CharacteristicDescriptor) -> Step<
        SubscribeOp,
        (),
        SubscribeError,
    > {
        if characteristic.properties.spec_contains(Property::Notify) {
            let op = SubscribeOp {
                characteristic,
                policy: RetryPolicy::subscribe(),
                phase: SubscribePhase::Subscribing { attempt: 1 },
            };
            op.with_link(1, ConnectOp::spec_start(RetryPolicy::once()))
        } else {
            Step::Finished(
                Err(
                    SubscribeError::Unsupported(
                        UnsupportedOperationError {
                            characteristic_uuid: characteristic.uuid,
                            required: Property::Notify,
                        },
                    ),
                ),
            )
        }
    }

    pub fn start(characteristic: CharacteristicDescriptor) -> (step: Step<
        SubscribeOp,
        (),
        SubscribeError,
    >)
        ensures
            step == Self::spec_start(characteristic),
    {
        match characteristic.require(Property::Notify) {
            Ok(_) => {
                let op = SubscribeOp {
                    characteristic,
                    policy: RetryPolicy::subscribe(),
                    phase: SubscribePhase::Subscribing { attempt: 1 },
                };
                op.link_step(1, ConnectOp::start(RetryPolicy::once()))
            },
            Err(e) => Step::Finished(Err(SubscribeError::Unsupported(e))),
        }
    }

    fn link_step(self, attempt: u32, link: Step<ConnectOp, (), ConnectionError>) -> (next: Step<
        SubscribeOp,
        (),
        SubscribeError,
    >)
        ensures
            next == self.with_link(attempt, link),
    {
        let SubscribeOp { characteristic, policy, phase: _ } = self;
        match link {
            Step::Continue { state, request } => Step::Continue {
                state: SubscribeOp {
                    characteristic,
                    policy,
                    phase: SubscribePhase::Connecting { attempt, link: state },
                },
                request,
            },
            Step::Finished(Ok(_)) => {
                let wanted = characteristic.duplicate();
                Step::Continue {
                    state: SubscribeOp {
                        characteristic,
                        policy,
                        phase: SubscribePhase::Subscribing { attempt },
                    },
                    request: Request::Subscribe { characteristic: wanted },
                }
            },
            Step::Finished(Err(e)) => Step::Finished(Err(SubscribeError::Connection(e))),
        }
    }

    /// The transition table of subscribing.
    ///
    /// Once the link is made sure of, subscribe is requested. Success ends
    /// the operation. A failure is followed by the pause of the policy and
    /// the next attempt, which makes sure of the link again; when the budget
    /// is spent the operation ends with `RetriesExhausted`.
    pub open spec fn spec_step(self, reply: Reply) -> Step<SubscribeOp, (), SubscribeError> {
        match self.phase {
            SubscribePhase::Connecting { attempt, link } => self.with_link(
                attempt,
                link.spec_step(reply),
            ),
            SubscribePhase::Subscribing { attempt } => match reply {
                Reply::Done => Step::Finished(Ok(())),
                _ => match self.policy.spec_after_failure(attempt) {
                    Verdict::RetryAfter { millis } => Step::Continue {
                        state: self.at(SubscribePhase::BackingOff { attempt }),
                        request: Request::Sleep { millis },
                    },
                    Verdict::GiveUpAfter { millis } => Step::Continue {
                        state: self.at(SubscribePhase::BackingOff { attempt }),
                        request: Request::Sleep { millis },
                    },
                    Verdict::GiveUp => self.exhausted(),
                },
            },
            SubscribePhase::BackingOff { attempt } => if attempt < self.policy.max_attempts {
                self.with_link((attempt + 1) as u32, ConnectOp::spec_start(RetryPolicy::once()))
            } else {
                self.exhausted()
            },
        }
    }

    /// Advances the operation by the reply to its pending request.
    pub fn step(self, reply: Reply) -> (next: Step<SubscribeOp, (), SubscribeError>)
        ensures
            next == self.spec_step(reply),
    {
        let SubscribeOp { characteristic, policy, phase } = self;
        match phase {
            SubscribePhase::Connecting { attempt, link } => {
                let op = SubscribeOp { characteristic, policy, phase };
                op.link_step(attempt, link.step(reply))
            },
            SubscribePhase::Subscribing { attempt } => match reply {
                Reply::Done => Step::Finished(Ok(())),
                _ => match policy.after_failure(attempt) {
                    Verdict::RetryAfter { millis } => Step::Continue {
                        state: SubscribeOp {
                            characteristic,
                            policy,
                            phase: SubscribePhase::BackingOff { attempt },
                        },
                        request: Request::Sleep { millis },
                    },
                    Verdict::GiveUpAfter { millis } => Step::Continue {
                        state: SubscribeOp {
                            characteristic,
                            policy,
                            phase: SubscribePhase::BackingOff { attempt },
                        },
                        request: Request::Sleep { millis },
                    },
                    Verdict::GiveUp => Step::Finished(
                        Err(
                            SubscribeError::RetriesExhausted {
                                characteristic_uuid: characteristic.uuid,
                            },
                        ),
                    ),
                },
            },
            SubscribePhase::BackingOff { attempt } => {
                if attempt < policy.max_attempts {
                    let op = SubscribeOp { characteristic, policy, phase };
                    op.link_step(attempt + 1, ConnectOp::start(RetryPolicy::once()))
                } else {
                    Step::Finished(
                        Err(
                            SubscribeError::RetriesExhausted {
                                characteristic_uuid: characteristic.uuid,
                            },
                        ),
                    )
                }
            },
        }
    }
}

/// Subscriptions to several characteristics, one after the other.
#[derive(Clone, Debug, PartialEq, Eq)]
pub struct SubscribeAllOp {
    pub characteristics: Vec<CharacteristicDescriptor>,
    /// Index of the characteristic whose subscription is in progress.
    pub index: usize,
    pub current: SubscribeOp,
}

impl SubscribeAllOp {
    /// Takes up the subscriptions from index `index` on: the first failure
    /// ends the whole operation with the error of that characteristic, and
    /// when none is left the operation has succeeded.
    pub open spec fn spec_begin(characteristics: Vec<CharacteristicDescriptor>, index: int) -> Step<
        SubscribeAllOp,
        (),
        SubscribeError,
    >
        decreases characteristics@.len() - index,
    {
        if index < 0 || index >= characteristics@.len() {
            Step::Finished(Ok(()))
        } else {
            match SubscribeOp::spec_start(characteristics@[index]) {
                Step::Continue { state, request } => Step::Continue {
                    state: SubscribeAllOp {
                        characteristics,
                        index: index as usize,
                        current: state,
                    },
                    request,
                },
                Step::Finished(Err(e)) => Step::Finished(Err(e)),
                Step::Finished(Ok(_)) => Self::spec_begin(characteristics, index + 1),
            }
        }
    }

    /// Subscribing to all of `characteristics` begins with the first of them.
    pub open spec fn spec_start(characteristics: Vec<CharacteristicDescriptor>) -> Step<
        SubscribeAllOp,
        (),
        SubscribeError,
    > {
        Self::spec_begin(characteristics, 0)
    }

    pub fn start(characteristics: Vec<CharacteristicDescriptor>) -> (step: Step<
        SubscribeAllOp,
        (),
        SubscribeError,
    >)
        ensures
            step == Self::spec_start(characteristics),
    {
        Self::begin(characteristics, 0)
    }

    fn begin(characteristics: Vec<CharacteristicDescriptor>, index: usize) -> (step: Step<
        SubscribeAllOp,
        (),
        SubscribeError,
    >)
        ensures
            step == Self::spec_begin(characteristics, index as int),
    {
        let mut at: usize = index;
        while at < characteristics.len()
            invariant
                Self::spec_begin(characteristics, index as int) == Self::spec_begin(
                    characteristics,
                    at as int,
                ),
            decreases characteristics.len() - at,
        {
            match SubscribeOp::start(characteristics[at].duplicate()) {
                Step::Continue { state, request } => {
                    return Step::Continue {
                        state: SubscribeAllOp { characteristics, index: at, current: state },
                        request,
                    };
                },
                Step::Finished(Err(e)) => {
                    return Step::Finished(Err(e));
                },
                Step::Finished(Ok(_)) => {},
            }
            at = at + 1;
        }
        Step::Finished(Ok(()))
    }

    /// The transition table of subscribing to all: the subscription in
    /// progress is advanced; its failure ends the whole operation, its
    /// success takes up the next characteristic.
    pub open spec fn spec_step(self, reply: Reply) -> Step<SubscribeAllOp, (), SubscribeError> {
        match self.current.spec_step(reply) {
            Step::Continue { state, request } => Step::Continue {
                state: SubscribeAllOp {
                    characteristics: self.characteristics,
                    index: self.index,
                    current: state,
                },
                request,
            },
            Step::Finished(Err(e)) => Step::Finished(Err(e)),
            Step::Finished(Ok(_)) => if self.index < self.characteristics@.len() {
                Self::spec_begin(self.characteristics, self.index + 1)
            } else {
                Step::Finished(Ok(()))
            },
        }
    }

    /// Advances the operation by the reply to its pending request.
    pub fn step(self, reply: Reply) -> (next: Step<SubscribeAllOp, (), SubscribeError>)
        ensures
            next == self.spec_step(reply),
    {
        let SubscribeAllOp { characteristics, index, current } = self;
        match current.step(reply) {
            Step::Continue { state, request } => Step::Continue {
                state: SubscribeAllOp { characteristics, index, current: state },
                request,
            },
            Step::Finished(Err(e)) => Step::Finished(Err(e)),
            Step::Finished(Ok(_)) => {
                if index < characteristics.len() {
                    Self::begin(characteristics, index + 1)
                } else {
                    Step::Finished(Ok(()))
                }
            },
        }
    }
}

/// The fields that a collection must see before it ends.
#[derive(Clone, Copy, Debug, PartialEq, Eq, Structural)]
pub struct RequiredFields {
    pub temperature: bool,
    pub humidity: bool,
}

impl RequiredFields {
    /// Both fields of a reading.
    pub fn all() -> (required: Self)
        ensures
            required.temperature && required.humidity,
    {
        RequiredFields { temperature: true, humidity: true }
    }

    pub open spec fn spec_requires(self, field: Field) -> bool {
        match field {
            Field::Temperature => self.temperature,
            Field::Humidity => self.humidity,
        }
    }
}

/// The values that a collection has seen so far, in hundredths of their units.
#[derive(Clone, Copy, Debug, PartialEq, Eq, Structural)]
pub struct FieldValues {
    pub temperature: Option<i16>,
    pub humidity: Option<i16>,
}

impl FieldValues {
    pub fn none() -> (values: Self)
        ensures
            values.temperature is None,
            values.humidity is None,
    {
        FieldValues { temperature: None, humidity: None }
    }

    /// The value seen for `field`, if any.
    pub open spec fn spec_get(self, field: Field) -> Option<i16> {
        match field {
            Field::Temperature => self.temperature,
            Field::Humidity => self.humidity,
        }
    }

    pub fn get(&self, field: Field) -> (value: Option<i16>)
        ensures
            value == self.spec_get(field),
    {
        match field {
            Field::Temperature => self.temperature,
            Field::Humidity => self.humidity,
        }
    }

    /// These values with `field` set to `value`.
    pub open spec fn spec_with(self, field: Field, value: i16) -> FieldValues {
        match field {
            Field::Temperature => FieldValues {
                temperature: Some(value),
                humidity: self.humidity,
            },
            Field::Humidity => FieldValues { temperature: self.temperature, humidity: Some(value) },
        }
    }

    pub fn with(self, field: Field, value: i16) -> (values: Self)
        ensures
            values == self.spec_with(field, value),
    {
        match field {
            Field::Temperature => FieldValues {
                temperature: Some(value),
                humidity: self.humidity,
            },
            Field::Humidity => FieldValues { temperature: self.temperature, humidity: Some(value) },
        }
    }

    /// Every required field has a value.
    pub open spec fn spec_covers(self, required: RequiredFields) -> bool {
        &&& required.temperature ==> self.temperature is Some
        &&& required.humidity ==> self.humidity is Some
    }

    pub fn covers(&self, required: RequiredFields) -> (r: bool)
        ensures
            r == self.spec_covers(required),
    {
        (!required.temperature || self.temperature.is_some()) && (!required.humidity
            || self.humidity.is_some())
    }

    /// The reading that these values make up, once both fields are there.
    pub open spec fn spec_reading(self) -> Option<SensorReading> {
        match (self.temperature, self.humidity) {
            (Some(temperature), Some(humidity)) => Some(SensorReading { temperature, humidity }),
            _ => None,
        }
    }

    pub fn reading(&self) -> (reading: Option<SensorReading>)
        ensures
            reading == self.spec_reading(),
    {
        match (self.temperature, self.humidity) {
            (Some(temperature), Some(humidity)) => Some(SensorReading { temperature, humidity }),
            _ => None,
        }
    }
}

/// Why a collection ended without its fields.
#[derive(Clone, Copy, Debug, PartialEq, Eq, Structural)]
pub enum CollectError {
    /// The deadline passed before every required field had arrived.
    Timeout,
    /// A notification for a field that was still missing was too short.
    Decode(DecodeError),
}

/// A collection in progress.
#[derive(Clone, Debug, PartialEq, Eq)]
pub struct Collector {
    pub model: SensorModel,
    pub required: RequiredFields,
    /// The time that the driver allows for the whole collection.
    pub timeout_millis: u64,
    pub values: FieldValues,
}

impl Collector {
    /// Goes on with `values`: the collection ends as soon as they cover
    /// what is required, and waits for the next notification until then.
    pub open spec fn spec_resume(
        model: SensorModel,
        required: RequiredFields,
        timeout_millis: u64,
        values: FieldValues,
    ) -> Step<Collector, FieldValues, CollectError> {
        if values.spec_covers(required) {
            Step::Finished(Ok(values))
        } else {
            Step::Continue {
                state: Collector { model, required, timeout_millis, values },
                request: Request::NextNotification,
            }
        }
    }

    /// A collection begins with no value seen. The driver starts the clock
    /// of `timeout_millis` when it gets the first request.
    pub open spec fn spec_start(
        model: SensorModel,
        required: RequiredFields,
        timeout_millis: u64,
    ) -> Step<Collector, FieldValues, CollectError> {
        Self::spec_resume(
            model,
            required,
            timeout_millis,
            FieldValues { temperature: None, humidity: None },
        )
    }

    pub fn start(model: SensorModel, required: RequiredFields, timeout_millis: u64) -> (step: Step<
        Collector,
        FieldValues,
        CollectError,
    >)
        ensures
            step == Self::spec_start(model, required, timeout_millis),
    {
        Self::resume(model, required, timeout_millis, FieldValues::none())
    }

    fn resume(
        model: SensorModel,
        required: RequiredFields,
        timeout_millis: u64,
        values: FieldValues,
    ) -> (step: Step<Collector, FieldValues, CollectError>)
        ensures
            step == Self::spec_resume(model, required, timeout_millis, values),
    {
        if values.covers(required) {
            Step::Finished(Ok(values))
        } else {
            Step::Continue {
                state: Collector { model, required, timeout_millis, values },
                request: Request::NextNotification,
            }
        }
    }

    /// The transition table of collecting.
    ///
    /// A notification is matched by its characteristic UUID to a field. If
    /// that field has no value yet, the payload is decoded at the offset of
    /// the model: a payload that is too short ends the collection with the
    /// decode error, a value is kept and ends the collection with success
    /// once every required field has one. A notification of another
    /// characteristic, or for a field that has its value, changes nothing:
    /// the first value seen is the one kept. Any reply that is no
    /// notification means that the deadline has passed.
    pub open spec fn spec_step(self, reply: Reply) -> Step<Collector, FieldValues, CollectError> {
        match reply {
            Reply::Notification { uuid, value } => match self.model.spec_field_of(uuid@) {
                Some(field) => if self.values.spec_get(field) is Some {
                    Step::Continue { state: self, request: Request::NextNotification }
                } else {
                    match spec_decode_scaled_int16_le(
                        value@,
                        self.model.spec_offset_of(field) as int,
                    ) {
                        Ok(hundredths) => Self::spec_resume(
                            self.model,
                            self.required,
                            self.timeout_millis,
                            self.values.spec_with(field, hundredths),
                        ),
                        Err(e) => Step::Finished(Err(CollectError::Decode(e))),
                    }
                },
                None => Step::Continue { state: self, request: Request::NextNotification },
            },
            _ => Step::Finished(Err(CollectError::Timeout)),
        }
    }

    /// Advances the collection by the reply to its pending request.
    pub fn step(self, reply: Reply) -> (next: Step<Collector, FieldValues, CollectError>)
        ensures
            next == self.spec_step(reply),
    {
        match reply {
            Reply::Notification { uuid, value } => match self.model.field_of(uuid.as_str()) {
                Some(field) => {
                    if self.values.get(field).is_some() {
                        Step::Continue { state: self, request: Request::NextNotification }
                    } else {
                        match self.model.decode(field, value.as_slice()) {
                            Ok(hundredths) => {
                                let Collector { model, required, timeout_millis, values } = self;
                                Self::resume(
                                    model,
                                    required,
                                    timeout_millis,
                                    values.with(field, hundredths),
                                )
                            },
                            Err(e) => Step::Finished(Err(CollectError::Decode(e))),
                        }
                    }
                },
                None => Step::Continue { state: self, request: Request::NextNotification },
            },
            _ => Step::Finished(Err(CollectError::Timeout)),
        }
    }

    /// The requests that the collection makes, and its outcome if it ends,
    /// when the driver answers with `replies` in turn.
    pub open spec fn run(step: Step<Collector, FieldValues, CollectError>, replies: Seq<Reply>) -> (
        Seq<Request>,
        Option<Result<FieldValues, CollectError>>,
    ) {
        run(|collector: Collector, reply: Reply| collector.spec_step(reply), step, replies)
    }
}

/// A collection ends with the very notification that brings its last
/// missing field: no further notification is waited for.
pub proof fn lemma_collect_ends_with_last_field(
    collector: Collector,
    uuid: String,
    payload: Vec<u8>,
    field: Field,
    hundredths: i16,
)
    requires
        collector.model.spec_field_of(uuid@) == Some(field),
        collector.values.spec_get(field) is None,
        spec_decode_scaled_int16_le(payload@, collector.model.spec_offset_of(field) as int) == Ok::<
            i16,
            DecodeError,
        >(hundredths),
        collector.values.spec_with(field, hundredths).spec_covers(collector.required),
    ensures
        collector.spec_step(Reply::Notification { uuid, value: payload }) == Step::<
            Collector,
            FieldValues,
            CollectError,
        >::Finished(Ok(collector.values.spec_with(field, hundredths))),
{
}

/// The first value seen for a field is the one kept: a later notification
/// for the same field leaves the collection as it was.
pub proof fn lemma_collect_keeps_first_value(
    collector: Collector,
    uuid: String,
    payload: Vec<u8>,
    field: Field,
)
    requires
        collector.model.spec_field_of(uuid@) == Some(field),
        collector.values.spec_get(field) is Some,
    ensures
        collector.spec_step(Reply::Notification { uuid, value: payload }) == (Step::<
            Collector,
            FieldValues,
            CollectError,
        >::Continue { state: collector, request: Request::NextNotification }),
{
}

/// Collection termination. With both fields required, a temperature
/// notification followed by a humidity notification ends the collection
/// after the second, with the reading made of the two decoded values; what
/// the driver would have answered after that is never asked for.
pub proof fn lemma_collect_two_events(
    model: SensorModel,
    timeout_millis: u64,
    replies: Seq<Reply>,
    temperature: i16,
    humidity: i16,
)
    requires
        replies.len() >= 2,
        replies[0] matches Reply::Notification { uuid, value } && model.spec_field_of(uuid@)
            == Some(Field::Temperature) && spec_decode_scaled_int16_le(
            value@,
            model.temperature_offset as int,
        ) == Ok::<i16, DecodeError>(temperature),
        replies[1] matches Reply::Notification { uuid, value } && model.spec_field_of(uuid@)
            == Some(Field::Humidity) && spec_decode_scaled_int16_le(
            value@,
            model.humidity_offset as int,
        ) == Ok::<i16, DecodeError>(humidity),
    ensures
        ({
            let required = RequiredFields { temperature: true, humidity: true };
            let values = FieldValues { temperature: Some(temperature), humidity: Some(humidity) };
            &&& Collector::run(Collector::spec_start(model, required, timeout_millis), replies) == (
                seq![Request::NextNotification, Request::NextNotification],
                Some(Ok::<FieldValues, CollectError>(values)),
            )
            &&& values.spec_reading() == Some(SensorReading { temperature, humidity })
        }),
{
    reveal_with_fuel(run, 4);
    let required = RequiredFields { temperature: true, humidity: true };
    let r1 = replies.drop_first();
    assert(r1[0] == replies[1]);
    let got = Collector::run(Collector::spec_start(model, required, timeout_millis), replies);
    assert(got.0 =~= seq![Request::NextNotification, Request::NextNotification]);
}

/// A collection whose deadline passes ends at once with `Timeout`,
/// whatever it has seen.
pub proof fn lemma_collect_times_out(collector: Collector)
    ensures
        collector.spec_step(Reply::TimedOut) == Step::<
            Collector,
            FieldValues,
            CollectError,
        >::Finished(Err(CollectError::Timeout)),
{
}

/// A collection that ends with success has a value for every required
/// field; with both fields required these make up a reading.
pub proof fn lemma_collect_success_covers(collector: Collector, reply: Reply)
    ensures
        collector.spec_step(reply) matches Step::Finished(Ok(values)) ==> {
            &&& values.spec_covers(collector.required)
            &&& collector.required.temperature && collector.required.humidity
                ==> values.spec_reading() is Some
        },
{
}

impl SubscribeOp {
    /// The requests that the subscription makes, and its outcome if it
    /// ends, when the driver answers with `replies` in turn.
    pub open spec fn run(step: Step<SubscribeOp, (), SubscribeError>, replies: Seq<Reply>) -> (
        Seq<Request>,
        Option<Result<(), SubscribeError>>,
    ) {
        run(|op: SubscribeOp, reply: Reply| op.spec_step(reply), step, replies)
    }
}

/// A subscription over a link that stays up, whose every attempt fails,
/// asks for subscribe exactly three times, two seconds apart, and ends with
/// `RetriesExhausted` for its characteristic.
pub proof fn lemma_subscribe_retry_cap(characteristic: CharacteristicDescriptor, replies: Seq<Reply>)
    requires
        characteristic.properties.spec_contains(Property::Notify),
        replies.len() == 8,
        replies[0] == Reply::Connected(true),
        !(replies[1] is Done),
        replies[3] == Reply::Connected(true),
        !(replies[4] is Done),
        replies[6] == Reply::Connected(true),
        !(replies[7] is Done),
    ensures
        SubscribeOp::run(SubscribeOp::spec_start(characteristic), replies) == (
            seq![
                Request::IsConnected,
                Request::Subscribe { characteristic },
                Request::Sleep { millis: 2000 },
                Request::IsConnected,
                Request::Subscribe { characteristic },
                Request::Sleep { millis: 2000 },
                Request::IsConnected,
                Request::Subscribe { characteristic },
            ],
            Some(
                Err::<(), SubscribeError>(
                    SubscribeError::RetriesExhausted { characteristic_uuid: characteristic.uuid },
                ),
            ),
        ),
{
    reveal_with_fuel(run, 10);
    let r1 = replies.drop_first();
    let r2 = r1.drop_first();
    let r3 = r2.drop_first();
    let r4 = r3.drop_first();
    let r5 = r4.drop_first();
    let r6 = r5.drop_first();
    let r7 = r6.drop_first();
    assert(r1[0] == replies[1]);
    assert(r2[0] == replies[2]);
    assert(r3[0] == replies[3]);
    assert(r4[0] == replies[4]);
    assert(r5[0] == replies[5]);
    assert(r6[0] == replies[6]);
    assert(r7[0] == replies[7]);
    assert(r7.drop_first().len() == 0);
    let got = SubscribeOp::run(SubscribeOp::spec_start(characteristic), replies);
    assert(got.0 =~= seq![
        Request::IsConnected,
        Request::Subscribe { characteristic },
        Request::Sleep { millis: 2000 },
        Request::IsConnected,
        Request::Subscribe { characteristic },
        Request::Sleep { millis: 2000 },
        Request::IsConnected,
        Request::Subscribe { characteristic },
    ]);
}

/// When the subscription in progress fails, subscribing to all ends with
/// the error of that characteristic, and the characteristics after it are
/// not taken up.
pub proof fn lemma_subscribe_all_aborts(op: SubscribeAllOp, reply: Reply, error: SubscribeError)
    requires
        op.current.spec_step(reply) == Step::<SubscribeOp, (), SubscribeError>::Finished(
            Err(error),
        ),
    ensures
        op.spec_step(reply) == Step::<SubscribeAllOp, (), SubscribeError>::Finished(Err(error)),
{
}

} // verus!
