//! Whole passes over one peripheral: the link is opened and the services
//! discovered, the pass does its reads, and the link is closed again.

use crate::gatt::{CharacteristicDescriptor, Property, ServiceTree};
use crate::info::{InfoField, InfoOutcome};
use crate::notify::{
    CollectError,
    Collector,
    FieldValues,
    RequiredFields,
    SubscribeError,
    SubscribeOp,
};
use crate::radio::{Reply, Request, Step};
use crate::retry::RetryPolicy;
use crate::session::{ConnectOp, ConnectionError, DiscoveryError, ReadError, ReadOp};
use crate::telemetry::{Field, SensorModel};
use vstd::prelude::*;

verus! {

/// Why a pass ended early.
#[derive(Clone, Copy, Debug, PartialEq, Eq, Structural)]
pub enum PassError {
    /// The link could not be opened, or could not be closed.
    Connection(ConnectionError),
    /// The services could not be listed.
    Discovery(DiscoveryError),
}

/// What the opening of a pass is waiting for.
#[derive(Clone, Copy, Debug, PartialEq, Eq, Structural)]
pub enum OpenPhase {
    Connecting { link: ConnectOp },
    Discovering,
}

/// The opening of a pass: connect, then discover.
#[derive(Clone, Copy, Debug, PartialEq, Eq, Structural)]
pub struct OpenOp {
    pub phase: OpenPhase,
}

impl OpenOp {
    /// Carries a step of connecting over into the opening: discovery is
    /// requested as soon as the link is up.
    pub open spec fn with_link(link: Step<ConnectOp, (), ConnectionError>) -> Step<
        OpenOp,
        ServiceTree,
        PassError,
    > {
        match link {
            Step::Continue { state, request } => Step::Continue {
                state: OpenOp { phase: OpenPhase::Connecting { link: state } },
                request,
            },
            Step::Finished(Ok(_)) => Step::Continue {
                state: OpenOp { phase: OpenPhase::Discovering },
                request: Request::DiscoverServices,
            },
            Step::Finished(Err(e)) => Step::Finished(Err(PassError::Connection(e))),
        }
    }

    fn link_step(link: Step<ConnectOp, (), ConnectionError>) -> (next: Step<
        OpenOp,
        ServiceTree,
        PassError,
    >)
        ensures
            next == Self::with_link(link),
    {
        match link {
            Step::Continue { state, request } => Step::Continue {
                state: OpenOp { phase: OpenPhase::Connecting { link: state } },
                request,
            },
            Step::Finished(Ok(_)) => Step::Continue {
                state: OpenOp { phase: OpenPhase::Discovering },
                request: Request::DiscoverServices,
            },
            Step::Finished(Err(e)) => Step::Finished(Err(PassError::Connection(e))),
        }
    }

    /// A pass opens with a connect operation under the connect policy.
    pub open spec fn spec_start() -> Step<OpenOp, ServiceTree, PassError> {
        Self::with_link(ConnectOp::spec_start(RetryPolicy::connect()))
    }

    pub fn start() -> (step: Step<OpenOp, ServiceTree, PassError>)
        ensures
            step == Self::spec_start(),
    {
        Self::link_step(ConnectOp::start(RetryPolicy::connect()))
    }

    /// The transition table of opening: the connect operation is advanced,
    /// and the reply to discovery is the tree or a discovery failure.
    pub open spec fn spec_step(self, reply: Reply) -> Step<OpenOp, ServiceTree, PassError> {
        match self.phase {
            OpenPhase::Connecting { link } => Self::with_link(link.spec_step(reply)),
            OpenPhase::Discovering => match reply {
                Reply::Services(tree) => Step::Finished(Ok(tree)),
                _ => Step::Finished(Err(PassError::Discovery(DiscoveryError::Failed))),
            },
        }
    }

    pub fn step(self, reply: Reply) -> (next: Step<OpenOp, ServiceTree, PassError>)
        ensures
            next == self.spec_step(reply),
    {
        match self.phase {
            OpenPhase::Connecting { link } => Self::link_step(link.step(reply)),
            OpenPhase::Discovering => match reply {
                Reply::Services(tree) => Step::Finished(Ok(tree)),
                _ => Step::Finished(Err(PassError::Discovery(DiscoveryError::Failed))),
            },
        }
    }
}

/// How a pass ends on the reply to its disconnect request.
pub open spec fn spec_closed<S, T>(reply: Reply, output: T) -> Step<S, T, PassError> {
    match reply {
        Reply::Done => Step::Finished(Ok(output)),
        _ => Step::Finished(Err(PassError::Connection(ConnectionError::Unreachable))),
    }
}

fn closed<S, T>(reply: Reply, output: T) -> (next: Step<S, T, PassError>)
    ensures
        next == spec_closed::<S, T>(reply, output),
{
    match reply {
        Reply::Done => Step::Finished(Ok(output)),
        _ => Step::Finished(Err(PassError::Connection(ConnectionError::Unreachable))),
    }
}

/// What the listing pass is waiting for.
#[derive(Clone, Debug, PartialEq, Eq)]
pub enum ListInfoPhase {
    Opening { open: OpenOp },
    Closing { tree: ServiceTree },
}

/// The listing pass: connect, discover, disconnect, and hand out what
/// discovery found.
#[derive(Clone, Debug, PartialEq, Eq)]
pub struct ListInfoOp {
    pub phase: ListInfoPhase,
}

impl ListInfoOp {
    /// Carries a step of opening over into the pass: the link is closed as
    /// soon as the tree is there.
    pub open spec fn with_open(open: Step<OpenOp, ServiceTree, PassError>) -> Step<
        ListInfoOp,
        ServiceTree,
        PassError,
    > {
        match open {
            Step::Continue { state, request } => Step::Continue {
                state: ListInfoOp { phase: ListInfoPhase::Opening { open: state } },
                request,
            },
            Step::Finished(Ok(tree)) => Step::Continue {
                state: ListInfoOp { phase: ListInfoPhase::Closing { tree } },
                request: Request::Disconnect,
            },
            Step::Finished(Err(e)) => Step::Finished(Err(e)),
        }
    }

    fn open_step(open: Step<OpenOp, ServiceTree, PassError>) -> (next: Step<
        ListInfoOp,
        ServiceTree,
        PassError,
    >)
        ensures
            next == Self::with_open(open),
    {
        match open {
            Step::Continue { state, request } => Step::Continue {
                state: ListInfoOp { phase: ListInfoPhase::Opening { open: state } },
                request,
            },
            Step::Finished(Ok(tree)) => Step::Continue {
                state: ListInfoOp { phase: ListInfoPhase::Closing { tree } },
                request: Request::Disconnect,
            },
            Step::Finished(Err(e)) => Step::Finished(Err(e)),
        }
    }

    pub open spec fn spec_start() -> Step<ListInfoOp, ServiceTree, PassError> {
        Self::with_open(OpenOp::spec_start())
    }

    pub fn start() -> (step: Step<ListInfoOp, ServiceTree, PassError>)
        ensures
            step == Self::spec_start(),
    {
        Self::open_step(OpenOp::start())
    }

    /// The transition table of the listing pass.
    pub open spec fn spec_step(self, reply: Reply) -> Step<ListInfoOp, ServiceTree, PassError> {
        match self.phase {
            ListInfoPhase::Opening { open } => Self::with_open(open.spec_step(reply)),
            ListInfoPhase::Closing { tree } => spec_closed(reply, tree),
        }
    }

    pub fn step(self, reply: Reply) -> (next: Step<ListInfoOp, ServiceTree, PassError>)
        ensures
            next == self.spec_step(reply),
    {
        match self.phase {
            ListInfoPhase::Opening { open } => Self::open_step(open.step(reply)),
            ListInfoPhase::Closing { tree } => closed(reply, tree),
        }
    }
}

/// The index of the first characteristic from `from` on that can be read,
/// or the number of characteristics where there is none.
pub open spec fn next_readable(characteristics: Seq<CharacteristicDescriptor>, from: int) -> int
    decreases characteristics.len() - from,
{
    if from < 0 || from >= characteristics.len() {
        characteristics.len() as int
    } else if characteristics[from].properties.spec_contains(Property::Read) {
        from
    } else {
        next_readable(characteristics, from + 1)
    }
}

/// `next_readable` is the least index from `from` on whose characteristic
/// can be read.
pub proof fn lemma_next_readable(characteristics: Seq<CharacteristicDescriptor>, from: int)
    requires
        0 <= from <= characteristics.len(),
    ensures
        from <= next_readable(characteristics, from) <= characteristics.len(),
        next_readable(characteristics, from) < characteristics.len()
            ==> characteristics[next_readable(characteristics, from)].properties.spec_contains(
            Property::Read,
        ),
        forall|i: int|
            from <= i < next_readable(characteristics, from)
                ==> !(#[trigger] characteristics[i]).properties.spec_contains(Property::Read),
    decreases characteristics.len() - from,
{
    if from < characteristics.len() && !characteristics[from].properties.spec_contains(
        Property::Read,
    ) {
        lemma_next_readable(characteristics, from + 1);
    }
}

/// What the detailed pass is waiting for.
#[derive(Clone, Debug, PartialEq, Eq)]
pub enum RetrieveInfoPhase {
    Opening { open: OpenOp },
    /// For the value of the characteristic at `index` of the tree.
    Reading { tree: ServiceTree, index: usize },
    Closing,
}

/// The detailed pass: connect, discover, read once every characteristic
/// that has the READ property, disconnect.
#[derive(Clone, Debug, PartialEq, Eq)]
pub struct RetrieveInfoOp {
    pub phase: RetrieveInfoPhase,
}

impl RetrieveInfoOp {
    /// Goes on with the characteristics from index `from` on: the next one
    /// that can be read is read, and when none is left the link is closed.
    pub open spec fn spec_resume(tree: ServiceTree, from: int) -> Step<
        RetrieveInfoOp,
        (),
        PassError,
    > {
        let index = next_readable(tree.characteristics@, from);
        if index < tree.characteristics@.len() {
            Step::Continue {
                state: RetrieveInfoOp {
                    phase: RetrieveInfoPhase::Reading { tree, index: index as usize },
                },
                request: Request::Read { characteristic: tree.characteristics@[index] },
            }
        } else {
            Step::Continue {
                state: RetrieveInfoOp { phase: RetrieveInfoPhase::Closing },
                request: Request::Disconnect,
            }
        }
    }

    fn resume(tree: ServiceTree, from: usize) -> (next: Step<RetrieveInfoOp, (), PassError>)
        ensures
            next == Self::spec_resume(tree, from as int),
    {
        let mut index: usize = from;
        while index < tree.characteristics.len()
            invariant
                next_readable(tree.characteristics@, from as int) == next_readable(
                    tree.characteristics@,
                    index as int,
                ),
            decreases tree.characteristics.len() - index,
        {
            if tree.characteristics[index].properties.contains(Property::Read) {
                let characteristic = tree.characteristics[index].duplicate();
                return Step::Continue {
                    state: RetrieveInfoOp { phase: RetrieveInfoPhase::Reading { tree, index } },
                    request: Request::Read { characteristic },
                };
            }
            index = index + 1;
        }
        Step::Continue {
            state: RetrieveInfoOp { phase: RetrieveInfoPhase::Closing },
            request: Request::Disconnect,
        }
    }

    /// Carries a step of opening over into the pass.
    pub open spec fn with_open(open: Step<OpenOp, ServiceTree, PassError>) -> Step<
        RetrieveInfoOp,
        (),
        PassError,
    > {
        match open {
            Step::Continue { state, request } => Step::Continue {
                state: RetrieveInfoOp { phase: RetrieveInfoPhase::Opening { open: state } },
                request,
            },
            Step::Finished(Ok(tree)) => Self::spec_resume(tree, 0),
            Step::Finished(Err(e)) => Step::Finished(Err(e)),
        }
    }

    fn open_step(open: Step<OpenOp, ServiceTree, PassError>) -> (next: Step<
        RetrieveInfoOp,
        (),
        PassError,
    >)
        ensures
            next == Self::with_open(open),
    {
        match open {
            Step::Continue { state, request } => Step::Continue {
                state: RetrieveInfoOp { phase: RetrieveInfoPhase::Opening { open: state } },
                request,
            },
            Step::Finished(Ok(tree)) => Self::resume(tree, 0),
            Step::Finished(Err(e)) => Step::Finished(Err(e)),
        }
    }

    pub open spec fn spec_start() -> Step<RetrieveInfoOp, (), PassError> {
        Self::with_open(OpenOp::spec_start())
    }

    pub fn start() -> (step: Step<RetrieveInfoOp, (), PassError>)
        ensures
            step == Self::spec_start(),
    {
        Self::open_step(OpenOp::start())
    }

    /// The transition table of the detailed pass. A read is made once and
    /// not tried again: whatever its reply, the pass goes on with the next
    /// characteristic that can be read.
    pub open spec fn spec_step(self, reply: Reply) -> Step<RetrieveInfoOp, (), PassError> {
        match self.phase {
            RetrieveInfoPhase::Opening { open } => Self::with_open(open.spec_step(reply)),
            RetrieveInfoPhase::Reading { tree, index } => Self::spec_resume(tree, index + 1),
            RetrieveInfoPhase::Closing => spec_closed(reply, ()),
        }
    }

    pub fn step(self, reply: Reply) -> (next: Step<RetrieveInfoOp, (), PassError>)
        ensures
            next == self.spec_step(reply),
    {
        match self.phase {
            RetrieveInfoPhase::Opening { open } => Self::open_step(open.step(reply)),
            RetrieveInfoPhase::Reading { tree, index } => {
                let from: usize = if index < tree.characteristics.len() {
                    index + 1
                } else {
                    tree.characteristics.len()
                };
                Self::resume(tree, from)
            },
            RetrieveInfoPhase::Closing => closed(reply, ()),
        }
    }
}

/// What the information pass is waiting for.
#[derive(Clone, Debug, PartialEq, Eq)]
pub enum ReadInfoPhase {
    Opening { open: OpenOp },
    /// For the read of `field` to go on.
    Row { tree: ServiceTree, field: InfoField, read: ReadOp },
    /// For the line of `field` to be shown.
    Reporting { tree: ServiceTree, field: InfoField },
    Closing,
}

/// The information pass of the MJ_HT_V1 sensor: connect, discover, read
/// each information field in turn and report how its read ended,
/// disconnect.
#[derive(Clone, Debug, PartialEq, Eq)]
pub struct ReadInfoOp {
    pub phase: ReadInfoPhase,
}

impl ReadInfoOp {
    /// Asks for the outcome of `field` to be shown.
    pub open spec fn spec_report(tree: ServiceTree, field: InfoField, outcome: InfoOutcome) -> Step<
        ReadInfoOp,
        (),
        PassError,
    > {
        Step::Continue {
            state: ReadInfoOp { phase: ReadInfoPhase::Reporting { tree, field } },
            request: Request::Report { field, outcome },
        }
    }

    /// Carries a step of the read of `field` over into the pass: the end of
    /// the read, good or bad, is reported, and never ends the pass.
    pub open spec fn with_read(
        tree: ServiceTree,
        field: InfoField,
        read: Step<ReadOp, Vec<u8>, ReadError>,
    ) -> Step<ReadInfoOp, (), PassError> {
        match read {
            Step::Continue { state, request } => Step::Continue {
                state: ReadInfoOp { phase: ReadInfoPhase::Row { tree, field, read: state } },
                request,
            },
            Step::Finished(Ok(value)) => Self::spec_report(tree, field, InfoOutcome::Value(value)),
            Step::Finished(Err(e)) => Self::spec_report(tree, field, InfoOutcome::Failed(e)),
        }
    }

    fn read_step(tree: ServiceTree, field: InfoField, read: Step<ReadOp, Vec<u8>, ReadError>) -> (next:
        Step<ReadInfoOp, (), PassError>)
        ensures
            next == Self::with_read(tree, field, read),
    {
        match read {
            Step::Continue { state, request } => Step::Continue {
                state: ReadInfoOp { phase: ReadInfoPhase::Row { tree, field, read: state } },
                request,
            },
            Step::Finished(Ok(value)) => Step::Continue {
                state: ReadInfoOp { phase: ReadInfoPhase::Reporting { tree, field } },
                request: Request::Report { field, outcome: InfoOutcome::Value(value) },
            },
            Step::Finished(Err(e)) => Step::Continue {
                state: ReadInfoOp { phase: ReadInfoPhase::Reporting { tree, field } },
                request: Request::Report { field, outcome: InfoOutcome::Failed(e) },
            },
        }
    }

    /// Takes up `field`: its characteristic is looked up in the tree and
    /// read, or reported missing. When no field is left the link is closed.
    pub open spec fn spec_take_up(tree: ServiceTree, field: Option<InfoField>) -> Step<
        ReadInfoOp,
        (),
        PassError,
    > {
        match field {
            None => Step::Continue {
                state: ReadInfoOp { phase: ReadInfoPhase::Closing },
                request: Request::Disconnect,
            },
            Some(field) => match tree.spec_find(
                field.spec_service_uuid(),
                field.spec_characteristic_uuid(),
            ) {
                None => Self::spec_report(tree, field, InfoOutcome::Missing),
                Some(characteristic) => Self::with_read(
                    tree,
                    field,
                    ReadOp::spec_start(characteristic),
                ),
            },
        }
    }

    fn take_up(tree: ServiceTree, field: Option<InfoField>) -> (next: Step<
        ReadInfoOp,
        (),
        PassError,
    >)
        ensures
            next == Self::spec_take_up(tree, field),
    {
        match field {
            None => Step::Continue {
                state: ReadInfoOp { phase: ReadInfoPhase::Closing },
                request: Request::Disconnect,
            },
            Some(field) => {
                let found = match tree.find(field.service_uuid(), field.characteristic_uuid()) {
                    Some(characteristic) => Some(characteristic.duplicate()),
                    None => None,
                };
                match found {
                    None => Step::Continue {
                        state: ReadInfoOp { phase: ReadInfoPhase::Reporting { tree, field } },
                        request: Request::Report { field, outcome: InfoOutcome::Missing },
                    },
                    Some(characteristic) => Self::read_step(
                        tree,
                        field,
                        ReadOp::start(characteristic),
                    ),
                }
            },
        }
    }

    /// Carries a step of opening over into the pass.
    pub open spec fn with_open(open: Step<OpenOp, ServiceTree, PassError>) -> Step<
        ReadInfoOp,
        (),
        PassError,
    > {
        match open {
            Step::Continue { state, request } => Step::Continue {
                state: ReadInfoOp { phase: ReadInfoPhase::Opening { open: state } },
                request,
            },
            Step::Finished(Ok(tree)) => Self::spec_take_up(tree, Some(InfoField::first())),
            Step::Finished(Err(e)) => Step::Finished(Err(e)),
        }
    }

    fn open_step(open: Step<OpenOp, ServiceTree, PassError>) -> (next: Step<
        ReadInfoOp,
        (),
        PassError,
    >)
        ensures
            next == Self::with_open(open),
    {
        match open {
            Step::Continue { state, request } => Step::Continue {
                state: ReadInfoOp { phase: ReadInfoPhase::Opening { open: state } },
                request,
            },
            Step::Finished(Ok(tree)) => Self::take_up(tree, Some(InfoField::first())),
            Step::Finished(Err(e)) => Step::Finished(Err(e)),
        }
    }

    pub open spec fn spec_start() -> Step<ReadInfoOp, (), PassError> {
        Self::with_open(OpenOp::spec_start())
    }

    pub fn start() -> (step: Step<ReadInfoOp, (), PassError>)
        ensures
            step == Self::spec_start(),
    {
        Self::open_step(OpenOp::start())
    }

    /// The transition table of the information pass.
    pub open spec fn spec_step(self, reply: Reply) -> Step<ReadInfoOp, (), PassError> {
        match self.phase {
            ReadInfoPhase::Opening { open } => Self::with_open(open.spec_step(reply)),
            ReadInfoPhase::Row { tree, field, read } => Self::with_read(
                tree,
                field,
                read.spec_step(reply),
            ),
            ReadInfoPhase::Reporting { tree, field } => Self::spec_take_up(tree, field.next()),
            ReadInfoPhase::Closing => spec_closed(reply, ()),
        }
    }

    pub fn step(self, reply: Reply) -> (next: Step<ReadInfoOp, (), PassError>)
        ensures
            next == self.spec_step(reply),
    {
        match self.phase {
            ReadInfoPhase::Opening { open } => Self::open_step(open.step(reply)),
            ReadInfoPhase::Row { tree, field, read } => Self::read_step(
                tree,
                field,
                read.step(reply),
            ),
            ReadInfoPhase::Reporting { tree, field } => Self::take_up(tree, field.next()),
            ReadInfoPhase::Closing => closed(reply, ()),
        }
    }
}

/// Why a pass over a sensor ended early.
#[derive(Clone, Debug, PartialEq, Eq)]
pub enum SensorError {
    /// The link could not be opened or closed, or the services not listed.
    Pass(PassError),
    /// The peripheral has no characteristic for the field.
    Missing { field: Field },
    /// Notifications of a field could not be turned on.
    Subscribe(SubscribeError),
    /// The reading did not arrive.
    Collect(CollectError),
}

/// What the subscribing pass is waiting for.
#[derive(Clone, Debug, PartialEq, Eq)]
pub enum SubscribePassPhase {
    Opening { open: OpenOp },
    /// For the subscription to the characteristic of `field` to go on.
    Subscribing { field: Field, tree: ServiceTree, sub: SubscribeOp },
}

/// The subscribing pass: connect, discover, then turn on the notifications
/// of temperature and of humidity, in this order. The link stays open.
#[derive(Clone, Debug, PartialEq, Eq)]
pub struct SubscribePass {
    pub model: SensorModel,
    pub phase: SubscribePassPhase,
}

/// The field whose notifications are turned on after those of `field`.
pub open spec fn spec_field_after(field: Field) -> Option<Field> {
    match field {
        Field::Temperature => Some(Field::Humidity),
        Field::Humidity => None,
    }
}

/// The number of fields that come after `field`.
pub open spec fn fields_after(field: Field) -> nat {
    match field {
        Field::Temperature => 1,
        Field::Humidity => 0,
    }
}

impl SubscribePass {
    /// Takes up `field`: its characteristic is looked up in the tree, under
    /// the service and the UUID of the model, and subscribed to; a field
    /// without characteristic ends the pass with `Missing`.
    pub open spec fn spec_take_up(model: SensorModel, tree: ServiceTree, field: Field) -> Step<
        SubscribePass,
        (),
        SensorError,
    >
        decreases fields_after(field), 1nat,
    {
        match tree.spec_find(model.service_uuid@, model.spec_uuid_of(field)) {
            None => Step::Finished(Err(SensorError::Missing { field })),
            Some(characteristic) => Self::with_sub(
                model,
                tree,
                field,
                SubscribeOp::spec_start(characteristic),
            ),
        }
    }

    /// Carries a step of the subscription for `field` over into the pass:
    /// its failure ends the pass, its success takes up the next field, and
    /// after the last field the pass has succeeded.
    pub open spec fn with_sub(
        model: SensorModel,
        tree: ServiceTree,
        field: Field,
        sub: Step<SubscribeOp, (), SubscribeError>,
    ) -> Step<SubscribePass, (), SensorError>
        decreases fields_after(field), 0nat,
    {
        match sub {
            Step::Continue { state, request } => Step::Continue {
                state: SubscribePass {
                    model,
                    phase: SubscribePassPhase::Subscribing { field, tree, sub: state },
                },
                request,
            },
            Step::Finished(Ok(_)) => match field {
                Field::Temperature => Self::spec_take_up(model, tree, Field::Humidity),
                Field::Humidity => Step::Finished(Ok(())),
            },
            Step::Finished(Err(e)) => Step::Finished(Err(SensorError::Subscribe(e))),
        }
    }

    fn take_up(model: SensorModel, tree: ServiceTree, field: Field) -> (next: Step<
        SubscribePass,
        (),
        SensorError,
    >)
        ensures
            next == Self::spec_take_up(model, tree, field),
        decreases fields_after(field), 1nat,
    {
        let found = match tree.find(model.service_uuid.as_str(), model.uuid_of(field)) {
            Some(characteristic) => Some(characteristic.duplicate()),
            None => None,
        };
        match found {
            None => Step::Finished(Err(SensorError::Missing { field })),
            Some(characteristic) => Self::sub_step(
                model,
                tree,
                field,
                SubscribeOp::start(characteristic),
            ),
        }
    }

    fn sub_step(
        model: SensorModel,
        tree: ServiceTree,
        field: Field,
        sub: Step<SubscribeOp, (), SubscribeError>,
    ) -> (next: Step<SubscribePass, (), SensorError>)
        ensures
            next == Self::with_sub(model, tree, field, sub),
        decreases fields_after(field), 0nat,
    {
        match sub {
            Step::Continue { state, request } => Step::Continue {
                state: SubscribePass {
                    model,
                    phase: SubscribePassPhase::Subscribing { field, tree, sub: state },
                },
                request,
            },
            Step::Finished(Ok(_)) => match field {
                Field::Temperature => Self::take_up(model, tree, Field::Humidity),
                Field::Humidity => Step::Finished(Ok(())),
            },
            Step::Finished(Err(e)) => Step::Finished(Err(SensorError::Subscribe(e))),
        }
    }

    /// Carries a step of opening over into the pass.
    pub open spec fn with_open(model: SensorModel, open: Step<OpenOp, ServiceTree, PassError>) -> Step<
        SubscribePass,
        (),
        SensorError,
    > {
        match open {
            Step::Continue { state, request } => Step::Continue {
                state: SubscribePass { model, phase: SubscribePassPhase::Opening { open: state } },
                request,
            },
            Step::Finished(Ok(tree)) => Self::spec_take_up(model, tree, Field::Temperature),
            Step::Finished(Err(e)) => Step::Finished(Err(SensorError::Pass(e))),
        }
    }

    fn open_step(model: SensorModel, open: Step<OpenOp, ServiceTree, PassError>) -> (next: Step<
        SubscribePass,
        (),
        SensorError,
    >)
        ensures
            next == Self::with_open(model, open),
    {
        match open {
            Step::Continue { state, request } => Step::Continue {
                state: SubscribePass { model, phase: SubscribePassPhase::Opening { open: state } },
                request,
            },
            Step::Finished(Ok(tree)) => Self::take_up(model, tree, Field::Temperature),
            Step::Finished(Err(e)) => Step::Finished(Err(SensorError::Pass(e))),
        }
    }

    pub open spec fn spec_start(model: SensorModel) -> Step<SubscribePass, (), SensorError> {
        Self::with_open(model, OpenOp::spec_start())
    }

    pub fn start(model: SensorModel) -> (step: Step<SubscribePass, (), SensorError>)
        ensures
            step == Self::spec_start(model),
    {
        Self::open_step(model, OpenOp::start())
    }

    /// The transition table of the subscribing pass.
    pub open spec fn spec_step(self, reply: Reply) -> Step<SubscribePass, (), SensorError> {
        match self.phase {
            SubscribePassPhase::Opening { open } => Self::with_open(
                self.model,
                open.spec_step(reply),
            ),
            SubscribePassPhase::Subscribing { field, tree, sub } => Self::with_sub(
                self.model,
                tree,
                field,
                sub.spec_step(reply),
            ),
        }
    }

    pub fn step(self, reply: Reply) -> (next: Step<SubscribePass, (), SensorError>)
        ensures
            next == self.spec_step(reply),
    {
        let SubscribePass { model, phase } = self;
        match phase {
            SubscribePassPhase::Opening { open } => Self::open_step(model, open.step(reply)),
            SubscribePassPhase::Subscribing { field, tree, sub } => Self::sub_step(
                model,
                tree,
                field,
                sub.step(reply),
            ),
        }
    }
}

/// What the sensor pass is waiting for.
#[derive(Clone, Debug, PartialEq, Eq)]
pub enum SensorPhase {
    Subscribing { pass: SubscribePass },
    Collecting { collector: Collector },
    Closing { values: FieldValues },
}

/// The sensor pass: the subscribing pass, then the collection of a full
/// reading within `timeout_millis`, then disconnect.
#[derive(Clone, Debug, PartialEq, Eq)]
pub struct SensorPass {
    pub model: SensorModel,
    pub timeout_millis: u64,
    pub phase: SensorPhase,
}

impl SensorPass {
    /// The pass in another phase.
    pub open spec fn at(model: SensorModel, timeout_millis: u64, phase: SensorPhase) -> SensorPass {
        SensorPass { model, timeout_millis, phase }
    }

    /// Carries a step of the collection over into the pass: with the
    /// reading complete the link is closed.
    pub open spec fn with_collect(
        model: SensorModel,
        timeout_millis: u64,
        collect: Step<Collector, FieldValues, CollectError>,
    ) -> Step<SensorPass, FieldValues, SensorError> {
        match collect {
            Step::Continue { state, request } => Step::Continue {
                state: Self::at(model, timeout_millis, SensorPhase::Collecting { collector: state }),
                request,
            },
            Step::Finished(Ok(values)) => Step::Continue {
                state: Self::at(model, timeout_millis, SensorPhase::Closing { values }),
                request: Request::Disconnect,
            },
            Step::Finished(Err(e)) => Step::Finished(Err(SensorError::Collect(e))),
        }
    }

    fn collect_step(
        model: SensorModel,
        timeout_millis: u64,
        collect: Step<Collector, FieldValues, CollectError>,
    ) -> (next: Step<SensorPass, FieldValues, SensorError>)
        ensures
            next == Self::with_collect(model, timeout_millis, collect),
    {
        match collect {
            Step::Continue { state, request } => Step::Continue {
                state: SensorPass {
                    model,
                    timeout_millis,
                    phase: SensorPhase::Collecting { collector: state },
                },
                request,
            },
            Step::Finished(Ok(values)) => Step::Continue {
                state: SensorPass { model, timeout_millis, phase: SensorPhase::Closing { values } },
                request: Request::Disconnect,
            },
            Step::Finished(Err(e)) => Step::Finished(Err(SensorError::Collect(e))),
        }
    }

    /// Carries a step of the subscribing pass over into the pass: once the
    /// notifications are on, the collection of both fields begins.
    pub open spec fn with_pass(
        model: SensorModel,
        timeout_millis: u64,
        pass: Step<SubscribePass, (), SensorError>,
    ) -> Step<SensorPass, FieldValues, SensorError> {
        match pass {
            Step::Continue { state, request } => Step::Continue {
                state: Self::at(model, timeout_millis, SensorPhase::Subscribing { pass: state }),
                request,
            },
            Step::Finished(Ok(_)) => Self::with_collect(
                model,
                timeout_millis,
                Collector::spec_start(
                    model,
                    RequiredFields { temperature: true, humidity: true },
                    timeout_millis,
                ),
            ),
            Step::Finished(Err(e)) => Step::Finished(Err(e)),
        }
    }

    fn pass_step(
        model: SensorModel,
        timeout_millis: u64,
        pass: Step<SubscribePass, (), SensorError>,
    ) -> (next: Step<SensorPass, FieldValues, SensorError>)
        ensures
            next == Self::with_pass(model, timeout_millis, pass),
    {
        match pass {
            Step::Continue { state, request } => Step::Continue {
                state: SensorPass {
                    model,
                    timeout_millis,
                    phase: SensorPhase::Subscribing { pass: state },
                },
                request,
            },
            Step::Finished(Ok(_)) => {
                let collect = Collector::start(
                    model.duplicate(),
                    RequiredFields { temperature: true, humidity: true },
                    timeout_millis,
                );
                Self::collect_step(model, timeout_millis, collect)
            },
            Step::Finished(Err(e)) => Step::Finished(Err(e)),
        }
    }

    pub open spec fn spec_start(model: SensorModel, timeout_millis: u64) -> Step<
        SensorPass,
        FieldValues,
        SensorError,
    > {
        Self::with_pass(model, timeout_millis, SubscribePass::spec_start(model))
    }

    pub fn start(model: SensorModel, timeout_millis: u64) -> (step: Step<
        SensorPass,
        FieldValues,
        SensorError,
    >)
        ensures
            step == Self::spec_start(model, timeout_millis),
    {
        let pass = SubscribePass::start(model.duplicate());
        Self::pass_step(model, timeout_millis, pass)
    }

    /// The transition table of the sensor pass.
    pub open spec fn spec_step(self, reply: Reply) -> Step<SensorPass, FieldValues, SensorError> {
        match self.phase {
            SensorPhase::Subscribing { pass } => Self::with_pass(
                self.model,
                self.timeout_millis,
                pass.spec_step(reply),
            ),
            SensorPhase::Collecting { collector } => Self::with_collect(
                self.model,
                self.timeout_millis,
                collector.spec_step(reply),
            ),
            SensorPhase::Closing { values } => match reply {
                Reply::Done => Step::Finished(Ok(values)),
                _ => Step::Finished(
                    Err(SensorError::Pass(PassError::Connection(ConnectionError::Unreachable))),
                ),
            },
        }
    }

    pub fn step(self, reply: Reply) -> (next: Step<SensorPass, FieldValues, SensorError>)
        ensures
            next == self.spec_step(reply),
    {
        let SensorPass { model, timeout_millis, phase } = self;
        match phase {
            SensorPhase::Subscribing { pass } => Self::pass_step(
                model,
                timeout_millis,
                pass.step(reply),
            ),
            SensorPhase::Collecting { collector } => Self::collect_step(
                model,
                timeout_millis,
                collector.step(reply),
            ),
            SensorPhase::Closing { values } => match reply {
                Reply::Done => Step::Finished(Ok(values)),
                _ => Step::Finished(
                    Err(SensorError::Pass(PassError::Connection(ConnectionError::Unreachable))),
                ),
            },
        }
    }
}

/// A sensor pass that ends with success hands out a value for both fields.
pub proof fn lemma_sensor_pass_yields_a_reading(pass: SensorPass, reply: Reply)
    requires
        pass.phase matches SensorPhase::Collecting { collector } ==> collector.required.temperature
            && collector.required.humidity,
        pass.phase matches SensorPhase::Closing { values } ==> values.spec_reading() is Some,
    ensures
        match pass.spec_step(reply) {
            Step::Finished(Ok(values)) => values.spec_reading() is Some,
            Step::Continue { state, .. } => {
                &&& state.phase matches SensorPhase::Collecting { collector }
                    ==> collector.required.temperature && collector.required.humidity
                &&& state.phase matches SensorPhase::Closing { values }
                    ==> values.spec_reading() is Some
            },
            _ => true,
        },
{
}

/// The detailed pass asks for no read of a characteristic that lacks the
/// READ property.
pub proof fn lemma_detailed_pass_reads_only_readable(tree: ServiceTree, from: int)
    requires
        0 <= from <= tree.characteristics@.len(),
    ensures
        RetrieveInfoOp::spec_resume(tree, from) matches Step::Continue {
            request: Request::Read { characteristic },
            ..
        } ==> characteristic.properties.spec_contains(Property::Read),
{
    lemma_next_readable(tree.characteristics@, from);
}

/// A read that fails does not end the information pass: while a field is
/// being read or reported, every reply leads to a further request.
pub proof fn lemma_information_pass_outlives_reads(op: ReadInfoOp, reply: Reply)
    requires
        op.phase is Row || op.phase is Reporting,
    ensures
        op.spec_step(reply) is Continue,
{
}

} // verus!
