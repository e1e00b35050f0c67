//! Accessory registration: the calls that announce the outlet to the
//! protocol stack, in their order.
//!
//! [`Registration`] is a state machine without I/O. The caller makes each
//! [`StackCall`] on the protocol stack and reports how it went as a
//! [`StackReply`]. Every call before the last may fail, and a failure ends
//! the registration before the stack's run loop is started. The last call,
//! [`StackCall::Start`], hands the calling execution context to the stack
//! and is not expected to return.

use crate::bootstrap::NetworkHandle;
use vstd::prelude::*;

verus! {

/// Kind of accessory, as the protocol stack classifies it.
#[derive(Clone, Copy, Debug, PartialEq, Eq, Structural)]
pub enum AccessoryCategory {
    Outlet,
}

/// Identity of the accessory.
#[derive(Debug, PartialEq, Eq)]
pub struct AccessoryDescriptor {
    pub name: String,
    pub model: String,
    pub manufacturer: String,
    pub serial_number: String,
    pub firmware_revision: String,
    pub hardware_revision: String,
    pub protocol_version: String,
    pub category: AccessoryCategory,
}

/// The outlet service: one writable boolean characteristic, "on", under a
/// name for people to read.
#[derive(Debug, PartialEq, Eq)]
pub struct ServiceDescriptor {
    pub name: String,
}

/// The pair that a controller needs to pair with the accessory.
#[derive(Debug, PartialEq, Eq)]
pub struct SetupCredential {
    pub code: String,
    pub id: String,
}

pub struct AccessoryDescriptorView {
    pub name: Seq<char>,
    pub model: Seq<char>,
    pub manufacturer: Seq<char>,
    pub serial_number: Seq<char>,
    pub firmware_revision: Seq<char>,
    pub hardware_revision: Seq<char>,
    pub protocol_version: Seq<char>,
    pub category: AccessoryCategory,
}

pub struct SetupCredentialView {
    pub code: Seq<char>,
    pub id: Seq<char>,
}

impl View for AccessoryDescriptor {
    type V = AccessoryDescriptorView;

    open spec fn view(&self) -> AccessoryDescriptorView {
        AccessoryDescriptorView {
            name: self.name@,
            model: self.model@,
            manufacturer: self.manufacturer@,
            serial_number: self.serial_number@,
            firmware_revision: self.firmware_revision@,
            hardware_revision: self.hardware_revision@,
            protocol_version: self.protocol_version@,
            category: self.category,
        }
    }
}

impl View for ServiceDescriptor {
    type V = Seq<char>;

    open spec fn view(&self) -> Seq<char> {
        self.name@
    }
}

impl View for SetupCredential {
    type V = SetupCredentialView;

    open spec fn view(&self) -> SetupCredentialView {
        SetupCredentialView { code: self.code@, id: self.id@ }
    }
}

impl Clone for AccessoryDescriptor {
    fn clone(&self) -> (copy: Self)
        ensures
            copy == *self,
    {
        AccessoryDescriptor {
            name: self.name.clone(),
            model: self.model.clone(),
            manufacturer: self.manufacturer.clone(),
            serial_number: self.serial_number.clone(),
            firmware_revision: self.firmware_revision.clone(),
            hardware_revision: self.hardware_revision.clone(),
            protocol_version: self.protocol_version.clone(),
            category: self.category,
        }
    }
}

impl Clone for SetupCredential {
    fn clone(&self) -> (copy: Self)
        ensures
            copy == *self,
    {
        SetupCredential { code: self.code.clone(), id: self.id.clone() }
    }
}

/// Why the registration ended before the run loop was started.
#[derive(Clone, Copy, Debug, PartialEq, Eq, Structural)]
pub enum RegistrationError {
    /// The stack could not be brought up or could not build what it was
    /// asked for.
    StackInitFailed,
    /// The stack refused the service or the accessory as already known.
    DuplicateRegistration,
}

/// One step of the registration.
#[derive(Clone, Copy, Debug, PartialEq, Eq, Structural)]
pub enum RegistrationStep {
    Init,
    CreateAccessory,
    CreateService,
    NameService,
    InstallWriteHandler,
    AttachService,
    RegisterAccessory,
    ProvisionSetup,
    Start,
}

impl RegistrationStep {
    /// Position of the step in the registration, from 0.
    pub open spec fn index(self) -> int {
        match self {
            RegistrationStep::Init => 0,
            RegistrationStep::CreateAccessory => 1,
            RegistrationStep::CreateService => 2,
            RegistrationStep::NameService => 3,
            RegistrationStep::InstallWriteHandler => 4,
            RegistrationStep::AttachService => 5,
            RegistrationStep::RegisterAccessory => 6,
            RegistrationStep::ProvisionSetup => 7,
            RegistrationStep::Start => 8,
        }
    }

    /// The step that follows, or nothing after the last.
    pub open spec fn successor(self) -> Option<RegistrationStep> {
        match self {
            RegistrationStep::Init => Some(RegistrationStep::CreateAccessory),
            RegistrationStep::CreateAccessory => Some(RegistrationStep::CreateService),
            RegistrationStep::CreateService => Some(RegistrationStep::NameService),
            RegistrationStep::NameService => Some(RegistrationStep::InstallWriteHandler),
            RegistrationStep::InstallWriteHandler => Some(RegistrationStep::AttachService),
            RegistrationStep::AttachService => Some(RegistrationStep::RegisterAccessory),
            RegistrationStep::RegisterAccessory => Some(RegistrationStep::ProvisionSetup),
            RegistrationStep::ProvisionSetup => Some(RegistrationStep::Start),
            RegistrationStep::Start => None,
        }
    }

    /// The error that a failure of the step stands for: attaching the
    /// service and registering the accessory fail on a duplicate, every
    /// other step on a stack that is not up to it.
    pub open spec fn failure(self) -> RegistrationError {
        match self {
            RegistrationStep::AttachService => RegistrationError::DuplicateRegistration,
            RegistrationStep::RegisterAccessory => RegistrationError::DuplicateRegistration,
            _ => RegistrationError::StackInitFailed,
        }
    }

    /// Computes [`RegistrationStep::successor`].
    pub fn next(self) -> (next: Option<RegistrationStep>)
        ensures
            next == self.successor(),
            next matches Some(step) ==> step.index() == self.index() + 1,
            next is None <==> self == RegistrationStep::Start,
    {
        match self {
            RegistrationStep::Init => Some(RegistrationStep::CreateAccessory),
            RegistrationStep::CreateAccessory => Some(RegistrationStep::CreateService),
            RegistrationStep::CreateService => Some(RegistrationStep::NameService),
            RegistrationStep::NameService => Some(RegistrationStep::InstallWriteHandler),
            RegistrationStep::InstallWriteHandler => Some(RegistrationStep::AttachService),
            RegistrationStep::AttachService => Some(RegistrationStep::RegisterAccessory),
            RegistrationStep::RegisterAccessory => Some(RegistrationStep::ProvisionSetup),
            RegistrationStep::ProvisionSetup => Some(RegistrationStep::Start),
            RegistrationStep::Start => None,
        }
    }

    /// Computes [`RegistrationStep::failure`].
    pub fn error(self) -> (error: RegistrationError)
        ensures
            error == self.failure(),
    {
        match self {
            RegistrationStep::AttachService => RegistrationError::DuplicateRegistration,
            RegistrationStep::RegisterAccessory => RegistrationError::DuplicateRegistration,
            _ => RegistrationError::StackInitFailed,
        }
    }
}

/// Where the registration stands.
#[derive(Clone, Copy, Debug, PartialEq, Eq, Structural)]
pub enum RegistrationState {
    /// Nothing was asked of the stack yet.
    NotStarted,
    /// The call of this step was made and its reply is awaited.
    Awaiting(RegistrationStep),
    /// The run loop was started; the stack owns the calling context.
    Running,
    /// A step failed; the run loop was never started.
    Failed(RegistrationError),
}

/// What the caller reports.
#[derive(Clone, Copy, Debug, PartialEq, Eq, Structural)]
pub enum StackReply {
    /// The caller asks for the registration to begin.
    Begin,
    /// The call that was asked for succeeded.
    Completed,
    /// The call that was asked for failed.
    Failed,
}

/// What to ask of the protocol stack next.
#[derive(Debug, PartialEq, Eq)]
pub enum StackCall {
    /// Initialise the stack's runtime.
    Init,
    /// Create the accessory from its identity.
    CreateAccessory(AccessoryDescriptor),
    /// Create the outlet service.
    CreateService,
    /// Give the service its name.
    SetName(String),
    /// Install the write handler as the service's write callback.
    SetWriteCallback,
    /// Attach the service to the accessory.
    AttachService,
    /// Register the accessory with the stack.
    RegisterAccessory,
    /// Provision the setup code and identifier.
    ProvisionSetup(SetupCredential),
    /// Start the run loop. The call does not return.
    Start,
    /// The registration failed; make no further call.
    Abort(RegistrationError),
    /// The reply answered no outstanding call and was ignored.
    Ignore,
}

pub enum StackCallView {
    Init,
    CreateAccessory(AccessoryDescriptorView),
    CreateService,
    SetName(Seq<char>),
    SetWriteCallback,
    AttachService,
    RegisterAccessory,
    ProvisionSetup(SetupCredentialView),
    Start,
    Abort(RegistrationError),
    Ignore,
}

impl View for StackCall {
    type V = StackCallView;

    open spec fn view(&self) -> StackCallView {
        match *self {
            StackCall::Init => StackCallView::Init,
            StackCall::CreateAccessory(accessory) => StackCallView::CreateAccessory(accessory@),
            StackCall::CreateService => StackCallView::CreateService,
            StackCall::SetName(name) => StackCallView::SetName(name@),
            StackCall::SetWriteCallback => StackCallView::SetWriteCallback,
            StackCall::AttachService => StackCallView::AttachService,
            StackCall::RegisterAccessory => StackCallView::RegisterAccessory,
            StackCall::ProvisionSetup(setup) => StackCallView::ProvisionSetup(setup@),
            StackCall::Start => StackCallView::Start,
            StackCall::Abort(error) => StackCallView::Abort(error),
            StackCall::Ignore => StackCallView::Ignore,
        }
    }
}

pub struct RegistrationView {
    pub accessory: AccessoryDescriptorView,
    pub service: Seq<char>,
    pub setup: SetupCredentialView,
    pub state: RegistrationState,
}

impl RegistrationView {
    /// The call that belongs to a step.
    pub open spec fn call_for(self, step: RegistrationStep) -> StackCallView {
        match step {
            RegistrationStep::Init => StackCallView::Init,
            RegistrationStep::CreateAccessory => StackCallView::CreateAccessory(self.accessory),
            RegistrationStep::CreateService => StackCallView::CreateService,
            RegistrationStep::NameService => StackCallView::SetName(self.service),
            RegistrationStep::InstallWriteHandler => StackCallView::SetWriteCallback,
            RegistrationStep::AttachService => StackCallView::AttachService,
            RegistrationStep::RegisterAccessory => StackCallView::RegisterAccessory,
            RegistrationStep::ProvisionSetup => StackCallView::ProvisionSetup(self.setup),
            RegistrationStep::Start => StackCallView::Start,
        }
    }

    /// The state after `reply`. A reply to the awaited call moves the
    /// registration to the next step or fails it; starting the run loop is
    /// the end, and every reply after it, or after a failure, or before the
    /// beginning, changes nothing.
    pub open spec fn next_state(self, reply: StackReply) -> RegistrationState {
        match (self.state, reply) {
            (RegistrationState::NotStarted, StackReply::Begin) => RegistrationState::Awaiting(
                RegistrationStep::Init,
            ),
            (RegistrationState::Awaiting(step), StackReply::Completed) => match step.successor() {
                Some(RegistrationStep::Start) => RegistrationState::Running,
                Some(next) => RegistrationState::Awaiting(next),
                None => self.state,
            },
            (RegistrationState::Awaiting(step), StackReply::Failed) => RegistrationState::Failed(
                step.failure(),
            ),
            (state, _) => state,
        }
    }

    /// The registration after `reply`.
    pub open spec fn step(self, reply: StackReply) -> RegistrationView {
        RegistrationView {
            accessory: self.accessory,
            service: self.service,
            setup: self.setup,
            state: self.next_state(reply),
        }
    }

    /// What `reply` makes the registration ask for.
    pub open spec fn call(self, reply: StackReply) -> StackCallView {
        match (self.state, reply) {
            (RegistrationState::NotStarted, StackReply::Begin) => StackCallView::Init,
            (RegistrationState::Awaiting(step), StackReply::Completed) => match step.successor() {
                Some(next) => self.call_for(next),
                None => StackCallView::Ignore,
            },
            (RegistrationState::Awaiting(step), StackReply::Failed) => StackCallView::Abort(
                step.failure(),
            ),
            _ => StackCallView::Ignore,
        }
    }

    /// The state after the replies `replies`, taken from first to last.
    pub open spec fn run(self, replies: Seq<StackReply>) -> RegistrationView
        decreases replies.len(),
    {
        if replies.len() == 0 {
            self
        } else {
            self.run(replies.drop_last()).step(replies.last())
        }
    }

    /// The calls asked for while the replies `replies` came in, one for
    /// each reply.
    pub open spec fn calls(self, replies: Seq<StackReply>) -> Seq<StackCallView> {
        Seq::new(replies.len(), |i: int| self.run(replies.take(i)).call(replies[i]))
    }
}

/// The registration of one accessory.
pub struct Registration {
    accessory: AccessoryDescriptor,
    service: ServiceDescriptor,
    setup: SetupCredential,
    state: RegistrationState,
}

impl View for Registration {
    type V = RegistrationView;

    closed spec fn view(&self) -> RegistrationView {
        RegistrationView {
            accessory: self.accessory@,
            service: self.service@,
            setup: self.setup@,
            state: self.state,
        }
    }
}

impl Registration {
    /// A registration for a device whose network link is up. The link is
    /// only looked at: a registration cannot be made without one.
    pub fn new(
        _network: &NetworkHandle,
        accessory: AccessoryDescriptor,
        service: ServiceDescriptor,
        setup: SetupCredential,
    ) -> (registration: Self)
        ensures
            registration@ == (RegistrationView {
                accessory: accessory@,
                service: service@,
                setup: setup@,
                state: RegistrationState::NotStarted,
            }),
    {
        Registration { accessory, service, setup, state: RegistrationState::NotStarted }
    }

    /// Where the registration stands.
    pub fn state(&self) -> (state: RegistrationState)
        ensures
            state == self@.state,
    {
        self.state
    }

    /// The call that belongs to `step`.
    fn call_for(&self, step: RegistrationStep) -> (call: StackCall)
        ensures
            call@ == self@.call_for(step),
    {
        match step {
            RegistrationStep::Init => StackCall::Init,
            RegistrationStep::CreateAccessory => StackCall::CreateAccessory(self.accessory.clone()),
            RegistrationStep::CreateService => StackCall::CreateService,
            RegistrationStep::NameService => StackCall::SetName(self.service.name.clone()),
            RegistrationStep::InstallWriteHandler => StackCall::SetWriteCallback,
            RegistrationStep::AttachService => StackCall::AttachService,
            RegistrationStep::RegisterAccessory => StackCall::RegisterAccessory,
            RegistrationStep::ProvisionSetup => StackCall::ProvisionSetup(self.setup.clone()),
            RegistrationStep::Start => StackCall::Start,
        }
    }

    /// Takes the caller's report and returns what to ask of the stack
    /// next.
    pub fn step(&mut self, reply: StackReply) -> (call: StackCall)
        ensures
            final(self)@ == old(self)@.step(reply),
            call@ == old(self)@.call(reply),
    {
        match self.state {
            RegistrationState::NotStarted => match reply {
                StackReply::Begin => {
                    self.state = RegistrationState::Awaiting(RegistrationStep::Init);
                    StackCall::Init
                },
                _ => StackCall::Ignore,
            },
            RegistrationState::Awaiting(step) => match reply {
                StackReply::Completed => match step.next() {
                    Some(next) => {
                        let call = self.call_for(next);
                        self.state = match next {
                            RegistrationStep::Start => RegistrationState::Running,
                            _ => RegistrationState::Awaiting(next),
                        };
                        call
                    },
                    None => StackCall::Ignore,
                },
                StackReply::Failed => {
                    let error = step.error();
                    self.state = RegistrationState::Failed(error);
                    StackCall::Abort(error)
                },
                StackReply::Begin => StackCall::Ignore,
            },
            RegistrationState::Running => StackCall::Ignore,
            RegistrationState::Failed(_) => StackCall::Ignore,
        }
    }
}

/// The step at a position of the registration.
pub open spec fn step_at(index: int) -> RegistrationStep {
    if index <= 0 {
        RegistrationStep::Init
    } else if index == 1 {
        RegistrationStep::CreateAccessory
    } else if index == 2 {
        RegistrationStep::CreateService
    } else if index == 3 {
        RegistrationStep::NameService
    } else if index == 4 {
        RegistrationStep::InstallWriteHandler
    } else if index == 5 {
        RegistrationStep::AttachService
    } else if index == 6 {
        RegistrationStep::RegisterAccessory
    } else if index == 7 {
        RegistrationStep::ProvisionSetup
    } else {
        RegistrationStep::Start
    }
}

/// The replies of a registration in which nothing fails: the beginning,
/// then `completed` calls that succeeded.
pub open spec fn unfailing(completed: nat) -> Seq<StackReply> {
    Seq::new(
        completed + 1,
        |i: int|
            if i == 0 {
                StackReply::Begin
            } else {
                StackReply::Completed
            },
    )
}

/// The steps come in one order. Each step but the last has a successor one
/// position further on, and positions name steps one for one.
pub proof fn lemma_steps_are_ordered(step: RegistrationStep)
    ensures
        0 <= step.index() <= 8,
        step_at(step.index()) == step,
        step.successor() matches Some(next) ==> next.index() == step.index() + 1,
        step.successor() is None <==> step == RegistrationStep::Start,
{
}

/// A failure ends the registration. Whatever step is awaited, its failure
/// fails the registration with the error of that step and asks for an
/// abort, not for a call.
pub proof fn lemma_failure_aborts(registration: RegistrationView, step: RegistrationStep)
    requires
        registration.state == RegistrationState::Awaiting(step),
    ensures
        registration.step(StackReply::Failed).state == RegistrationState::Failed(step.failure()),
        registration.call(StackReply::Failed) == StackCallView::Abort(step.failure()),
{
}

/// A registration that has ended stays as it is. After a failure, and
/// after the run loop was started, every reply is ignored and no call is
/// asked for: a failed registration never starts the run loop.
pub proof fn lemma_ended_registration_stays(
    registration: RegistrationView,
    replies: Seq<StackReply>,
)
    requires
        registration.state is Failed || registration.state is Running,
    ensures
        registration.run(replies) == registration,
        forall|k: int|
            0 <= k < replies.len() ==> #[trigger] registration.calls(replies)[k]
                == StackCallView::Ignore,
    decreases replies.len(),
{
    if replies.len() > 0 {
        lemma_ended_registration_stays(registration, replies.drop_last());
        assert forall|k: int| 0 <= k < replies.len() implies #[trigger] registration.calls(
            replies,
        )[k] == StackCallView::Ignore by {
            lemma_ended_registration_stays(registration, replies.take(k));
        }
    }
}

/// The run loop is started last. The call that starts the run loop is
/// asked for only in answer to the success of provisioning, the step
/// before it.
pub proof fn lemma_start_follows_provisioning(registration: RegistrationView, reply: StackReply)
    requires
        registration.call(reply) == StackCallView::Start,
    ensures
        registration.state == RegistrationState::Awaiting(RegistrationStep::ProvisionSetup),
        reply == StackReply::Completed,
        registration.step(reply).state == RegistrationState::Running,
{
}

/// Where nothing fails, the steps are taken in order. After the beginning
/// and `completed` successes a fresh registration awaits the step at
/// position `completed`, and after the success of the last step before the
/// start it has started the run loop.
pub proof fn lemma_unfailing_registration_advances(registration: RegistrationView, completed: nat)
    requires
        registration.state == RegistrationState::NotStarted,
        completed <= 8,
    ensures
        completed < 8 ==> registration.run(unfailing(completed)).state
            == RegistrationState::Awaiting(step_at(completed as int)),
        completed == 8 ==> registration.run(unfailing(completed)).state
            == RegistrationState::Running,
        registration.run(unfailing(completed)).accessory == registration.accessory,
        registration.run(unfailing(completed)).service == registration.service,
        registration.run(unfailing(completed)).setup == registration.setup,
    decreases completed,
{
    let replies = unfailing(completed);
    assert(replies.drop_last().len() == completed);
    if completed == 0 {
        assert(replies.drop_last() =~= Seq::<StackReply>::empty());
        assert(registration.run(replies.drop_last()) == registration);
        assert(replies.last() == StackReply::Begin);
    } else {
        let fewer = (completed - 1) as nat;
        assert(replies.drop_last() =~= unfailing(fewer));
        lemma_unfailing_registration_advances(registration, fewer);
        assert(replies.last() == StackReply::Completed);
    }
}

/// Where nothing fails, the calls come in order. The call asked for in
/// answer to the beginning and to each of the eight successes after it is
/// the call of the step at that position: initialise, create the
/// accessory, create the service, name it, install the write handler,
/// attach the service, register the accessory, provision the setup pair,
/// start.
pub proof fn lemma_unfailing_registration_calls(registration: RegistrationView, position: int)
    requires
        registration.state == RegistrationState::NotStarted,
        0 <= position <= 8,
    ensures
        registration.calls(unfailing(8))[position] == registration.call_for(step_at(position)),
{
    let replies = unfailing(8);
    let before = replies.take(position);
    if position > 0 {
        let fewer = (position - 1) as nat;
        assert(before =~= unfailing(fewer));
        lemma_unfailing_registration_advances(registration, fewer);
    } else {
        assert(before =~= Seq::<StackReply>::empty());
        assert(registration.run(before) == registration);
    }
}

} // verus!
