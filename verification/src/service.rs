//! The management service of one virtual machine.
//!
//! The service answers one message at a time. What each message does is a
//! function from the state of the service to its next state and to the actions
//! that the host carries out in order.

use vstd::prelude::*;

use crate::config::HostOs;
use crate::controller::VmControllerEvent;
use crate::devices::{
    is_endpoint, nic_refusal, parse_nic_config, push_signed, signed_decimal, NicBackend, NicPlan,
    NicRequest, PortRequest,
};
use crate::refusal::{refusal_of, refuse, Refusal};
use crate::text::push_text;

verus! {

/// The innermost cause of a failure, as far as the answer depends on it.
#[derive(Clone, Copy, Debug, PartialEq, Eq, Structural)]
pub enum RootCause {
    Code(i32),
    Cancelled,
    DeadlineExceeded,
    Other,
}

/// The code of an answer.
#[derive(Clone, Copy, Debug, PartialEq, Eq, Structural)]
pub enum StatusCode {
    Code(i32),
    Cancelled,
    DeadlineExceeded,
    Unknown,
}

/// A failure with the text of its whole chain of causes.
#[derive(Debug)]
pub struct Failure {
    pub root: RootCause,
    pub message: String,
}

/// A failed answer.
#[derive(Debug)]
pub struct Status {
    pub code: StatusCode,
    pub message: String,
}

/// The mathematical value of a [`Status`].
pub struct Answer {
    pub code: StatusCode,
    pub message: Seq<char>,
}

impl View for Status {
    type V = Answer;

    open spec fn view(&self) -> Answer {
        Answer { code: self.code, message: self.message@ }
    }
}

/// The code that a failure is answered with.
pub open spec fn code_of(root: RootCause) -> StatusCode {
    match root {
        RootCause::Code(code) => StatusCode::Code(code),
        RootCause::Cancelled => StatusCode::Cancelled,
        RootCause::DeadlineExceeded => StatusCode::DeadlineExceeded,
        RootCause::Other => StatusCode::Unknown,
    }
}

/// The answer to a failure.
pub open spec fn answer_of(failure: Failure) -> Answer {
    Answer { code: code_of(failure.root), message: failure.message@ }
}

/// The answer to a failure without a cause of its own.
pub open spec fn plain_answer(message: Seq<char>) -> Answer {
    Answer { code: StatusCode::Unknown, message }
}

/// Turns a failure into the answer that a client sees.
pub fn grpc_error(failure: Failure) -> (status: Status)
    ensures
        status@ == answer_of(failure),
{
    let code = match failure.root {
        RootCause::Code(code) => StatusCode::Code(code),
        RootCause::Cancelled => StatusCode::Cancelled,
        RootCause::DeadlineExceeded => StatusCode::DeadlineExceeded,
        RootCause::Other => StatusCode::Unknown,
    };
    Status { code, message: failure.message }
}

/// Turns what an operation gave into what its client sees.
pub fn map_grpc<T>(r: Result<T, Failure>) -> (out: Result<T, Status>)
    ensures
        match r {
            Ok(value) => out == Ok::<T, Status>(value),
            Err(failure) => out is Err && out->Err_0@ == answer_of(failure),
        },
{
    match r {
        Ok(value) => Ok(value),
        Err(failure) => Err(grpc_error(failure)),
    }
}

fn plain_status(message: &str) -> (status: Status)
    ensures
        status@ == plain_answer(message@),
{
    Status { code: StatusCode::Unknown, message: message.to_owned() }
}

/// What the virtual machine is doing.
#[derive(Debug)]
pub enum VmLifecycle {
    Uninitialized,
    Running,
    Paused,
    /// Stopped by the guest, for a reason.
    Halted(String),
}

/// The mathematical value of a [`VmLifecycle`].
pub enum Lifecycle {
    Uninitialized,
    Running,
    Paused,
    Halted(Seq<char>),
}

impl View for VmLifecycle {
    type V = Lifecycle;

    open spec fn view(&self) -> Lifecycle {
        match self {
            VmLifecycle::Uninitialized => Lifecycle::Uninitialized,
            VmLifecycle::Running => Lifecycle::Running,
            VmLifecycle::Paused => Lifecycle::Paused,
            VmLifecycle::Halted(reason) => Lifecycle::Halted(reason@),
        }
    }
}

/// What a client is told the virtual machine is doing.
#[derive(Clone, Copy, Debug, PartialEq, Eq, Structural)]
pub enum VmState {
    Uninitialized,
    Running,
    Paused,
    Halted,
}

/// The device channels of a virtual machine besides the channel of its worker.
#[derive(Clone, Copy, Debug, PartialEq, Eq, Structural)]
pub struct VmChannels {
    pub scsi: bool,
    pub consomme: bool,
}

/// The state of the service: which of its parts are there.
#[derive(Debug)]
pub struct VmService {
    pub vm: Option<VmChannels>,
    /// The channel to the controller.
    pub controller: bool,
    /// The events of the controller.
    pub events: bool,
    /// The task of the controller.
    pub task: bool,
    /// A client waits for the virtual machine to halt.
    pub waiting: bool,
    /// The service was told to end, by a client or by the guest.
    pub left: bool,
    pub lifecycle: VmLifecycle,
}

/// The mathematical value of a [`VmService`].
pub struct ServiceState {
    pub vm: Option<VmChannels>,
    pub controller: bool,
    pub events: bool,
    pub task: bool,
    pub waiting: bool,
    pub left: bool,
    pub lifecycle: Lifecycle,
}

impl View for VmService {
    type V = ServiceState;

    open spec fn view(&self) -> ServiceState {
        ServiceState {
            vm: self.vm,
            controller: self.controller,
            events: self.events,
            task: self.task,
            waiting: self.waiting,
            left: self.left,
            lifecycle: self.lifecycle@,
        }
    }
}

impl ServiceState {
    /// A virtual machine always has its controller.
    pub open spec fn wf(self) -> bool {
        self.vm is Some ==> self.controller
    }

    /// The service as it starts.
    pub open spec fn initial() -> ServiceState {
        ServiceState {
            vm: None,
            controller: false,
            events: false,
            task: false,
            waiting: false,
            left: false,
            lifecycle: Lifecycle::Uninitialized,
        }
    }
}

/// What a client is told of the virtual machine.
#[derive(Debug)]
pub struct PropertiesVmResponse {
    pub state: VmState,
    pub halt_reason: Option<String>,
}

/// A request on the virtual machine as a whole.
#[derive(Clone, Copy, Debug, PartialEq, Eq, Structural)]
pub enum VmRequest {
    CreateVm,
    TeardownVm,
    Quit,
    CapabilitiesVm,
    PropertiesVm,
    PauseVm,
    ResumeVm,
    WaitVm,
}

/// What the host does next for the service.
#[derive(Debug)]
pub enum ServiceAction {
    /// Creates the virtual machine; what comes of it is the reply.
    Create,
    /// Pauses the worker; what comes of it is the reply.
    PauseWorker,
    /// Resumes the worker; what comes of it is the reply.
    ResumeWorker,
    /// Drops the device channels of the virtual machine.
    DropDevices,
    /// Tells the controller to stop the worker and end.
    SendQuit,
    /// Drops the channel to the controller.
    DropController,
    /// Waits until the controller has ended.
    JoinController,
    /// Drops the events of the controller.
    CloseEvents,
    /// Waits until the requests that were started have ended.
    JoinRequests,
    /// Stops listening.
    CloseServer,
    /// Answers the waiting client.
    AnswerWait(Option<Status>),
    /// Answers the request.
    Reply(Option<Status>),
    ReplyCapabilities,
    ReplyProperties,
    /// Leaves the loop of the service.
    Leave,
}

/// The mathematical value of a [`ServiceAction`].
pub enum Effect {
    Create,
    PauseWorker,
    ResumeWorker,
    DropDevices,
    SendQuit,
    DropController,
    JoinController,
    CloseEvents,
    JoinRequests,
    CloseServer,
    AnswerWait(Option<Answer>),
    Reply(Option<Answer>),
    ReplyCapabilities,
    ReplyProperties,
    Leave,
}

/// The view of an optional failed answer.
pub open spec fn status_view(status: Option<Status>) -> Option<Answer> {
    match status {
        Some(status) => Some(status@),
        None => None,
    }
}

impl View for ServiceAction {
    type V = Effect;

    open spec fn view(&self) -> Effect {
        match self {
            ServiceAction::Create => Effect::Create,
            ServiceAction::PauseWorker => Effect::PauseWorker,
            ServiceAction::ResumeWorker => Effect::ResumeWorker,
            ServiceAction::DropDevices => Effect::DropDevices,
            ServiceAction::SendQuit => Effect::SendQuit,
            ServiceAction::DropController => Effect::DropController,
            ServiceAction::JoinController => Effect::JoinController,
            ServiceAction::CloseEvents => Effect::CloseEvents,
            ServiceAction::JoinRequests => Effect::JoinRequests,
            ServiceAction::CloseServer => Effect::CloseServer,
            ServiceAction::AnswerWait(status) => Effect::AnswerWait(status_view(*status)),
            ServiceAction::Reply(status) => Effect::Reply(status_view(*status)),
            ServiceAction::ReplyCapabilities => Effect::ReplyCapabilities,
            ServiceAction::ReplyProperties => Effect::ReplyProperties,
            ServiceAction::Leave => Effect::Leave,
        }
    }
}

/// The values of some actions.
pub open spec fn effects(actions: Seq<ServiceAction>) -> Seq<Effect> {
    actions.map_values(|a: ServiceAction| a@)
}

/// The actions that a condition calls for.
pub open spec fn only_if(condition: bool, effect: Effect) -> Seq<Effect> {
    if condition {
        seq![effect]
    } else {
        Seq::empty()
    }
}

fn perform(out: &mut Vec<ServiceAction>, action: ServiceAction)
    ensures
        effects(final(out)@) == effects(old(out)@).push(action@),
{
    out.push(action);
    assert(effects(out@) =~= effects(old(out)@).push(action@));
}

fn perform_if(out: &mut Vec<ServiceAction>, condition: bool, action: ServiceAction)
    ensures
        effects(final(out)@) == effects(old(out)@) + only_if(condition, action@),
{
    if condition {
        perform(out, action);
    }
    assert(effects(out@) =~= effects(old(out)@) + only_if(condition, action@));
}

/// What a request does.
pub open spec fn after_request(s: ServiceState, request: VmRequest) -> (ServiceState, Seq<Effect>) {
    match request {
        VmRequest::CreateVm => if s.vm is Some {
            (s, seq![Effect::Reply(Some(plain_answer("VM already created"@)))])
        } else {
            (s, seq![Effect::Create])
        },
        VmRequest::TeardownVm => if !s.controller {
            (s, seq![Effect::Reply(Some(plain_answer("vm not created"@)))])
        } else {
            (
                ServiceState { left: s.left, ..ServiceState::initial() },
                seq![Effect::DropDevices, Effect::SendQuit] + only_if(
                    s.task,
                    Effect::JoinController,
                ) + seq![Effect::CloseEvents] + only_if(
                    s.waiting,
                    Effect::AnswerWait(Some(plain_answer("VM torn down"@))),
                ) + seq![Effect::Reply(None)],
            )
        },
        VmRequest::Quit => (
            ServiceState { lifecycle: s.lifecycle, left: true, ..ServiceState::initial() },
            seq![Effect::DropDevices] + only_if(s.controller, Effect::SendQuit) + only_if(
                s.task,
                Effect::JoinController,
            ) + seq![Effect::CloseEvents] + only_if(
                s.waiting,
                Effect::AnswerWait(Some(plain_answer("VM quit"@))),
            ) + seq![Effect::Reply(None), Effect::Leave],
        ),
        VmRequest::CapabilitiesVm => (s, seq![Effect::ReplyCapabilities]),
        VmRequest::PropertiesVm => (s, seq![Effect::ReplyProperties]),
        VmRequest::PauseVm => if s.vm is None {
            (s, seq![Effect::Reply(Some(plain_answer("VM not created yet"@)))])
        } else {
            (s, seq![Effect::PauseWorker])
        },
        VmRequest::ResumeVm => if s.vm is None {
            (s, seq![Effect::Reply(Some(plain_answer("VM not created yet"@)))])
        } else {
            (s, seq![Effect::ResumeWorker])
        },
        VmRequest::WaitVm => if s.vm is None {
            (s, seq![Effect::Reply(Some(plain_answer("VM not created yet"@)))])
        } else if s.waiting {
            (s, seq![Effect::Reply(Some(plain_answer("wait VM already in flight"@)))])
        } else if s.lifecycle is Halted {
            (s, seq![Effect::Reply(None)])
        } else {
            (ServiceState { waiting: true, ..s }, Seq::empty())
        },
    }
}

/// What the outcome of a creation does.
pub open spec fn after_creation(s: ServiceState, outcome: Result<VmChannels, Failure>) -> (
    ServiceState,
    Seq<Effect>,
) {
    match outcome {
        Ok(channels) => (
            ServiceState {
                vm: Some(channels),
                controller: true,
                events: true,
                task: true,
                waiting: s.waiting,
                left: s.left,
                lifecycle: Lifecycle::Paused,
            },
            seq![Effect::Reply(None)],
        ),
        Err(failure) => (s, seq![Effect::Reply(Some(answer_of(failure)))]),
    }
}

/// A state that a request of the client changes, unless the guest has halted.
pub open spec fn unless_halted(s: ServiceState, next: Lifecycle) -> ServiceState {
    if s.lifecycle is Halted {
        s
    } else {
        ServiceState { lifecycle: next, ..s }
    }
}

/// What the outcome of a pause does.
pub open spec fn after_pause(s: ServiceState, outcome: Result<(), Failure>) -> (
    ServiceState,
    Seq<Effect>,
) {
    match outcome {
        Ok(()) => (unless_halted(s, Lifecycle::Paused), seq![Effect::Reply(None)]),
        Err(failure) => (
            s,
            seq![
                Effect::Reply(
                    Some(
                        Answer {
                            code: code_of(failure.root),
                            message: "pause failed: "@ + failure.message@,
                        },
                    ),
                ),
            ],
        ),
    }
}

/// What the outcome of a resume does. The worker may answer that it did not
/// resume.
pub open spec fn after_resume(s: ServiceState, outcome: Result<bool, Failure>) -> (
    ServiceState,
    Seq<Effect>,
) {
    match outcome {
        Ok(true) => (unless_halted(s, Lifecycle::Running), seq![Effect::Reply(None)]),
        Ok(false) => (
            s,
            seq![
                Effect::Reply(
                    Some(
                        plain_answer(
                            "VM did not resume; a state unit failed to start or the VM was already running"@,
                        ),
                    ),
                ),
            ],
        ),
        Err(failure) => (
            s,
            seq![
                Effect::Reply(
                    Some(
                        Answer {
                            code: code_of(failure.root),
                            message: "resume failed: "@ + failure.message@,
                        },
                    ),
                ),
            ],
        ),
    }
}

/// What an event of the controller does.
pub open spec fn after_event(s: ServiceState, event: VmControllerEvent) -> (
    ServiceState,
    Seq<Effect>,
) {
    match event {
        VmControllerEvent::GuestHalt(reason) => (
            ServiceState { lifecycle: Lifecycle::Halted(reason@), waiting: false, ..s },
            only_if(s.waiting, Effect::AnswerWait(None)),
        ),
        VmControllerEvent::ExitRequested { code } => (
            ServiceState {
                lifecycle: Lifecycle::Halted(
                    "guest exited with status "@ + signed_decimal(code),
                ),
                waiting: false,
                left: true,
                ..s
            },
            only_if(s.waiting, Effect::AnswerWait(None)) + seq![Effect::Leave],
        ),
        VmControllerEvent::WorkerStopped { error } => (
            ServiceState {
                vm: None,
                controller: false,
                waiting: false,
                lifecycle: Lifecycle::Uninitialized,
                ..s
            },
            only_if(
                s.waiting,
                Effect::AnswerWait(
                    Some(
                        plain_answer(
                            match error {
                                Some(error) => "VM worker stopped: "@ + error@,
                                None => "VM worker stopped"@,
                            },
                        ),
                    ),
                ),
            ) + seq![Effect::DropDevices, Effect::DropController],
        ),
        VmControllerEvent::VncWorkerStopped { .. } => (s, Seq::empty()),
    }
}

/// What it does that the waiting client went away.
pub open spec fn after_wait_cancelled(s: ServiceState, reason: Failure) -> (
    ServiceState,
    Seq<Effect>,
) {
    (
        ServiceState { waiting: false, ..s },
        only_if(s.waiting, Effect::AnswerWait(Some(answer_of(reason)))),
    )
}

/// What the end of the service does. A controller that is still there is told to
/// quit, unless the service was told to end.
pub open spec fn after_loop(s: ServiceState) -> (ServiceState, Seq<Effect>) {
    (
        ServiceState {
            vm: None,
            controller: s.left && s.controller,
            events: s.events,
            task: false,
            waiting: false,
            left: s.left,
            lifecycle: s.lifecycle,
        },
        only_if(!s.left && s.controller, Effect::SendQuit) + only_if(
            s.task,
            Effect::JoinController,
        ) + only_if(
            s.waiting,
            Effect::AnswerWait(Some(plain_answer("server shutting down"@))),
        ) + seq![Effect::JoinRequests] + only_if(s.vm is Some, Effect::DropDevices) + seq![
            Effect::CloseServer,
        ],
    )
}

impl VmService {
    /// A service without a virtual machine.
    pub fn new() -> (s: VmService)
        ensures
            s@ == ServiceState::initial(),
    {
        VmService {
            vm: None,
            controller: false,
            events: false,
            task: false,
            waiting: false,
            left: false,
            lifecycle: VmLifecycle::Uninitialized,
        }
    }

    fn halted(&self) -> (b: bool)
        ensures
            b == (self@.lifecycle is Halted),
    {
        match &self.lifecycle {
            VmLifecycle::Halted(_) => true,
            _ => false,
        }
    }

    fn teardown_vm(&mut self) -> (actions: Vec<ServiceAction>)
        ensures
            (final(self)@, effects(actions@)) == after_request(old(self)@, VmRequest::TeardownVm),
    {
        let mut out: Vec<ServiceAction> = Vec::new();
        if !self.controller {
            perform(&mut out, ServiceAction::Reply(Some(plain_status("vm not created"))));
        } else {
            // A live device channel keeps the worker from stopping, so the
            // channels go before the controller is waited for.
            perform(&mut out, ServiceAction::DropDevices);
            perform(&mut out, ServiceAction::SendQuit);
            perform_if(&mut out, self.task, ServiceAction::JoinController);
            perform(&mut out, ServiceAction::CloseEvents);
            perform_if(
                &mut out,
                self.waiting,
                ServiceAction::AnswerWait(Some(plain_status("VM torn down"))),
            );
            perform(&mut out, ServiceAction::Reply(None));
            let left = self.left;
            *self = VmService::new();
            self.left = left;
        }
        assert(effects(out@) =~= after_request(old(self)@, VmRequest::TeardownVm).1);
        out
    }

    fn quit(&mut self) -> (actions: Vec<ServiceAction>)
        ensures
            (final(self)@, effects(actions@)) == after_request(old(self)@, VmRequest::Quit),
    {
        let mut out: Vec<ServiceAction> = Vec::new();
        perform(&mut out, ServiceAction::DropDevices);
        perform_if(&mut out, self.controller, ServiceAction::SendQuit);
        perform_if(&mut out, self.task, ServiceAction::JoinController);
        perform(&mut out, ServiceAction::CloseEvents);
        perform_if(
            &mut out,
            self.waiting,
            ServiceAction::AnswerWait(Some(plain_status("VM quit"))),
        );
        perform(&mut out, ServiceAction::Reply(None));
        perform(&mut out, ServiceAction::Leave);
        self.vm = None;
        self.controller = false;
        self.events = false;
        self.task = false;
        self.waiting = false;
        self.left = true;
        assert(effects(out@) =~= after_request(old(self)@, VmRequest::Quit).1);
        out
    }

    fn wait_vm(&mut self) -> (actions: Vec<ServiceAction>)
        ensures
            (final(self)@, effects(actions@)) == after_request(old(self)@, VmRequest::WaitVm),
    {
        let mut out: Vec<ServiceAction> = Vec::new();
        if self.vm.is_none() {
            perform(&mut out, ServiceAction::Reply(Some(plain_status("VM not created yet"))));
        } else if self.waiting {
            perform(
                &mut out,
                ServiceAction::Reply(Some(plain_status("wait VM already in flight"))),
            );
        } else if self.halted() {
            perform(&mut out, ServiceAction::Reply(None));
        } else {
            self.waiting = true;
        }
        assert(effects(out@) =~= after_request(old(self)@, VmRequest::WaitVm).1);
        out
    }

    /// Answers a request, or starts what will answer it.
    pub fn handle(&mut self, request: VmRequest) -> (actions: Vec<ServiceAction>)
        ensures
            (final(self)@, effects(actions@)) == after_request(old(self)@, request),
    {
        let mut out: Vec<ServiceAction> = Vec::new();
        match request {
            VmRequest::CreateVm => {
                if self.vm.is_some() {
                    perform(
                        &mut out,
                        ServiceAction::Reply(Some(plain_status("VM already created"))),
                    );
                } else {
                    perform(&mut out, ServiceAction::Create);
                }
            },
            VmRequest::TeardownVm => return self.teardown_vm(),
            VmRequest::Quit => return self.quit(),
            VmRequest::CapabilitiesVm => perform(&mut out, ServiceAction::ReplyCapabilities),
            VmRequest::PropertiesVm => perform(&mut out, ServiceAction::ReplyProperties),
            VmRequest::PauseVm => {
                if self.vm.is_none() {
                    perform(
                        &mut out,
                        ServiceAction::Reply(Some(plain_status("VM not created yet"))),
                    );
                } else {
                    perform(&mut out, ServiceAction::PauseWorker);
                }
            },
            VmRequest::ResumeVm => {
                if self.vm.is_none() {
                    perform(
                        &mut out,
                        ServiceAction::Reply(Some(plain_status("VM not created yet"))),
                    );
                } else {
                    perform(&mut out, ServiceAction::ResumeWorker);
                }
            },
            VmRequest::WaitVm => return self.wait_vm(),
        }
        assert(effects(out@) =~= after_request(old(self)@, request).1);
        out
    }

    /// Takes in the outcome of a creation. A created virtual machine is paused.
    pub fn created(&mut self, outcome: Result<VmChannels, Failure>) -> (actions: Vec<
        ServiceAction,
    >)
        ensures
            (final(self)@, effects(actions@)) == after_creation(old(self)@, outcome),
    {
        let mut out: Vec<ServiceAction> = Vec::new();
        match outcome {
            Ok(channels) => {
                self.vm = Some(channels);
                self.controller = true;
                self.events = true;
                self.task = true;
                self.lifecycle = VmLifecycle::Paused;
                perform(&mut out, ServiceAction::Reply(None));
            },
            Err(failure) => {
                perform(&mut out, ServiceAction::Reply(Some(grpc_error(failure))));
            },
        }
        assert(effects(out@) =~= after_creation(old(self)@, outcome).1);
        out
    }

    /// Takes in the outcome of a pause.
    pub fn paused(&mut self, outcome: Result<(), Failure>) -> (actions: Vec<ServiceAction>)
        ensures
            (final(self)@, effects(actions@)) == after_pause(old(self)@, outcome),
    {
        let mut out: Vec<ServiceAction> = Vec::new();
        match outcome {
            Ok(()) => {
                if !self.halted() {
                    self.lifecycle = VmLifecycle::Paused;
                }
                perform(&mut out, ServiceAction::Reply(None));
            },
            Err(failure) => {
                let mut message = "pause failed: ".to_owned();
                push_text(&mut message, failure.message.as_str());
                let failure = Failure { root: failure.root, message };
                perform(&mut out, ServiceAction::Reply(Some(grpc_error(failure))));
            },
        }
        assert(effects(out@) =~= after_pause(old(self)@, outcome).1);
        out
    }

    /// Takes in the outcome of a resume.
    pub fn resumed(&mut self, outcome: Result<bool, Failure>) -> (actions: Vec<ServiceAction>)
        ensures
            (final(self)@, effects(actions@)) == after_resume(old(self)@, outcome),
    {
        let mut out: Vec<ServiceAction> = Vec::new();
        match outcome {
            Ok(true) => {
                if !self.halted() {
                    self.lifecycle = VmLifecycle::Running;
                }
                perform(&mut out, ServiceAction::Reply(None));
            },
            Ok(false) => {
                perform(
                    &mut out,
                    ServiceAction::Reply(
                        Some(
                            plain_status(
                                "VM did not resume; a state unit failed to start or the VM was already running",
                            ),
                        ),
                    ),
                );
            },
            Err(failure) => {
                let mut message = "resume failed: ".to_owned();
                push_text(&mut message, failure.message.as_str());
                let failure = Failure { root: failure.root, message };
                perform(&mut out, ServiceAction::Reply(Some(grpc_error(failure))));
            },
        }
        assert(effects(out@) =~= after_resume(old(self)@, outcome).1);
        out
    }

    /// Takes in an event of the controller.
    pub fn handle_controller_event(&mut self, event: VmControllerEvent) -> (actions: Vec<
        ServiceAction,
    >)
        ensures
            (final(self)@, effects(actions@)) == after_event(old(self)@, event),
    {
        let mut out: Vec<ServiceAction> = Vec::new();
        match event {
            VmControllerEvent::GuestHalt(reason) => {
                self.lifecycle = VmLifecycle::Halted(reason);
                perform_if(&mut out, self.waiting, ServiceAction::AnswerWait(None));
                self.waiting = false;
            },
            VmControllerEvent::ExitRequested { code } => {
                let mut reason = "guest exited with status ".to_owned();
                push_signed(&mut reason, code);
                self.lifecycle = VmLifecycle::Halted(reason);
                perform_if(&mut out, self.waiting, ServiceAction::AnswerWait(None));
                self.waiting = false;
                self.left = true;
                perform(&mut out, ServiceAction::Leave);
            },
            VmControllerEvent::WorkerStopped { error } => {
                let status = match error {
                    Some(error) => {
                        let mut message = "VM worker stopped: ".to_owned();
                        push_text(&mut message, error.as_str());
                        Status { code: StatusCode::Unknown, message }
                    },
                    None => plain_status("VM worker stopped"),
                };
                perform_if(&mut out, self.waiting, ServiceAction::AnswerWait(Some(status)));
                self.waiting = false;
                self.vm = None;
                self.controller = false;
                self.lifecycle = VmLifecycle::Uninitialized;
                perform(&mut out, ServiceAction::DropDevices);
                perform(&mut out, ServiceAction::DropController);
            },
            VmControllerEvent::VncWorkerStopped { .. } => {},
        }
        assert(effects(out@) =~= after_event(old(self)@, event).1);
        out
    }

    /// Takes in that the controller sends no more events.
    pub fn events_closed(&mut self)
        ensures
            final(self)@ == (ServiceState { events: false, ..old(self)@ }),
    {
        self.events = false;
    }

    /// Takes in that the waiting client went away.
    pub fn wait_cancelled(&mut self, reason: Failure) -> (actions: Vec<ServiceAction>)
        ensures
            (final(self)@, effects(actions@)) == after_wait_cancelled(old(self)@, reason),
    {
        let mut out: Vec<ServiceAction> = Vec::new();
        let status = grpc_error(reason);
        perform_if(&mut out, self.waiting, ServiceAction::AnswerWait(Some(status)));
        self.waiting = false;
        assert(effects(out@) =~= after_wait_cancelled(old(self)@, reason).1);
        out
    }

    /// Ends the service, whether it was told to end or has no more clients.
    pub fn shut_down(&mut self) -> (actions: Vec<ServiceAction>)
        ensures
            (final(self)@, effects(actions@)) == after_loop(old(self)@),
    {
        let mut out: Vec<ServiceAction> = Vec::new();
        let told = !self.left && self.controller;
        perform_if(&mut out, told, ServiceAction::SendQuit);
        if told {
            self.controller = false;
        }
        perform_if(&mut out, self.task, ServiceAction::JoinController);
        self.task = false;
        perform_if(
            &mut out,
            self.waiting,
            ServiceAction::AnswerWait(Some(plain_status("server shutting down"))),
        );
        self.waiting = false;
        perform(&mut out, ServiceAction::JoinRequests);
        perform_if(&mut out, self.vm.is_some(), ServiceAction::DropDevices);
        self.vm = None;
        perform(&mut out, ServiceAction::CloseServer);
        assert(effects(out@) =~= after_loop(old(self)@).1);
        out
    }

    /// What a client is told of the virtual machine.
    pub fn build_properties(&self) -> (r: PropertiesVmResponse)
        ensures
            match self@.lifecycle {
                Lifecycle::Uninitialized => r.state == VmState::Uninitialized && r.halt_reason
                    is None,
                Lifecycle::Running => r.state == VmState::Running && r.halt_reason is None,
                Lifecycle::Paused => r.state == VmState::Paused && r.halt_reason is None,
                Lifecycle::Halted(reason) => r.state == VmState::Halted && r.halt_reason is Some
                    && r.halt_reason->0@ == reason,
            },
    {
        match &self.lifecycle {
            VmLifecycle::Uninitialized => PropertiesVmResponse {
                state: VmState::Uninitialized,
                halt_reason: None,
            },
            VmLifecycle::Running => PropertiesVmResponse {
                state: VmState::Running,
                halt_reason: None,
            },
            VmLifecycle::Paused => PropertiesVmResponse {
                state: VmState::Paused,
                halt_reason: None,
            },
            VmLifecycle::Halted(reason) => PropertiesVmResponse {
                state: VmState::Halted,
                halt_reason: Some(reason.as_str().to_owned()),
            },
        }
    }
}

/// A kind of device that can be changed while the virtual machine runs.
#[derive(Clone, Copy, Debug, PartialEq, Eq, Structural)]
pub enum ResourceKind {
    Scsi,
    Vpci,
    VmNic,
}

/// How a kind of device can be changed.
#[derive(Clone, Copy, Debug, PartialEq, Eq, Structural)]
pub struct SupportedResource {
    pub resource: ResourceKind,
    pub add: bool,
    pub remove: bool,
    pub update: bool,
}

/// The devices that clients are told they can change. The one supported guest
/// system is Linux.
pub fn build_capabilities() -> (r: [SupportedResource; 3])
    ensures
        r@ == seq![
            SupportedResource {
                resource: ResourceKind::Scsi,
                add: true,
                remove: true,
                update: false,
            },
            SupportedResource {
                resource: ResourceKind::Vpci,
                add: true,
                remove: true,
                update: false,
            },
            SupportedResource {
                resource: ResourceKind::VmNic,
                add: true,
                remove: true,
                update: true,
            },
        ],
{
    let r = [
        SupportedResource { resource: ResourceKind::Scsi, add: true, remove: true, update: false },
        SupportedResource { resource: ResourceKind::Vpci, add: true, remove: true, update: false },
        SupportedResource { resource: ResourceKind::VmNic, add: true, remove: true, update: true },
    ];
    assert(r@ =~= seq![r[0], r[1], r[2]]);
    r
}

/// The numbers that a client writes for each way of changing a device.
#[derive(Clone, Copy, Debug, PartialEq, Eq, Structural)]
pub struct ModifyCodes {
    pub add: i32,
    pub remove: i32,
    pub update: i32,
}

/// A device that a client asks to change.
#[derive(Debug)]
pub enum ModifiedResource {
    ScsiDisk { controller: u32, lun: u32 },
    NicConfig(NicRequest),
    VpmemDisk,
    WindowsDevice,
    Processor,
    ProcessorConfig,
    Memory,
}

/// How a device is changed.
#[derive(Debug)]
pub enum ModifyPlan {
    AddDisk { lun: u8 },
    RemoveDisk { lun: u8 },
    AddNic(NicPlan),
    /// Binds each port in turn, up to the first that fails.
    BindPorts(Vec<PortRequest>),
    /// Unbinds each port in turn, up to the first that fails.
    UnbindPorts(Vec<PortRequest>),
}

/// Why a change of a disk is refused, if it is.
pub open spec fn disk_change_refusal(
    vm: VmChannels,
    kind: i32,
    codes: ModifyCodes,
    controller: u32,
    lun: u32,
) -> Option<Seq<char>> {
    if lun > 255 {
        Some("lun value out of range"@)
    } else if kind == codes.add {
        if controller != 0 {
            Some("controller must be 0"@)
        } else if !vm.scsi {
            Some("no scsi controller"@)
        } else {
            None
        }
    } else if kind == codes.remove {
        if !vm.scsi {
            Some("no scsi controller"@)
        } else {
            None
        }
    } else {
        Some("unsupported request type "@ + signed_decimal(kind))
    }
}

/// Why a change of forwarded ports is refused, if it is.
pub open spec fn port_change_refusal(
    vm: VmChannels,
    nic: NicRequest,
    other_backend: Seq<char>,
) -> Option<Seq<char>> {
    match nic.backend {
        None => Some("missing backend"@),
        Some(NicBackend::Consomme { .. }) => if !vm.consomme {
            Some("no consomme port channel"@)
        } else {
            None
        },
        Some(_) => Some(other_backend),
    }
}

/// Why a change of a network device is refused, if it is.
pub open spec fn nic_change_refusal(
    vm: VmChannels,
    kind: i32,
    codes: ModifyCodes,
    nic: NicRequest,
    host: HostOs,
) -> Option<Seq<char>> {
    if kind == codes.add {
        if nic.backend matches Some(NicBackend::Consomme { .. }) {
            Some(
                "adding a consomme NIC via ModifyResource is not supported; configure it at VM creation time"@,
            )
        } else {
            nic_refusal(nic, host)
        }
    } else if kind == codes.update {
        port_change_refusal(vm, nic, "port update only supported for consomme backend"@)
    } else if kind == codes.remove {
        port_change_refusal(vm, nic, "port remove only supported for consomme backend"@)
    } else {
        Some("unsupported NIC modify type "@ + signed_decimal(kind))
    }
}

/// Why a change of a device is refused, if it is.
pub open spec fn modify_refusal(
    vm: Option<VmChannels>,
    kind: i32,
    codes: ModifyCodes,
    resource: Option<ModifiedResource>,
    host: HostOs,
) -> Option<Seq<char>> {
    match (vm, resource) {
        (None, _) => Some("VM not created yet"@),
        (Some(_), None) => Some("missing resource"@),
        (
            Some(vm),
            Some(ModifiedResource::ScsiDisk { controller, lun }),
        ) => disk_change_refusal(vm, kind, codes, controller, lun),
        (Some(vm), Some(ModifiedResource::NicConfig(nic))) => nic_change_refusal(
            vm,
            kind,
            codes,
            nic,
            host,
        ),
        (Some(_), Some(ModifiedResource::VpmemDisk)) => Some("vpmem not supported"@),
        (Some(_), Some(ModifiedResource::WindowsDevice)) => Some(
            "device assignment not supported"@,
        ),
        (Some(_), Some(_)) => Some("processor and memory resources not supported"@),
    }
}

/// The plan is the one that a request describes.
pub open spec fn is_modify_plan(
    plan: ModifyPlan,
    kind: i32,
    codes: ModifyCodes,
    resource: ModifiedResource,
) -> bool {
    match resource {
        ModifiedResource::ScsiDisk { lun, .. } => if kind == codes.add {
            plan == ModifyPlan::AddDisk { lun: lun as u8 }
        } else {
            plan == ModifyPlan::RemoveDisk { lun: lun as u8 }
        },
        ModifiedResource::NicConfig(nic) => if kind == codes.add {
            &&& plan is AddNic
            &&& nic.nic_id == Some(plan->AddNic_0.instance_id)
            &&& nic.mac_address == Some(plan->AddNic_0.mac_address)
            &&& nic.backend is Some && is_endpoint(plan->AddNic_0.endpoint, nic.backend->0)
        } else if kind == codes.update {
            plan == ModifyPlan::BindPorts(nic.backend->0->Consomme_ports)
        } else {
            plan == ModifyPlan::UnbindPorts(nic.backend->0->Consomme_ports)
        },
        _ => false,
    }
}

fn refuse_kind(before: &str, kind: i32) -> (r: Refusal)
    ensures
        r@ == before@ + signed_decimal(kind),
{
    let mut message = before.to_owned();
    push_signed(&mut message, kind);
    Refusal { message }
}

fn modify_disk(vm: VmChannels, kind: i32, codes: ModifyCodes, controller: u32, lun: u32) -> (r:
    Result<ModifyPlan, Refusal>)
    ensures
        refusal_of(r) == disk_change_refusal(vm, kind, codes, controller, lun),
        r is Ok ==> is_modify_plan(
            r->Ok_0,
            kind,
            codes,
            ModifiedResource::ScsiDisk { controller, lun },
        ),
{
    if lun > 255 {
        return Err(refuse("lun value out of range"));
    }
    if kind == codes.add {
        if controller != 0 {
            return Err(refuse("controller must be 0"));
        }
        if !vm.scsi {
            return Err(refuse("no scsi controller"));
        }
        Ok(ModifyPlan::AddDisk { lun: lun as u8 })
    } else if kind == codes.remove {
        if !vm.scsi {
            return Err(refuse("no scsi controller"));
        }
        Ok(ModifyPlan::RemoveDisk { lun: lun as u8 })
    } else {
        Err(refuse_kind("unsupported request type ", kind))
    }
}

fn changed_ports(vm: VmChannels, nic: NicRequest, other_backend: &str) -> (r: Result<
    Vec<PortRequest>,
    Refusal,
>)
    ensures
        refusal_of(r) == port_change_refusal(vm, nic, other_backend@),
        r is Ok ==> r->Ok_0 == nic.backend->0->Consomme_ports,
{
    match nic.backend {
        None => Err(refuse("missing backend")),
        Some(NicBackend::Consomme { ports, .. }) => if vm.consomme {
            Ok(ports)
        } else {
            Err(refuse("no consomme port channel"))
        },
        Some(_) => Err(refuse(other_backend)),
    }
}

fn modify_nic(vm: VmChannels, kind: i32, codes: ModifyCodes, nic: NicRequest, host: HostOs) -> (r:
    Result<ModifyPlan, Refusal>)
    ensures
        refusal_of(r) == nic_change_refusal(vm, kind, codes, nic, host),
        r is Ok ==> is_modify_plan(r->Ok_0, kind, codes, ModifiedResource::NicConfig(nic)),
{
    if kind == codes.add {
        match &nic.backend {
            Some(NicBackend::Consomme { .. }) => {
                return Err(
                    refuse(
                        "adding a consomme NIC via ModifyResource is not supported; configure it at VM creation time",
                    ),
                );
            },
            _ => {},
        }
        match parse_nic_config(nic, host) {
            Ok(plan) => Ok(ModifyPlan::AddNic(plan)),
            Err(e) => Err(e),
        }
    } else if kind == codes.update {
        match changed_ports(vm, nic, "port update only supported for consomme backend") {
            Ok(ports) => Ok(ModifyPlan::BindPorts(ports)),
            Err(e) => Err(e),
        }
    } else if kind == codes.remove {
        match changed_ports(vm, nic, "port remove only supported for consomme backend") {
            Ok(ports) => Ok(ModifyPlan::UnbindPorts(ports)),
            Err(e) => Err(e),
        }
    } else {
        Err(refuse_kind("unsupported NIC modify type ", kind))
    }
}

impl VmService {
    /// Decides how a device of the virtual machine is changed.
    pub fn modify_resource(
        &self,
        kind: i32,
        codes: ModifyCodes,
        resource: Option<ModifiedResource>,
        host: HostOs,
    ) -> (r: Result<ModifyPlan, Refusal>)
        ensures
            refusal_of(r) == modify_refusal(self@.vm, kind, codes, resource, host),
            r is Ok ==> resource is Some && is_modify_plan(r->Ok_0, kind, codes, resource->0),
    {
        let vm = match self.vm {
            Some(vm) => vm,
            None => return Err(refuse("VM not created yet")),
        };
        let resource = match resource {
            Some(resource) => resource,
            None => return Err(refuse("missing resource")),
        };
        match resource {
            ModifiedResource::ScsiDisk { controller, lun } => modify_disk(
                vm,
                kind,
                codes,
                controller,
                lun,
            ),
            ModifiedResource::NicConfig(nic) => modify_nic(vm, kind, codes, nic, host),
            ModifiedResource::VpmemDisk => Err(refuse("vpmem not supported")),
            ModifiedResource::WindowsDevice => Err(refuse("device assignment not supported")),
            ModifiedResource::Processor | ModifiedResource::ProcessorConfig
            | ModifiedResource::Memory => Err(
                refuse("processor and memory resources not supported"),
            ),
        }
    }

    /// Checks that a device may be added to a PCIe port.
    pub fn add_pcie_device(&self, has_device: bool) -> (r: Result<(), Refusal>)
        ensures
            refusal_of(r) == (if self@.vm is None {
                Some("VM not created yet"@)
            } else if !has_device {
                Some("missing device"@)
            } else {
                None
            }),
    {
        if self.vm.is_none() {
            return Err(refuse("VM not created yet"));
        }
        if !has_device {
            return Err(refuse("missing device"));
        }
        Ok(())
    }

    /// Checks that a device may be removed from a PCIe port.
    pub fn remove_pcie_device(&self) -> (r: Result<(), Refusal>)
        ensures
            refusal_of(r) == (if self@.vm is None {
                Some("VM not created yet"@)
            } else {
                None
            }),
    {
        if self.vm.is_none() {
            return Err(refuse("VM not created yet"));
        }
        Ok(())
    }
}

} // verus!
