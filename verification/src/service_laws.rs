//! What holds of every state of the management service and of every message.

use vstd::prelude::*;

use crate::config::HostOs;
use crate::controller::VmControllerEvent;
use crate::refusal::Refusal;
use crate::service::{
    after_creation, after_event, after_loop, after_pause, after_request, after_resume,
    after_wait_cancelled, answer_of, build_capabilities, grpc_error, map_grpc, only_if,
    plain_answer, Effect, Failure, Lifecycle, ModifiedResource, ModifyCodes, ModifyPlan,
    PropertiesVmResponse, RootCause, ServiceState, Status, StatusCode, SupportedResource,
    VmChannels, VmRequest, VmService,
};

verus! {

/// A message that the service takes in.
pub enum Message {
    Request(VmRequest),
    Created(Result<VmChannels, Failure>),
    Paused(Result<(), Failure>),
    Resumed(Result<bool, Failure>),
    Event(VmControllerEvent),
    EventsClosed,
    WaitCancelled(Failure),
    LoopEnded,
}

/// What a message does.
pub open spec fn step(s: ServiceState, message: Message) -> (ServiceState, Seq<Effect>) {
    match message {
        Message::Request(request) => after_request(s, request),
        Message::Created(outcome) => after_creation(s, outcome),
        Message::Paused(outcome) => after_pause(s, outcome),
        Message::Resumed(outcome) => after_resume(s, outcome),
        Message::Event(event) => after_event(s, event),
        Message::EventsClosed => (ServiceState { events: false, ..s }, Seq::empty()),
        Message::WaitCancelled(reason) => after_wait_cancelled(s, reason),
        Message::LoopEnded => after_loop(s),
    }
}

/// How many of some actions answer the waiting client.
pub open spec fn wait_answers(effects: Seq<Effect>) -> nat
    decreases effects.len(),
{
    if effects.len() == 0 {
        0
    } else {
        wait_answers(effects.drop_last()) + if effects.last() is AnswerWait {
            1nat
        } else {
            0nat
        }
    }
}

/// The action answers a request at once.
pub open spec fn is_reply(effect: Effect) -> bool {
    effect is Reply || effect is ReplyCapabilities || effect is ReplyProperties
}

/// The action starts something that answers a request later.
pub open spec fn is_deferred(effect: Effect) -> bool {
    effect is Create || effect is PauseWorker || effect is ResumeWorker
}

/// How many of some actions answer a request, at once or later.
pub open spec fn replies(effects: Seq<Effect>) -> nat
    decreases effects.len(),
{
    if effects.len() == 0 {
        0
    } else {
        replies(effects.drop_last()) + if is_reply(effects.last()) || is_deferred(
            effects.last(),
        ) {
            1nat
        } else {
            0nat
        }
    }
}

proof fn lemma_counts_concat(a: Seq<Effect>, b: Seq<Effect>)
    ensures
        wait_answers(a + b) == wait_answers(a) + wait_answers(b),
        replies(a + b) == replies(a) + replies(b),
    decreases b.len(),
{
    if b.len() == 0 {
        assert(a + b =~= a);
    } else {
        lemma_counts_concat(a, b.drop_last());
        assert((a + b).drop_last() =~= a + b.drop_last());
    }
}

proof fn lemma_counts_one(e: Effect)
    ensures
        wait_answers(seq![e]) == (if e is AnswerWait {
            1nat
        } else {
            0nat
        }),
        replies(seq![e]) == (if is_reply(e) || is_deferred(e) {
            1nat
        } else {
            0nat
        }),
        wait_answers(Seq::empty()) == 0,
        replies(Seq::empty()) == 0,
{
    reveal_with_fuel(wait_answers, 2);
    reveal_with_fuel(replies, 2);
    assert(seq![e].drop_last() =~= Seq::empty());
}

proof fn lemma_counts_two(e: Effect, f: Effect)
    ensures
        wait_answers(seq![e, f]) == wait_answers(seq![e]) + wait_answers(seq![f]),
        replies(seq![e, f]) == replies(seq![e]) + replies(seq![f]),
{
    assert(seq![e, f] =~= seq![e] + seq![f]);
    lemma_counts_concat(seq![e], seq![f]);
}

/// The client is kept waiting.
pub open spec fn keeps_waiting(s: ServiceState, message: Message) -> bool {
    message == Message::Request(VmRequest::WaitVm) && step(s, message).1.len() == 0
}

proof fn lemma_teardown_counts(s: ServiceState)
    ensures
        wait_answers(after_request(s, VmRequest::TeardownVm).1) == (if s.controller && s.waiting {
            1nat
        } else {
            0nat
        }),
        replies(after_request(s, VmRequest::TeardownVm).1) == 1,
{
    let e = after_request(s, VmRequest::TeardownVm).1;
    if !s.controller {
        lemma_counts_one(e[0]);
        assert(e =~= seq![e[0]]);
    } else {
        let a = seq![Effect::DropDevices, Effect::SendQuit];
        let b = only_if(s.task, Effect::JoinController);
        let c = seq![Effect::CloseEvents];
        let answer = Effect::AnswerWait(
            Some(plain_answer("VM torn down"@)),
        );
        let d = only_if(s.waiting, answer);
        let f = seq![Effect::Reply(None)];
        lemma_counts_two(Effect::DropDevices, Effect::SendQuit);
        lemma_counts_one(Effect::DropDevices);
        lemma_counts_one(Effect::SendQuit);
        lemma_counts_one(Effect::JoinController);
        lemma_counts_one(Effect::CloseEvents);
        lemma_counts_one(answer);
        lemma_counts_one(Effect::Reply(None));
        lemma_counts_concat(a, b);
        lemma_counts_concat(a + b, c);
        lemma_counts_concat(a + b + c, d);
        lemma_counts_concat(a + b + c + d, f);
    }
}

proof fn lemma_quit_counts(s: ServiceState)
    ensures
        wait_answers(after_request(s, VmRequest::Quit).1) == (if s.waiting {
            1nat
        } else {
            0nat
        }),
        replies(after_request(s, VmRequest::Quit).1) == 1,
{
    let a = seq![Effect::DropDevices];
    let b = only_if(s.controller, Effect::SendQuit);
    let c = only_if(s.task, Effect::JoinController);
    let d = seq![Effect::CloseEvents];
    let answer = Effect::AnswerWait(Some(plain_answer("VM quit"@)));
    let e = only_if(s.waiting, answer);
    let f = seq![Effect::Reply(None), Effect::Leave];
    lemma_counts_two(Effect::Reply(None), Effect::Leave);
    lemma_counts_one(Effect::DropDevices);
    lemma_counts_one(Effect::SendQuit);
    lemma_counts_one(Effect::JoinController);
    lemma_counts_one(Effect::CloseEvents);
    lemma_counts_one(answer);
    lemma_counts_one(Effect::Reply(None));
    lemma_counts_one(Effect::Leave);
    lemma_counts_concat(a, b);
    lemma_counts_concat(a + b, c);
    lemma_counts_concat(a + b + c, d);
    lemma_counts_concat(a + b + c + d, e);
    lemma_counts_concat(a + b + c + d + e, f);
}

proof fn lemma_loop_counts(s: ServiceState)
    ensures
        wait_answers(after_loop(s).1) == (if s.waiting {
            1nat
        } else {
            0nat
        }),
{
    let a = only_if(!s.left && s.controller, Effect::SendQuit);
    let b = only_if(s.task, Effect::JoinController);
    let answer = Effect::AnswerWait(
        Some(plain_answer("server shutting down"@)),
    );
    let c = only_if(s.waiting, answer);
    let d = seq![Effect::JoinRequests];
    let e = only_if(s.vm is Some, Effect::DropDevices);
    let f = seq![Effect::CloseServer];
    lemma_counts_one(Effect::SendQuit);
    lemma_counts_one(Effect::JoinController);
    lemma_counts_one(answer);
    lemma_counts_one(Effect::JoinRequests);
    lemma_counts_one(Effect::DropDevices);
    lemma_counts_one(Effect::CloseServer);
    lemma_counts_concat(a, b);
    lemma_counts_concat(a + b, c);
    lemma_counts_concat(a + b + c, d);
    lemma_counts_concat(a + b + c + d, e);
    lemma_counts_concat(a + b + c + d + e, f);
}

proof fn lemma_event_counts(s: ServiceState, event: VmControllerEvent)
    ensures
        wait_answers(after_event(s, event).1) == (if s.waiting && !(event is VncWorkerStopped) {
            1nat
        } else {
            0nat
        }),
{
    match event {
        VmControllerEvent::GuestHalt(_) => {
            lemma_counts_one(Effect::AnswerWait(None));
        },
        VmControllerEvent::ExitRequested { .. } => {
            lemma_counts_one(Effect::AnswerWait(None));
            lemma_counts_one(Effect::Leave);
            lemma_counts_concat(
                only_if(s.waiting, Effect::AnswerWait(None)),
                seq![Effect::Leave],
            );
        },
        VmControllerEvent::WorkerStopped { error } => {
            let answer = Effect::AnswerWait(
                Some(
                    plain_answer(
                        match error {
                            Some(error) => "VM worker stopped: "@ + error@,
                            None => "VM worker stopped"@,
                        },
                    ),
                ),
            );
            let rest = seq![Effect::DropDevices, Effect::DropController];
            lemma_counts_one(answer);
            lemma_counts_one(Effect::DropDevices);
            lemma_counts_one(Effect::DropController);
            lemma_counts_two(Effect::DropDevices, Effect::DropController);
            lemma_counts_concat(only_if(s.waiting, answer), rest);
        },
        VmControllerEvent::VncWorkerStopped { .. } => {
            lemma_counts_one(Effect::Leave);
        },
    }
}

/// A client that waits is answered exactly once: a message either leaves it
/// waiting and sends it nothing, or answers it once and it waits no longer. Only
/// a wait that is taken in makes a client wait.
pub proof fn law_wait_is_answered_once(s: ServiceState, message: Message)
    ensures
        wait_answers(step(s, message).1) + (if step(s, message).0.waiting {
            1nat
        } else {
            0nat
        }) == (if s.waiting {
            1nat
        } else {
            0nat
        }) + (if keeps_waiting(s, message) {
            1nat
        } else {
            0nat
        }),
{
    let e = step(s, message).1;
    match message {
        Message::Request(VmRequest::TeardownVm) => lemma_teardown_counts(s),
        Message::Request(VmRequest::Quit) => lemma_quit_counts(s),
        Message::LoopEnded => lemma_loop_counts(s),
        Message::Event(event) => lemma_event_counts(s, event),
        Message::WaitCancelled(reason) => {
            lemma_counts_one(
                Effect::AnswerWait(Some(answer_of(reason))),
            );
        },
        _ => {
            lemma_counts_one(Effect::Leave);
            if e.len() > 0 {
                assert(e =~= seq![e[0]]);
                lemma_counts_one(e[0]);
            } else {
                assert(e =~= Seq::empty());
            }
        },
    }
}

/// Every request is answered exactly once, now or by the operation it starts,
/// unless its client is kept waiting.
pub proof fn law_requests_are_answered_once(s: ServiceState, request: VmRequest)
    ensures
        replies(after_request(s, request).1) + (if keeps_waiting(s, Message::Request(request)) {
            1nat
        } else {
            0nat
        }) == 1,
{
    let e = after_request(s, request).1;
    match request {
        VmRequest::TeardownVm => lemma_teardown_counts(s),
        VmRequest::Quit => lemma_quit_counts(s),
        _ => {
            lemma_counts_one(Effect::Leave);
            if e.len() > 0 {
                assert(e =~= seq![e[0]]);
                lemma_counts_one(e[0]);
            } else {
                assert(e =~= Seq::empty());
            }
        },
    }
}

/// A virtual machine always has its controller.
pub proof fn law_vm_has_its_controller(s: ServiceState, message: Message)
    requires
        s.wf(),
    ensures
        step(s, message).0.wf(),
{
}

/// Once the guest has halted, neither a pause nor a resume makes the service
/// report anything else.
pub proof fn law_halt_outlasts_pause_and_resume(s: ServiceState, message: Message)
    requires
        s.lifecycle is Halted,
        message is Paused || message is Resumed,
    ensures
        step(s, message).0.lifecycle == s.lifecycle,
{
}

/// After a teardown that is carried out the service is as it was at its start,
/// unless it was told to end.
pub proof fn law_teardown_starts_over(s: ServiceState)
    requires
        s.controller,
    ensures
        after_request(s, VmRequest::TeardownVm).0 == (ServiceState {
            left: s.left,
            ..ServiceState::initial()
        }),
{
}

/// A service is left with no client waiting and no virtual machine.
pub proof fn law_nothing_outlives_the_service(s: ServiceState)
    ensures
        !after_loop(s).0.waiting,
        !after_loop(s).0.task,
        after_loop(s).0.vm is None,
{
}

/// The message tells the service to end.
pub open spec fn tells_to_leave(message: Message) -> bool {
    message == Message::Request(VmRequest::Quit) || (message matches Message::Event(event) && event
        is ExitRequested)
}

/// The service leaves its loop exactly where a client asks it to quit or the guest
/// asks to exit, and remembers that it did.
pub proof fn law_service_leaves_when_told(s: ServiceState, message: Message)
    ensures
        step(s, message).1.contains(Effect::Leave) <==> tells_to_leave(message),
        step(s, message).0.left == (s.left || tells_to_leave(message)),
{
    let e = step(s, message).1;
    if tells_to_leave(message) {
        assert(e.last() == Effect::Leave);
        assert(e[e.len() - 1] == Effect::Leave);
    } else {
        assert forall|i: int| 0 <= i < e.len() implies e[i] != Effect::Leave by {
        }
    }
}

/// A service that was told to end sends no quit when it ends: a client's quit was
/// passed on before, and a guest that exits ends its own controller. Otherwise a
/// controller that is still there is told, once.
pub proof fn law_quit_is_sent_once(s: ServiceState, message: Message)
    ensures
        s.left ==> !after_loop(s).1.contains(Effect::SendQuit),
        !s.left && s.controller ==> after_loop(s).1[0] == Effect::SendQuit,
        !s.controller ==> !after_loop(s).1.contains(Effect::SendQuit),
        tells_to_leave(message) ==> !after_loop(step(s, message).0).1.contains(
            Effect::SendQuit,
        ),
{
    let next = step(s, message).0;
    assert forall|t: ServiceState, i: int|
        (t.left || !t.controller) && 0 <= i < after_loop(t).1.len() implies #[trigger] after_loop(
        t,
    ).1[i] != Effect::SendQuit by {
    }
    assert(s.left || !s.controller ==> !after_loop(s).1.contains(Effect::SendQuit));
    assert(next.left ==> !after_loop(next).1.contains(Effect::SendQuit));
}

/// Where a request waits for the controller, the device channels were dropped
/// before, and a controller that was there was told to quit before.
pub proof fn law_channels_go_before_the_wait(s: ServiceState, request: VmRequest, at: int)
    requires
        0 <= at < after_request(s, request).1.len(),
        after_request(s, request).1[at] == Effect::JoinController,
    ensures
        exists|i: int| 0 <= i < at && after_request(s, request).1[i] == Effect::DropDevices,
        s.controller ==> exists|i: int|
            0 <= i < at && after_request(s, request).1[i] == Effect::SendQuit,
{
    let e = after_request(s, request).1;
    assert(e[0] == Effect::DropDevices);
    if s.controller {
        assert(e[1] == Effect::SendQuit);
    }
}

/// A request that works on the machine is turned down where there is none, and does
/// nothing else then; with a machine it is passed on to the worker. A second machine
/// is turned down.
pub proof fn law_requests_need_a_machine(s: ServiceState, request: VmRequest)
    ensures
        request is PauseVm || request is ResumeVm || request is WaitVm || request is CreateVm
            || request is PropertiesVm || request is CapabilitiesVm ==> {
            let (next, effects) = after_request(s, request);
            &&& next.vm == s.vm && next.controller == s.controller && next.task == s.task
                && next.events == s.events && next.lifecycle == s.lifecycle
            &&& effects.len() <= 1
            &&& !(request is WaitVm) ==> next == s && effects.len() == 1
            &&& (request is PauseVm || request is ResumeVm || request is WaitVm) && s.vm is None
                ==> next == s && is_refusal(effects)
            &&& request is CreateVm && s.vm is Some ==> is_refusal(effects)
            &&& request is PauseVm && s.vm is Some ==> effects[0] == Effect::PauseWorker
            &&& request is ResumeVm && s.vm is Some ==> effects[0] == Effect::ResumeWorker
            &&& request is CreateVm && s.vm is None ==> effects[0] == Effect::Create
            &&& request is PropertiesVm ==> effects[0] == Effect::ReplyProperties
            &&& request is CapabilitiesVm ==> effects[0] == Effect::ReplyCapabilities
        },
{
}

/// The only answer is a failure.
pub open spec fn is_refusal(effects: Seq<Effect>) -> bool {
    effects.len() == 1 && effects[0] is Reply && effects[0]->Reply_0 is Some
}

/// The only answer is a success.
pub open spec fn is_success(effects: Seq<Effect>) -> bool {
    effects.len() == 1 && effects[0] is Reply && effects[0]->Reply_0 is None
}

/// A client that waits for the machine is answered at once where the guest has already
/// halted, is turned down where another client waits, and is kept waiting otherwise.
pub proof fn law_waiting_for_the_guest(s: ServiceState)
    requires
        s.vm is Some,
    ensures
        ({
            let (next, effects) = after_request(s, VmRequest::WaitVm);
            &&& s.waiting ==> next == s && is_refusal(effects)
            &&& !s.waiting && s.lifecycle is Halted ==> next == s && is_success(effects)
            &&& !s.waiting && !(s.lifecycle is Halted) ==> next.waiting && effects.len() == 0
        }),
{
}

/// A machine that was created is paused, with its controller and the channels that it
/// came with; one that could not be created leaves everything as it was, and its
/// client is told why.
pub proof fn law_created_machine_is_paused(
    s: ServiceState,
    channels: VmChannels,
    failure: Failure,
)
    ensures
        ({
            let (next, effects) = after_creation(s, Ok(channels));
            &&& next.vm == Some(channels) && next.lifecycle is Paused
            &&& next.controller && next.events && next.task
            &&& next.waiting == s.waiting && next.left == s.left
            &&& is_success(effects)
        }),
        ({
            let (next, effects) = after_creation(s, Err(failure));
            &&& next == s && is_refusal(effects)
            &&& (effects[0]->Reply_0->0).message == failure.message@
        }),
{
}

/// A pause that succeeds leaves the machine paused and a resume that succeeds leaves it
/// running, unless its guest has halted; one that fails, or a worker that did not
/// resume, changes nothing, and the client is told.
pub proof fn law_pause_and_resume(s: ServiceState, failure: Failure)
    ensures
        ({
            let (next, effects) = after_pause(s, Ok(()));
            &&& is_success(effects)
            &&& !(s.lifecycle is Halted) ==> next.lifecycle is Paused
            &&& next.vm == s.vm && next.waiting == s.waiting && next.controller == s.controller
        }),
        ({
            let (next, effects) = after_resume(s, Ok(true));
            &&& is_success(effects)
            &&& !(s.lifecycle is Halted) ==> next.lifecycle is Running
            &&& next.vm == s.vm && next.waiting == s.waiting && next.controller == s.controller
        }),
        ({
            let (next, effects) = after_resume(s, Ok(false));
            next == s && is_refusal(effects)
        }),
        ({
            let (next, effects) = after_pause(s, Err(failure));
            &&& next == s && is_refusal(effects)
            &&& (effects[0]->Reply_0->0).message == "pause failed: "@ + failure.message@
        }),
        ({
            let (next, effects) = after_resume(s, Err(failure));
            &&& next == s && is_refusal(effects)
            &&& (effects[0]->Reply_0->0).message == "resume failed: "@ + failure.message@
        }),
{
}

/// A guest that halts is reported as halted for its own reason, and the waiting client is
/// told of success; the machine stays. A guest that exits also ends the service. A
/// worker that stops takes the machine with it: its channels and its controller are
/// dropped, and the waiting client is told of a failure. The VNC worker is no concern.
pub proof fn law_events_of_the_machine(
    s: ServiceState,
    reason: String,
    code: i32,
    error: Option<String>,
)
    ensures
        ({
            let (next, effects) = after_event(
                s,
                VmControllerEvent::GuestHalt(reason),
            );
            &&& next.lifecycle == Lifecycle::Halted(reason@)
            &&& next.vm == s.vm && next.controller == s.controller && next.left == s.left
            &&& effects.contains(Effect::AnswerWait(None)) <==> s.waiting
            &&& effects.len() <= 1
        }),
        ({
            let (next, effects) = after_event(
                s,
                VmControllerEvent::ExitRequested { code },
            );
            &&& next.lifecycle is Halted && next.left && next.vm == s.vm
            &&& effects.contains(Effect::AnswerWait(None)) <==> s.waiting
            &&& effects.last() == Effect::Leave
        }),
        ({
            let (next, effects) = after_event(
                s,
                VmControllerEvent::WorkerStopped { error },
            );
            &&& next.vm is None && !next.controller && next.lifecycle is Uninitialized
            &&& next.task == s.task && next.events == s.events && next.left == s.left
            &&& effects.contains(Effect::DropDevices) && effects.contains(Effect::DropController)
            &&& s.waiting ==> effects[0] is AnswerWait && effects[0]->AnswerWait_0 is Some
            &&& !s.waiting ==> effects.len() == 2
        }),
        ({
            let (next, effects) = after_event(
                s,
                VmControllerEvent::VncWorkerStopped { error },
            );
            next == s && effects.len() == 0
        }),
{
    let halt = after_event(
        s,
        VmControllerEvent::GuestHalt(reason),
    ).1;
    let exit = after_event(
        s,
        VmControllerEvent::ExitRequested { code },
    ).1;
    let stopped = after_event(
        s,
        VmControllerEvent::WorkerStopped { error },
    ).1;
    if s.waiting {
        assert(halt[0] == Effect::AnswerWait(None));
        assert(exit[0] == Effect::AnswerWait(None));
    }
    assert(stopped[stopped.len() - 2] == Effect::DropDevices);
    assert(stopped[stopped.len() - 1] == Effect::DropController);
}

/// What a quit and a teardown do, in their order: the device channels are dropped first;
/// a controller that is there is told to stop, and one that still runs is waited for;
/// its events are closed; a waiting client is told of a failure, and the client of the
/// request itself of success. Only a quit leaves the service. Afterwards nothing of the
/// machine is left.
pub proof fn law_quit_and_teardown_leave_nothing(s: ServiceState, request: VmRequest)
    requires
        request is Quit || request is TeardownVm && s.controller,
    ensures
        ({
            let (next, effects) = after_request(s, request);
            &&& next.vm is None && !next.controller && !next.events && !next.task && !next.waiting
            &&& effects[0] == Effect::DropDevices
            &&& effects.contains(Effect::SendQuit) <==> s.controller
            &&& effects.contains(Effect::JoinController) <==> s.task
            &&& effects.contains(Effect::CloseEvents)
            &&& effects.contains(Effect::Reply(None))
            &&& request is Quit ==> effects.last() == Effect::Leave && next.lifecycle
                == s.lifecycle
            &&& request is TeardownVm ==> effects.last() == Effect::Reply(None) && next.lifecycle
                is Uninitialized
            &&& forall|i: int|
                0 <= i < effects.len() && (#[trigger] effects[i]) is AnswerWait
                    ==> effects[i]->AnswerWait_0 is Some && s.waiting
        }),
{
    let (next, effects) = after_request(s, request);
    let n = effects.len() as int;
    let a = if s.controller {
        1int
    } else {
        0int
    };
    let b = if s.task {
        1int
    } else {
        0int
    };
    if s.controller {
        assert(effects[1] == Effect::SendQuit);
    }
    if s.task {
        assert(effects[1 + a] == Effect::JoinController);
    }
    assert(effects[1 + a + b] == Effect::CloseEvents);
    if request is Quit {
        assert(effects[n - 2] == Effect::Reply(None));
    } else {
        assert(effects[n - 1] == Effect::Reply(None));
    }
}

/// A teardown without a controller is turned down and changes nothing.
pub proof fn law_teardown_needs_a_controller(s: ServiceState)
    requires
        !s.controller,
    ensures
        after_request(s, VmRequest::TeardownVm).0 == s,
        is_refusal(after_request(s, VmRequest::TeardownVm).1),
{
}

/// A client that goes away while it waits is forgotten, and is told the reason that it
/// went away for.
pub proof fn law_gone_client_waits_no_longer(s: ServiceState, reason: Failure)
    ensures
        ({
            let (next, effects) = after_wait_cancelled(s, reason);
            &&& !next.waiting && next.vm == s.vm && next.lifecycle == s.lifecycle && next.left
                == s.left && next.controller == s.controller
            &&& effects.len() == if s.waiting {
                1nat
            } else {
                0nat
            }
            &&& s.waiting ==> effects[0] is AnswerWait && effects[0]->AnswerWait_0 is Some && (
            effects[0]->AnswerWait_0->0).message == reason.message@
        }),
{
}

/// When the service ends, requests that were started are waited for before the devices
/// go and the server closes last; a running controller is waited for, and a waiting
/// client is told of a failure.
pub proof fn law_service_ends_in_order(s: ServiceState)
    ensures
        ({
            let effects = after_loop(s).1;
            &&& effects.last() == Effect::CloseServer
            &&& effects.contains(Effect::JoinRequests)
            &&& effects.contains(Effect::JoinController) <==> s.task
            &&& effects.contains(Effect::DropDevices) <==> s.vm is Some
            &&& s.vm is Some ==> effects[effects.len() - 2] == Effect::DropDevices
                && effects[effects.len() - 3] == Effect::JoinRequests
        }),
{
    let effects = after_loop(s).1;
    let n = effects.len() as int;
    let a = if !s.left && s.controller {
        1int
    } else {
        0int
    };
    if s.task {
        assert(effects[a] == Effect::JoinController);
    }
    if s.vm is Some {
        assert(effects[n - 2] == Effect::DropDevices);
        assert(effects[n - 3] == Effect::JoinRequests);
    } else {
        assert(effects[n - 2] == Effect::JoinRequests);
    }
}

/// A failure is answered with its own text, and with the code of its innermost cause
/// where that has one; what succeeded is handed on.
pub proof fn law_failures_keep_their_code<T>(
    failure: Failure,
    status: Status,
    r: Result<T, Failure>,
    out: Result<T, Status>,
)
    requires
        call_ensures(grpc_error, (failure,), status),
        call_ensures(map_grpc::<T>, (r,), out),
    ensures
        status.message@ == failure.message@,
        failure.root matches RootCause::Code(code) ==> status.code
            == StatusCode::Code(code),
        failure.root is Cancelled <==> status.code is Cancelled,
        failure.root is DeadlineExceeded <==> status.code is DeadlineExceeded,
        failure.root is Other <==> status.code is Unknown,
        r is Ok ==> out is Ok && out->Ok_0 == r->Ok_0,
        r is Err ==> out is Err && out->Err_0.message@ == r->Err_0.message@,
{
    assert(status.message@ == status@.message);
    assert(status.code == status@.code);
    if r is Err {
        assert(out->Err_0.message@ == out->Err_0@.message);
    }
}

/// A client is told what the machine is doing, and why it halted exactly where it did.
pub proof fn law_properties_tell_the_lifecycle(
    service: VmService,
    r: PropertiesVmResponse,
)
    requires
        call_ensures(VmService::build_properties, (&service,), r),
    ensures
        r.state is Uninitialized <==> service.lifecycle is Uninitialized,
        r.state is Running <==> service.lifecycle is Running,
        r.state is Paused <==> service.lifecycle is Paused,
        r.state is Halted <==> service.lifecycle is Halted,
        r.halt_reason is Some <==> service.lifecycle is Halted,
        r.halt_reason is Some ==> r.halt_reason->0@ == service.lifecycle->Halted_0@,
{
}

/// Clients are told that disks, PCI devices and network devices can be added and removed,
/// and that only network devices can be updated.
pub proof fn law_capabilities_are_told(r: [SupportedResource; 3], i: int)
    requires
        call_ensures(build_capabilities, (), r),
        0 <= i < 3,
    ensures
        r@[i].add && r@[i].remove,
        r@[i].update <==> r@[i].resource is VmNic,
        r@[0].resource is Scsi && r@[1].resource is Vpci && r@[2].resource is VmNic,
{
}

/// A device is changed only on a machine that is there. A disk is added to or removed from
/// the one controller, under its own unit; a network device is added as it is asked
/// for, and its ports are bound by an update and unbound by a removal, where the machine
/// translates addresses in user mode. Nothing else can be changed.
pub proof fn law_changes_are_the_requested_ones(
    service: VmService,
    kind: i32,
    codes: ModifyCodes,
    resource: Option<ModifiedResource>,
    host: HostOs,
    r: Result<ModifyPlan, Refusal>,
)
    requires
        call_ensures(
            VmService::modify_resource,
            (&service, kind, codes, resource, host),
            r,
        ),
        codes.add != codes.remove && codes.add != codes.update && codes.remove != codes.update,
    ensures
        r is Ok ==> service.vm is Some && resource is Some && (resource->0 is ScsiDisk
            || resource->0 is NicConfig),
        resource matches Some(ModifiedResource::ScsiDisk { controller, lun }) ==> {
            &&& r is Ok <==> service.vm is Some && service.vm->0.scsi && lun < 256 && (kind
                == codes.remove || kind == codes.add && controller == 0)
            &&& r is Ok && kind == codes.add ==> r->Ok_0 is AddDisk && r->Ok_0->AddDisk_lun == lun
            &&& r is Ok && kind == codes.remove ==> r->Ok_0 is RemoveDisk
                && r->Ok_0->RemoveDisk_lun == lun
        },
        resource matches Some(ModifiedResource::NicConfig(nic)) ==> (r is Ok ==> {
            &&& kind == codes.add <==> r->Ok_0 is AddNic
            &&& kind == codes.update <==> r->Ok_0 is BindPorts
            &&& kind == codes.remove <==> r->Ok_0 is UnbindPorts
            &&& kind == codes.add ==> Some(r->Ok_0->AddNic_0.instance_id) == nic.nic_id && Some(
                r->Ok_0->AddNic_0.mac_address,
            ) == nic.mac_address && !(nic.backend->0 is Consomme)
            &&& kind == codes.add ==> nic.backend is Some && (nic.backend->0 is SwitchPort
                <==> r->Ok_0->AddNic_0.endpoint is SwitchPort) && (nic.backend->0 is Tap
                <==> r->Ok_0->AddNic_0.endpoint is Tap)
            &&& kind == codes.add && nic.backend->0 is SwitchPort ==> Some(
                r->Ok_0->AddNic_0.endpoint->switch,
            ) == nic.backend->0->switch && Some(r->Ok_0->AddNic_0.endpoint->port)
                == nic.backend->0->port
            &&& kind == codes.add && nic.backend->0 is Tap ==> Some(
                r->Ok_0->AddNic_0.endpoint->source,
            ) == nic.backend->0->source
            &&& kind != codes.add ==> service.vm->0.consomme && nic.backend is Some
                && nic.backend->0 is Consomme
            &&& kind == codes.update ==> r->Ok_0->BindPorts_0 == nic.backend->0->Consomme_ports
            &&& kind == codes.remove ==> r->Ok_0->UnbindPorts_0 == nic.backend->0->Consomme_ports
        }),
{
}

/// A PCIe device is added only where there is a machine and a device, and removed only
/// where there is a machine.
pub proof fn law_pcie_changes_need_a_machine(
    service: VmService,
    has_device: bool,
    added: Result<(), Refusal>,
    removed: Result<(), Refusal>,
)
    requires
        call_ensures(
            VmService::add_pcie_device,
            (&service, has_device),
            added,
        ),
        call_ensures(VmService::remove_pcie_device, (&service,), removed),
    ensures
        added is Ok <==> service.vm is Some && has_device,
        removed is Ok <==> service.vm is Some,
{
}

} // verus!
