//! The worker: one dataflow, supervised step by step.
//!
//! The worker never touches the dataflow itself. The host tells it what
//! happened ([`Input`]); it answers with the events to publish and with at
//! most one piece of work for the host to carry out ([`Directive`]). The host
//! carries out the directive first, publishes the events next, and reports
//! what the directive led to as a further input where the directive asks for
//! it.
//!
//! A worker is idle until a launch succeeds, and running from then on until
//! a stop command, the loss of the dataflow or the shutdown makes it idle
//! again. The dataflow is starting while the host carries out
//! [`Directive::Launch`] and stopping while it carries out
//! [`Directive::StopDispatcher`]; the worker takes no input in between, so
//! neither shows in its state. The running flag that the supervisor reads is
//! [`WorkerState::running`]: the host stores it after every step.
//!
//! Time is a count of milliseconds on a clock of the host's choosing that
//! does not run backwards.

use super::command::DoraCommand;
use super::event::{DoraEvent, EventView};
use std::collections::HashMap;
use std::path::PathBuf;
use vstd::prelude::*;
use vstd::string::*;

verus! {

/// Time between two health checks, in milliseconds.
pub const STATUS_CHECK_INTERVAL_MS: u64 = 2_000;

/// Time after a start during which no health check is made, in milliseconds.
pub const STARTUP_GRACE_MS: u64 = 10_000;

/// Pause of the host between two rounds of its loop, in milliseconds.
pub const POLL_INTERVAL_MS: u64 = 10;

/// Which half of bringing a dataflow up went wrong.
#[derive(Debug, Clone, Copy, PartialEq, Eq, Structural)]
pub enum LaunchStage {
    /// The controller could not be created from the dataflow file.
    Controller,
    /// The controller was created but the dataflow did not start.
    Dataflow,
}

/// How an attempt to bring a dataflow up ended.
#[derive(Debug, Clone)]
pub enum LaunchOutcome {
    /// The dataflow runs under `dataflow_id`.
    Started { dataflow_id: String },
    /// The attempt failed at `stage` for `reason`.
    Failed { stage: LaunchStage, reason: String },
}

/// What a status query on the dispatcher returned.
#[derive(Debug, Clone, Copy, PartialEq, Eq, Structural)]
pub enum StatusReport {
    /// The dataflow is running.
    Running,
    /// The dataflow is not running.
    NotRunning,
    /// The query itself failed.
    Unavailable,
}

/// Something that happened and that the worker has to react to.
#[derive(Debug, Clone)]
pub enum Input {
    /// A command was taken from the command queue.
    Command(DoraCommand),
    /// A [`Directive::Launch`] was carried out, and ended at time `now`.
    Launched { outcome: LaunchOutcome, now: u64 },
    /// All queued commands are handled; the clock reads `now`.
    Tick { now: u64 },
    /// A [`Directive::QueryStatus`] was carried out.
    Status(StatusReport),
    /// The supervisor asked the worker to end.
    Shutdown,
}

/// Work that the worker asks its host to carry out.
#[derive(Debug, Clone)]
pub enum Directive {
    /// Set the environment variables, create a dispatcher for the dataflow
    /// file and start it; report the result as [`Input::Launched`]. On
    /// success the new dispatcher replaces the one held so far.
    Launch { dataflow_path: PathBuf, env_vars: HashMap<String, String> },
    /// Stop the dispatcher held and let go of it. Failure is not reported.
    StopDispatcher,
    /// Send `message` as a prompt through the dispatcher held.
    Deliver { message: String },
    /// Ask the dispatcher held whether the dataflow is running; report the
    /// answer as [`Input::Status`].
    QueryStatus,
}

/// The worker's answer to one input.
#[derive(Debug)]
pub struct Reaction {
    /// Work for the host, to be carried out before the events are published.
    pub directive: Option<Directive>,
    /// Events for the user interface, in the order in which they arose.
    pub events: Vec<DoraEvent>,
}

/// What the worker knows, as plain values.
#[derive(Debug, Clone, Copy, PartialEq, Eq, Structural)]
pub struct WorkerState {
    /// A dispatcher is held by the host on the worker's behalf: from a
    /// launch that succeeded until a stop command or the shutdown. There is
    /// never more than one.
    pub dispatcher: bool,
    /// When the running dataflow was started; `None` while none is running.
    /// The running flag is set exactly while this is `Some`.
    pub started_at: Option<u64>,
    /// When the last health check was made.
    pub last_status_check: u64,
    /// The worker has been shut down and reacts to nothing any more.
    pub terminated: bool,
}

/// Milliseconds from `since` to `now` on a clock that does not run backwards;
/// zero where `now` lies before `since`.
pub open spec fn elapsed(now: u64, since: u64) -> int {
    if now >= since {
        now - since
    } else {
        0
    }
}

/// The text of the error event for a launch that failed at `stage`.
pub open spec fn failure_message(stage: LaunchStage, reason: Seq<char>) -> Seq<char> {
    match stage {
        LaunchStage::Controller => "Failed to create controller: "@ + reason,
        LaunchStage::Dataflow => "Failed to start dataflow: "@ + reason,
    }
}

impl WorkerState {
    /// The state of a worker created at time `now`: nothing held, nothing
    /// running.
    pub open spec fn initial(now: u64) -> WorkerState {
        WorkerState { dispatcher: false, started_at: None, last_status_check: now, terminated: false }
    }

    /// The value of the running flag.
    pub open spec fn running(self) -> bool {
        self.started_at is Some
    }

    /// What holds of every state a worker can be in: a running dataflow has
    /// its dispatcher, and a worker that was shut down holds nothing.
    pub open spec fn wf(self) -> bool {
        &&& self.running() ==> self.dispatcher
        &&& self.terminated ==> !self.dispatcher
    }

    /// The dataflow was started less than the grace period ago.
    pub open spec fn in_grace(self, now: u64) -> bool {
        self.started_at matches Some(since) && elapsed(now, since) < STARTUP_GRACE_MS
    }

    /// A health check is due at time `now`.
    pub open spec fn check_due(self, now: u64) -> bool {
        !self.in_grace(now) && elapsed(now, self.last_status_check) >= STATUS_CHECK_INTERVAL_MS
    }

    /// The state after reacting to `input`.
    pub open spec fn next(self, input: Input) -> WorkerState {
        if self.terminated {
            self
        } else {
            match input {
                Input::Command(DoraCommand::StartDataflow { .. }) => self,
                Input::Command(DoraCommand::StopDataflow) => WorkerState {
                    dispatcher: false,
                    started_at: None,
                    ..self
                },
                Input::Command(DoraCommand::SendPrompt { .. }) => self,
                Input::Launched { outcome: LaunchOutcome::Started { .. }, now } => WorkerState {
                    dispatcher: true,
                    started_at: Some(now),
                    ..self
                },
                Input::Launched { outcome: LaunchOutcome::Failed { .. }, .. } => self,
                Input::Tick { now } => if self.check_due(now) {
                    WorkerState { last_status_check: now, ..self }
                } else {
                    self
                },
                Input::Status(report) => if self.running() && report == StatusReport::NotRunning {
                    WorkerState { started_at: None, ..self }
                } else {
                    self
                },
                Input::Shutdown => WorkerState {
                    dispatcher: false,
                    started_at: None,
                    terminated: true,
                    ..self
                },
            }
        }
    }

    /// The events that reacting to `input` gives rise to.
    pub open spec fn emits(self, input: Input) -> Seq<EventView> {
        if self.terminated {
            seq![]
        } else {
            match input {
                Input::Command(DoraCommand::StopDataflow) => seq![EventView::DataflowStopped],
                Input::Launched { outcome: LaunchOutcome::Started { dataflow_id }, .. } => seq![
                    EventView::DataflowStarted { dataflow_id: dataflow_id@ },
                ],
                Input::Launched { outcome: LaunchOutcome::Failed { stage, reason }, .. } => seq![
                    EventView::Error { message: failure_message(stage, reason@) },
                ],
                Input::Status(report) => if self.running() && report == StatusReport::NotRunning {
                    seq![EventView::DataflowStopped]
                } else {
                    seq![]
                },
                _ => seq![],
            }
        }
    }

    /// The work that reacting to `input` leaves to the host.
    pub open spec fn directs(self, input: Input) -> Option<Directive> {
        if self.terminated {
            None
        } else {
            match input {
                Input::Command(DoraCommand::StartDataflow { dataflow_path, env_vars }) => Some(
                    Directive::Launch { dataflow_path, env_vars },
                ),
                Input::Command(DoraCommand::StopDataflow) => if self.dispatcher {
                    Some(Directive::StopDispatcher)
                } else {
                    None
                },
                Input::Command(DoraCommand::SendPrompt { message }) => if self.dispatcher {
                    Some(Directive::Deliver { message })
                } else {
                    None
                },
                Input::Tick { now } => if self.check_due(now) && self.dispatcher {
                    Some(Directive::QueryStatus)
                } else {
                    None
                },
                Input::Shutdown => if self.dispatcher {
                    Some(Directive::StopDispatcher)
                } else {
                    None
                },
                _ => None,
            }
        }
    }
}

/// Whether the input reports a dataflow that came up.
pub open spec fn is_successful_launch(input: Input) -> bool {
    input matches Input::Launched { outcome: LaunchOutcome::Started { .. }, .. }
}

impl WorkerState {
    /// Every reaction keeps the state well formed.
    pub proof fn next_is_well_formed(self, input: Input)
        requires
            self.wf(),
        ensures
            self.next(input).wf(),
    {
    }

    /// Taking a start command off the queue changes nothing yet: the flag
    /// stays as it is until the launch that the command asks for has ended.
    pub proof fn start_command_only_asks_for_a_launch(self, command: DoraCommand)
        requires
            !self.terminated,
            command is StartDataflow,
        ensures
            self.next(Input::Command(command)) == self,
            self.emits(Input::Command(command)) == Seq::<EventView>::empty(),
            self.directs(Input::Command(command)) == Some(
                Directive::Launch {
                    dataflow_path: command->dataflow_path,
                    env_vars: command->env_vars,
                },
            ),
    {
    }

    /// A dataflow that came up is reported by one start event that carries
    /// its identifier, and the running flag is set from then on.
    pub proof fn successful_launch_is_reported_once(self, dataflow_id: String, now: u64)
        requires
            !self.terminated,
        ensures
            ({
                let input = Input::Launched {
                    outcome: LaunchOutcome::Started { dataflow_id },
                    now,
                };
                &&& self.emits(input) == seq![EventView::DataflowStarted { dataflow_id: dataflow_id@ }]
                &&& self.directs(input) is None
                &&& self.next(input).running()
                &&& self.next(input).dispatcher
                &&& self.next(input).started_at == Some(now)
            }),
    {
    }

    /// No input gives rise to more than one event, and a start is reported
    /// for nothing but a dataflow that came up.
    pub proof fn start_is_reported_for_launches_only(self, input: Input)
        ensures
            self.emits(input).len() <= 1,
            self.emits(input).len() == 1 && self.emits(input)[0] is DataflowStarted
                ==> is_successful_launch(input),
    {
    }

    /// A launch that fails is reported by one error event that names the
    /// stage and the reason, and leaves the worker as it was: the running
    /// flag of a worker that was not running stays clear.
    pub proof fn failed_launch_changes_nothing(
        self,
        stage: LaunchStage,
        reason: String,
        now: u64,
    )
        requires
            !self.terminated,
        ensures
            ({
                let input = Input::Launched {
                    outcome: LaunchOutcome::Failed { stage, reason },
                    now,
                };
                &&& self.emits(input) == seq![
                    EventView::Error { message: failure_message(stage, reason@) },
                ]
                &&& self.directs(input) is None
                &&& self.next(input) == self
            }),
    {
    }

    /// A stop command is answered by one stop event and a clear running
    /// flag in every state. The event does not wait for the dispatcher: the
    /// host is asked to stop it where one is held, and nothing that comes of
    /// that reaches the worker.
    pub proof fn stop_is_always_reported(self)
        requires
            !self.terminated,
        ensures
            ({
                let input = Input::Command(DoraCommand::StopDataflow);
                &&& self.emits(input) == seq![EventView::DataflowStopped]
                &&& !self.next(input).running()
                &&& !self.next(input).dispatcher
                &&& self.directs(input) == if self.dispatcher {
                    Some(Directive::StopDispatcher)
                } else {
                    None
                }
            }),
    {
    }

    /// A prompt neither changes the worker nor gives rise to an event. With
    /// a dispatcher held the host is asked to deliver it; without one it is
    /// dropped.
    pub proof fn prompt_leaves_the_worker_alone(self, message: String)
        ensures
            ({
                let input = Input::Command(DoraCommand::SendPrompt { message });
                &&& self.next(input) == self
                &&& self.emits(input) == Seq::<EventView>::empty()
                &&& self.directs(input) == if !self.terminated && self.dispatcher {
                    Some(Directive::Deliver { message })
                } else {
                    None
                }
            }),
    {
    }

    /// During the grace period after a start no health check is made.
    pub proof fn no_health_check_during_grace(self, now: u64)
        requires
            self.in_grace(now),
        ensures
            self.next(Input::Tick { now }) == self,
            self.directs(Input::Tick { now }) is None,
    {
    }

    /// Two health checks lie at least one interval apart: right after one,
    /// none is due until the interval has passed.
    pub proof fn health_checks_are_spaced(self, now: u64, later: u64)
        requires
            !self.terminated,
            self.check_due(now),
            elapsed(later, now) < STATUS_CHECK_INTERVAL_MS,
        ensures
            !self.next(Input::Tick { now }).check_due(later),
    {
    }

    /// A running dataflow that a health check finds gone is reported by one
    /// stop event and clears the running flag; the dispatcher stays held
    /// until a stop command or the shutdown lets go of it. Any other answer
    /// changes nothing.
    pub proof fn lost_dataflow_is_reported(self, report: StatusReport)
        requires
            !self.terminated,
        ensures
            ({
                let input = Input::Status(report);
                if self.running() && report == StatusReport::NotRunning {
                    &&& self.emits(input) == seq![EventView::DataflowStopped]
                    &&& !self.next(input).running()
                    &&& self.next(input).dispatcher == self.dispatcher
                } else {
                    &&& self.emits(input) == Seq::<EventView>::empty()
                    &&& self.next(input) == self
                }
            }),
    {
    }

    /// The shutdown lets go of the dispatcher, clears the running flag and
    /// reports nothing.
    pub proof fn shutdown_ends_the_worker(self)
        requires
            !self.terminated,
        ensures
            ({
                let input = Input::Shutdown;
                &&& self.next(input).terminated
                &&& !self.next(input).running()
                &&& !self.next(input).dispatcher
                &&& self.emits(input) == Seq::<EventView>::empty()
                &&& self.directs(input) == if self.dispatcher {
                    Some(Directive::StopDispatcher)
                } else {
                    None
                }
            }),
    {
    }
}

/// The text of the error event for a launch that failed at `stage`.
pub fn describe_failure(stage: LaunchStage, reason: &String) -> (message: String)
    ensures
        message@ == failure_message(stage, reason@),
{
    let prefix = match stage {
        LaunchStage::Controller => String::from_str("Failed to create controller: "),
        LaunchStage::Dataflow => String::from_str("Failed to start dataflow: "),
    };
    prefix.concat(reason.as_str())
}

fn no_events() -> (events: Vec<DoraEvent>)
    ensures
        events.deep_view() == Seq::<EventView>::empty(),
{
    let events: Vec<DoraEvent> = Vec::new();
    assert(events.deep_view() =~= Seq::<EventView>::empty());
    events
}

fn one_event(event: DoraEvent) -> (events: Vec<DoraEvent>)
    ensures
        events.deep_view() == seq![event.deep_view()],
{
    let mut events: Vec<DoraEvent> = Vec::new();
    events.push(event);
    assert(events.deep_view() =~= seq![event.deep_view()]);
    events
}

/// The worker of one supervisor.
pub struct Worker {
    state: WorkerState,
}

impl View for Worker {
    type V = WorkerState;

    closed spec fn view(&self) -> WorkerState {
        self.state
    }
}

impl Worker {
    #[verifier::type_invariant]
    spec fn inv(self) -> bool {
        self.state.wf()
    }

    /// A worker that holds no dispatcher, created at time `now`.
    pub fn new(now: u64) -> (worker: Worker)
        ensures
            worker@ == WorkerState::initial(now),
            worker@.wf(),
    {
        Worker {
            state: WorkerState {
                dispatcher: false,
                started_at: None,
                last_status_check: now,
                terminated: false,
            },
        }
    }

    /// The worker's state as plain values.
    pub fn state(&self) -> (state: WorkerState)
        ensures
            state == self@,
            state.wf(),
    {
        proof {
            use_type_invariant(self);
        }
        self.state
    }

    /// The value that the running flag has to show.
    pub fn is_running(&self) -> (running: bool)
        ensures
            running == self@.running(),
            running ==> self@.dispatcher,
    {
        proof {
            use_type_invariant(self);
        }
        self.state.started_at.is_some()
    }

    /// Whether the host holds a dispatcher for this worker.
    pub fn holds_dispatcher(&self) -> (held: bool)
        ensures
            held == self@.dispatcher,
    {
        self.state.dispatcher
    }

    /// Reacts to `input`: moves to the next state and says what the host has
    /// to do and to publish. A worker that was shut down reacts to nothing.
    pub fn step(&mut self, input: Input) -> (reaction: Reaction)
        ensures
            final(self)@ == old(self)@.next(input),
            final(self)@.wf(),
            reaction.events.deep_view() == old(self)@.emits(input),
            reaction.directive == old(self)@.directs(input),
    {
        proof {
            use_type_invariant(&*self);
        }
        if self.state.terminated {
            return Reaction { directive: None, events: no_events() };
        }
        let held = self.state.dispatcher;
        match input {
            Input::Command(DoraCommand::StartDataflow { dataflow_path, env_vars }) => Reaction {
                directive: Some(Directive::Launch { dataflow_path, env_vars }),
                events: no_events(),
            },
            Input::Command(DoraCommand::StopDataflow) => {
                self.state = WorkerState { dispatcher: false, started_at: None, ..self.state };
                Reaction {
                    directive: if held {
                        Some(Directive::StopDispatcher)
                    } else {
                        None
                    },
                    events: one_event(DoraEvent::DataflowStopped),
                }
            },
            Input::Command(DoraCommand::SendPrompt { message }) => Reaction {
                directive: if held {
                    Some(Directive::Deliver { message })
                } else {
                    None
                },
                events: no_events(),
            },
            Input::Launched { outcome: LaunchOutcome::Started { dataflow_id }, now } => {
                self.state = WorkerState { dispatcher: true, started_at: Some(now), ..self.state };
                Reaction {
                    directive: None,
                    events: one_event(DoraEvent::DataflowStarted { dataflow_id }),
                }
            },
            Input::Launched { outcome: LaunchOutcome::Failed { stage, reason }, .. } => {
                let message = describe_failure(stage, &reason);
                Reaction { directive: None, events: one_event(DoraEvent::Error { message }) }
            },
            Input::Tick { now } => {
                if self.health_check_due(now) {
                    self.state = WorkerState { last_status_check: now, ..self.state };
                    Reaction {
                        directive: if held {
                            Some(Directive::QueryStatus)
                        } else {
                            None
                        },
                        events: no_events(),
                    }
                } else {
                    Reaction { directive: None, events: no_events() }
                }
            },
            Input::Status(report) => {
                if self.state.started_at.is_some() && report == StatusReport::NotRunning {
                    self.state = WorkerState { started_at: None, ..self.state };
                    Reaction { directive: None, events: one_event(DoraEvent::DataflowStopped) }
                } else {
                    Reaction { directive: None, events: no_events() }
                }
            },
            Input::Shutdown => {
                self.state = WorkerState {
                    dispatcher: false,
                    started_at: None,
                    terminated: true,
                    ..self.state
                };
                Reaction {
                    directive: if held {
                        Some(Directive::StopDispatcher)
                    } else {
                        None
                    },
                    events: no_events(),
                }
            },
        }
    }

    /// Whether a health check is due at time `now`: the dataflow, if one
    /// runs, is past its grace period, and the last check lies at least one
    /// interval back.
    pub fn health_check_due(&self, now: u64) -> (due: bool)
        ensures
            due == self@.check_due(now),
    {
        let in_grace = match self.state.started_at {
            Some(since) => now < since || now - since < STARTUP_GRACE_MS,
            None => false,
        };
        let last: u64 = self.state.last_status_check;
        !in_grace && now >= last && now - last >= STATUS_CHECK_INTERVAL_MS
    }

    /// Whether the worker has been shut down.
    pub fn is_terminated(&self) -> (terminated: bool)
        ensures
            terminated == self@.terminated,
    {
        self.state.terminated
    }
}

} // verus!
