//! The run itself, as a state machine. The orchestrator never touches a
//! socket or a process: each call to [`Orchestrator::step`] consumes the
//! event the caller observed and answers with the one action to perform
//! next. The transition relation [`step_ok`] pins every move down.

use vstd::prelude::*;
use crate::RunError;
use crate::config::{Config, daemon_args_spec, hs_dir};
use crate::protocol::{auth_line, is_ok_ack, opt_chars, setconf_line};

verus! {

/// The fixed stations of a run, in the order a successful run visits
/// them, plus the two terminal states.
#[derive(Clone, Copy, Debug, PartialEq, Eq, Structural)]
pub enum RunState {
    /// The daemon is being started and its output scanned for the
    /// bootstrap marker.
    Launching,
    /// The daemon is up; the control connection is being opened.
    Connecting,
    /// The control connection stands; the authenticate command is out.
    Authenticating,
    /// Hidden services are being provisioned, one at a time, in order.
    Provisioning,
    /// The dependent command is running; its output is being relayed.
    RunningCommand,
    /// The dependent command is done; the daemon is being terminated.
    ShuttingDown,
    /// The run ended normally.
    Terminated,
    /// The run ended at the step the error names; no recovery follows.
    Failed(RunError),
}

/// What the caller observed since the last step.
pub enum Event {
    /// Nothing yet: asks for the next action (the initial event, and
    /// the answer to [`Action::Continue`]).
    Proceed,
    /// The daemon printed the bootstrap marker.
    DaemonReady,
    /// The daemon could not be started, or its output closed before
    /// the marker appeared.
    DaemonGone,
    /// The control connection is open.
    ControlOpened,
    /// The control connection could not be opened.
    ControlRefused,
    /// The bytes read back after the pending command, as many as
    /// arrived before the read ended.
    Response(Vec<u8>),
    /// The dependent command could not be started.
    CommandNotStarted,
    /// The dependent command's output is drained and it has exited.
    CommandDone,
    /// The daemon was terminated.
    DaemonStopped,
    /// The daemon could not be terminated.
    DaemonNotStopped,
}

/// The one action the caller is to perform next.
pub enum Action {
    /// Start the daemon with these arguments and scan its output for
    /// the bootstrap marker.
    StartDaemon(Vec<String>),
    /// Open a control connection to this local port.
    OpenControl(u16),
    /// Write this request, flush, and read back up to eight bytes.
    SendCommand(String),
    /// Start the dependent command and relay its output to completion.
    StartCommand(String),
    /// Terminate the daemon (best effort) and report the outcome.
    StopDaemon,
    /// Call step again with [`Event::Proceed`].
    Continue,
    /// A terminal state is reached: nothing more to do.
    Halt,
}

/// The orchestrator of one run: the configuration, the supervisor's
/// process id for the owner-process marker, the current state, and how
/// many hidden services are provisioned so far.
pub struct Orchestrator {
    pub config: Config,
    pub pid: u64,
    pub state: RunState,
    pub provisioned: usize,
}

/// The full transition relation: given the state before the step and
/// the event, exactly this state after and exactly this action. An
/// event that its state never produces changes nothing and halts.
pub open spec fn step_ok(pre: Orchestrator, event: Event, post: Orchestrator, action: Action) -> bool {
    &&& post.config == pre.config
    &&& post.pid == pre.pid
    &&& match (pre.state, event) {
        (RunState::Launching, Event::Proceed) => {
            &&& post.state == RunState::Launching
            &&& post.provisioned == pre.provisioned
            &&& action matches Action::StartDaemon(args)
                && args.deep_view() == daemon_args_spec(pre.config, pre.pid)
        },
        (RunState::Launching, Event::DaemonReady) => {
            &&& post.state == RunState::Connecting
            &&& post.provisioned == pre.provisioned
            &&& action matches Action::OpenControl(p) && p == pre.config.config_port
        },
        (RunState::Launching, Event::DaemonGone) => {
            &&& post.state == RunState::Failed(RunError::LaunchFailure)
            &&& post.provisioned == pre.provisioned
            &&& action is Halt
        },
        (RunState::Connecting, Event::ControlOpened) => {
            &&& post.state == RunState::Authenticating
            &&& post.provisioned == pre.provisioned
            &&& action matches Action::SendCommand(c)
                && c@ == auth_line(opt_chars(pre.config.tor_password))
        },
        (RunState::Connecting, Event::ControlRefused) => {
            &&& post.state == RunState::Failed(RunError::ConnectionFailure)
            &&& post.provisioned == pre.provisioned
            &&& action is StopDaemon
        },
        (RunState::Authenticating, Event::Response(bytes)) => {
            if is_ok_ack(bytes@) {
                &&& post.state == RunState::Provisioning
                &&& post.provisioned == 0
                &&& action is Continue
            } else {
                &&& post.state == RunState::Failed(RunError::AuthenticationFailure)
                &&& post.provisioned == pre.provisioned
                &&& action is StopDaemon
            }
        },
        (RunState::Provisioning, Event::Proceed) => {
            if pre.provisioned < pre.config.hidden_services@.len() {
                &&& post.state == RunState::Provisioning
                &&& post.provisioned == pre.provisioned
                &&& action matches Action::SendCommand(c) && c@ == setconf_line(
                    hs_dir(pre.config.hidden_services@[pre.provisioned as int].path),
                    pre.config.hidden_services@[pre.provisioned as int].port,
                )
            } else {
                &&& post.state == RunState::RunningCommand
                &&& post.provisioned == pre.provisioned
                &&& action matches Action::StartCommand(c) && c@ == pre.config.command@
            }
        },
        (RunState::Provisioning, Event::Response(bytes)) => {
            if pre.provisioned < pre.config.hidden_services@.len() {
                if is_ok_ack(bytes@) {
                    &&& post.state == RunState::Provisioning
                    &&& post.provisioned == pre.provisioned + 1
                    &&& action is Continue
                } else {
                    &&& post.state == RunState::Failed(RunError::ProvisioningFailure)
                    &&& post.provisioned == pre.provisioned
                    &&& action is StopDaemon
                }
            } else {
                &&& post == pre
                &&& action is Halt
            }
        },
        (RunState::RunningCommand, Event::CommandNotStarted) => {
            &&& post.state == RunState::Failed(RunError::CommandSpawnFailure)
            &&& post.provisioned == pre.provisioned
            &&& action is StopDaemon
        },
        (RunState::RunningCommand, Event::CommandDone) => {
            &&& post.state == RunState::ShuttingDown
            &&& post.provisioned == pre.provisioned
            &&& action is StopDaemon
        },
        (RunState::ShuttingDown, Event::DaemonStopped) => {
            &&& post.state == RunState::Terminated
            &&& post.provisioned == pre.provisioned
            &&& action is Halt
        },
        (RunState::ShuttingDown, Event::DaemonNotStopped) => {
            &&& post.state == RunState::Failed(RunError::ShutdownFailure)
            &&& post.provisioned == pre.provisioned
            &&& action is Halt
        },
        _ => {
            &&& post == pre
            &&& action is Halt
        },
    }
}

impl Orchestrator {
    /// The count of provisioned services never passes the list.
    pub open spec fn wf(self) -> bool {
        self.provisioned <= self.config.hidden_services@.len()
    }

    /// A run that has reached a state it will never leave.
    pub open spec fn is_terminal(self) -> bool {
        self.state == RunState::Terminated || self.state matches RunState::Failed(_)
    }

    /// A fresh run over `config`, still to be launched. `pid` is the
    /// supervisor's process id, handed to the daemon as the
    /// owner-process marker.
    pub fn new(config: Config, pid: u64) -> (o: Orchestrator)
        ensures
            o.wf(),
            o.state == RunState::Launching,
            o.config == config,
            o.pid == pid,
            o.provisioned == 0,
    {
        Orchestrator { config, pid, state: RunState::Launching, provisioned: 0 }
    }

    /// Whether the run is over, normally or not.
    pub fn done(&self) -> (r: bool)
        ensures
            r == self.is_terminal(),
    {
        match self.state {
            RunState::Terminated => true,
            RunState::Failed(_) => true,
            _ => false,
        }
    }

    /// Consumes the event the caller observed and answers with the
    /// next action, moving the run along the transition relation.
    pub fn step(&mut self, event: Event) -> (action: Action)
        requires
            old(self).wf(),
        ensures
            final(self).wf(),
            step_ok(*old(self), event, *final(self), action),
    {
        let st = self.state;
        match (st, event) {
            (RunState::Launching, Event::Proceed) => {
                Action::StartDaemon(self.config.daemon_args(self.pid))
            },
            (RunState::Launching, Event::DaemonReady) => {
                self.state = RunState::Connecting;
                Action::OpenControl(self.config.config_port)
            },
            (RunState::Launching, Event::DaemonGone) => {
                self.state = RunState::Failed(RunError::LaunchFailure);
                Action::Halt
            },
            (RunState::Connecting, Event::ControlOpened) => {
                self.state = RunState::Authenticating;
                Action::SendCommand(crate::protocol::authenticate_command(&self.config.tor_password))
            },
            (RunState::Connecting, Event::ControlRefused) => {
                self.state = RunState::Failed(RunError::ConnectionFailure);
                Action::StopDaemon
            },
            (RunState::Authenticating, Event::Response(bytes)) => {
                if crate::protocol::response_is_ok(&bytes) {
                    self.state = RunState::Provisioning;
                    self.provisioned = 0;
                    Action::Continue
                } else {
                    self.state = RunState::Failed(RunError::AuthenticationFailure);
                    Action::StopDaemon
                }
            },
            (RunState::Provisioning, Event::Proceed) => {
                if self.provisioned < self.config.hidden_services.len() {
                    let line = self.config.hidden_services[self.provisioned].format_request();
                    Action::SendCommand(line)
                } else {
                    self.state = RunState::RunningCommand;
                    Action::StartCommand(self.config.command.clone())
                }
            },
            (RunState::Provisioning, Event::Response(bytes)) => {
                if self.provisioned < self.config.hidden_services.len() {
                    if crate::protocol::response_is_ok(&bytes) {
                        self.provisioned = self.provisioned + 1;
                        Action::Continue
                    } else {
                        self.state = RunState::Failed(RunError::ProvisioningFailure);
                        Action::StopDaemon
                    }
                } else {
                    Action::Halt
                }
            },
            (RunState::RunningCommand, Event::CommandNotStarted) => {
                self.state = RunState::Failed(RunError::CommandSpawnFailure);
                Action::StopDaemon
            },
            (RunState::RunningCommand, Event::CommandDone) => {
                self.state = RunState::ShuttingDown;
                Action::StopDaemon
            },
            (RunState::ShuttingDown, Event::DaemonStopped) => {
                self.state = RunState::Terminated;
                Action::Halt
            },
            (RunState::ShuttingDown, Event::DaemonNotStopped) => {
                self.state = RunState::Failed(RunError::ShutdownFailure);
                Action::Halt
            },
            (_, _) => Action::Halt,
        }
    }
}

/// With no hidden services configured, provisioning sends nothing: the
/// step out of the provisioning state goes straight to running the
/// dependent command, and its action starts that command rather than
/// sending any request.
pub proof fn lemma_empty_provisioning_sends_nothing(
    pre: Orchestrator,
    post: Orchestrator,
    action: Action,
)
    requires
        pre.wf(),
        pre.state == RunState::Provisioning,
        pre.config.hidden_services@.len() == 0,
        step_ok(pre, Event::Proceed, post, action),
    ensures
        post.state == RunState::RunningCommand,
        action matches Action::StartCommand(c) && c@ == pre.config.command@,
        !(action matches Action::SendCommand(_)),
{
}

} // verus!
