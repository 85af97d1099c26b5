//! The process supervisor: how each node is launched, and what is done when
//! the operator interrupts or a node exits.
//!
//! The two nodes live and stop together. A run waits for the first of three
//! events (an interrupt, the exit of the execution node, the exit of the
//! consensus node), asks whatever still runs to terminate, and is done. The
//! caller owns the processes: it launches what [`spawn_el`] and [`spawn_cl`]
//! describe, waits for the event, and carries out what the [`Supervisor`]
//! asks for.

use crate::config::{ClConfig, ElConfig};
use crate::numeral::{decimal_of, decimal_string, push_signed_decimal, signed_decimal_of};
use vstd::prelude::*;
use vstd::string::*;

verus! {

/// Which of the two nodes a process is.
#[derive(Clone, Copy, Debug, PartialEq, Eq, Structural)]
pub enum Role {
    Execution,
    Consensus,
}

impl Role {
    /// The node that is paired with this one.
    pub open spec fn sibling(self) -> Role {
        match self {
            Role::Execution => Role::Consensus,
            Role::Consensus => Role::Execution,
        }
    }

    /// The node that is paired with this one.
    pub fn other(&self) -> (r: Role)
        ensures
            r == self.sibling(),
    {
        match self {
            Role::Execution => Role::Consensus,
            Role::Consensus => Role::Execution,
        }
    }

    /// The tag of the node in messages and relayed lines.
    pub open spec fn tag_of(self) -> Seq<char> {
        match self {
            Role::Execution => "EL"@,
            Role::Consensus => "CL"@,
        }
    }

    /// The escape sequence that colours the tag: green for the execution
    /// node, blue for the consensus node.
    pub open spec fn colour_of(self) -> Seq<char> {
        match self {
            Role::Execution => "\x1b[32m"@,
            Role::Consensus => "\x1b[34m"@,
        }
    }

    /// The tag of the node in messages and relayed lines.
    pub fn tag(&self) -> (r: &'static str)
        ensures
            r@ == self.tag_of(),
    {
        match self {
            Role::Execution => "EL",
            Role::Consensus => "CL",
        }
    }

    /// The escape sequence that colours the tag.
    pub fn colour(&self) -> (r: &'static str)
        ensures
            r@ == self.colour_of(),
    {
        match self {
            Role::Execution => "\x1b[32m",
            Role::Consensus => "\x1b[34m",
        }
    }
}

/// What becomes of the standard output and the standard error of a node.
#[derive(Clone, Copy, Debug, PartialEq, Eq, Structural)]
pub enum Output {
    /// Both streams are discarded.
    Discarded,
    /// Both streams are captured, to be relayed.
    Captured,
}

/// How a node is launched: the data directory is created if it is missing,
/// then `program` is started with `args`.
#[derive(Clone, Debug, PartialEq, Eq)]
pub struct Launch {
    pub role: Role,
    pub program: String,
    pub args: Vec<String>,
    pub data_dir: String,
    pub output: Output,
}

/// A [`Launch`] with its text as sequences of characters.
pub struct LaunchView {
    pub role: Role,
    pub program: Seq<char>,
    pub args: Seq<Seq<char>>,
    pub data_dir: Seq<char>,
    pub output: Output,
}

impl DeepView for Launch {
    type V = LaunchView;

    open spec fn deep_view(&self) -> LaunchView {
        LaunchView {
            role: self.role,
            program: self.program@,
            args: self.args.deep_view(),
            data_dir: self.data_dir@,
            output: self.output,
        }
    }
}

/// Where the output of a node goes: nowhere in a quiet run, else to the
/// relay.
pub open spec fn output_of(quiet: bool) -> Output {
    if quiet {
        Output::Discarded
    } else {
        Output::Captured
    }
}

/// The arguments of the execution node.
pub open spec fn el_args_of(cfg: ElConfig) -> Seq<Seq<char>> {
    seq![
        "node"@,
        "--chain"@,
        cfg.chain@,
        "--datadir"@,
        cfg.data_dir@,
        "--authrpc.addr"@,
        cfg.authrpc_addr@,
        "--authrpc.port"@,
        decimal_of(cfg.authrpc_port as nat),
        "--authrpc.jwtsecret"@,
        cfg.jwt_path@,
        "--http"@,
        "--http.addr"@,
        cfg.http_addr@,
        "--http.port"@,
        decimal_of(cfg.http_port as nat),
        "--http.api"@,
        "all"@,
    ]
}

/// The arguments of the consensus node. The checkpoint source is named only
/// where one is configured.
pub open spec fn cl_args_of(cfg: ClConfig) -> Seq<Seq<char>> {
    seq![
        "bn"@,
        "--network"@,
        cfg.chain@,
        "--datadir"@,
        cfg.data_dir@,
        "--execution-endpoint"@,
        cfg.execution_endpoint@,
        "--execution-jwt"@,
        cfg.execution_jwt@,
        "--http"@,
        "--http-address"@,
        cfg.http_addr@,
        "--http-port"@,
        decimal_of(cfg.http_port as nat),
    ] + match cfg.checkpoint_sync_url {
        Some(url) => seq!["--checkpoint-sync-url"@, url@],
        None => Seq::empty(),
    }
}

/// The launch of the execution node.
pub open spec fn el_launch_of(cfg: ElConfig, quiet: bool) -> LaunchView {
    LaunchView {
        role: Role::Execution,
        program: cfg.bin@,
        args: el_args_of(cfg),
        data_dir: cfg.data_dir@,
        output: output_of(quiet),
    }
}

/// The launch of the consensus node.
pub open spec fn cl_launch_of(cfg: ClConfig, quiet: bool) -> LaunchView {
    LaunchView {
        role: Role::Consensus,
        program: cfg.bin@,
        args: cl_args_of(cfg),
        data_dir: cfg.data_dir@,
        output: output_of(quiet),
    }
}

fn output(quiet: bool) -> (r: Output)
    ensures
        r == output_of(quiet),
{
    if quiet {
        Output::Discarded
    } else {
        Output::Captured
    }
}

/// Says how the execution node is launched from `cfg`.
pub fn spawn_el(cfg: &ElConfig, quiet: bool) -> (r: Launch)
    ensures
        r.deep_view() == el_launch_of(*cfg, quiet),
{
    let mut args: Vec<String> = Vec::new();
    args.push(String::from_str("node"));
    args.push(String::from_str("--chain"));
    args.push(cfg.chain.clone());
    args.push(String::from_str("--datadir"));
    args.push(cfg.data_dir.clone());
    args.push(String::from_str("--authrpc.addr"));
    args.push(cfg.authrpc_addr.clone());
    args.push(String::from_str("--authrpc.port"));
    args.push(decimal_string(cfg.authrpc_port as u128));
    args.push(String::from_str("--authrpc.jwtsecret"));
    args.push(cfg.jwt_path.clone());
    args.push(String::from_str("--http"));
    args.push(String::from_str("--http.addr"));
    args.push(cfg.http_addr.clone());
    args.push(String::from_str("--http.port"));
    args.push(decimal_string(cfg.http_port as u128));
    args.push(String::from_str("--http.api"));
    args.push(String::from_str("all"));
    assert(args.deep_view() =~= el_args_of(*cfg));
    Launch {
        role: Role::Execution,
        program: cfg.bin.clone(),
        args,
        data_dir: cfg.data_dir.clone(),
        output: output(quiet),
    }
}

/// Says how the consensus node is launched from `cfg`.
pub fn spawn_cl(cfg: &ClConfig, quiet: bool) -> (r: Launch)
    ensures
        r.deep_view() == cl_launch_of(*cfg, quiet),
{
    let mut args: Vec<String> = Vec::new();
    args.push(String::from_str("bn"));
    args.push(String::from_str("--network"));
    args.push(cfg.chain.clone());
    args.push(String::from_str("--datadir"));
    args.push(cfg.data_dir.clone());
    args.push(String::from_str("--execution-endpoint"));
    args.push(cfg.execution_endpoint.clone());
    args.push(String::from_str("--execution-jwt"));
    args.push(cfg.execution_jwt.clone());
    args.push(String::from_str("--http"));
    args.push(String::from_str("--http-address"));
    args.push(cfg.http_addr.clone());
    args.push(String::from_str("--http-port"));
    args.push(decimal_string(cfg.http_port as u128));
    match &cfg.checkpoint_sync_url {
        Some(url) => {
            args.push(String::from_str("--checkpoint-sync-url"));
            args.push(url.clone());
        },
        None => {},
    }
    assert(args.deep_view() =~= cl_args_of(*cfg));
    Launch {
        role: Role::Consensus,
        program: cfg.bin.clone(),
        args,
        data_dir: cfg.data_dir.clone(),
        output: output(quiet),
    }
}

/// The step of a launch that failed.
#[derive(Clone, Copy, Debug, PartialEq, Eq, Structural)]
pub enum LaunchStep {
    /// The data directory could not be created.
    CreateDataDir,
    /// The program could not be started.
    StartProgram,
}

/// Why a node could not be launched. A launch is not tried again: the run
/// has failed.
#[derive(Clone, Copy, Debug, PartialEq, Eq, Structural)]
pub struct SpawnError {
    pub role: Role,
    pub step: LaunchStep,
}

impl SpawnError {
    /// The message of the failure: the node, and the directory or program
    /// of `launch` that the step was about.
    pub open spec fn described(self, launch: LaunchView) -> Seq<char> {
        match self.step {
            LaunchStep::CreateDataDir => self.role.tag_of() + " data directory "@
                + launch.data_dir + " could not be created"@,
            LaunchStep::StartProgram => self.role.tag_of() + " program "@ + launch.program
                + " could not be started"@,
        }
    }

    /// Writes the message of the failure for the operator.
    pub fn describe(&self, launch: &Launch) -> (r: String)
        ensures
            r@ == self.described(launch.deep_view()),
    {
        let mut text = String::from_str(self.role.tag());
        match self.step {
            LaunchStep::CreateDataDir => {
                text.append(" data directory ");
                text.append(launch.data_dir.as_str());
                text.append(" could not be created");
            },
            LaunchStep::StartProgram => {
                text.append(" program ");
                text.append(launch.program.as_str());
                text.append(" could not be started");
            },
        }
        assert(text@ =~= self.described(launch.deep_view()));
        text
    }
}

/// A line of a node's output as it is relayed: the tag of the node in
/// brackets and in its colour, the colour reset, a space, the line.
pub open spec fn log_line_of(role: Role, line: Seq<char>) -> Seq<char> {
    role.colour_of() + "["@ + role.tag_of() + "]"@ + "\x1b[0m"@ + " "@ + line
}

/// Tags and colours one line of the output of `role` for the console.
pub fn log_line(role: Role, line: &str) -> (r: String)
    ensures
        r@ == log_line_of(role, line@),
{
    let mut text = String::from_str(role.colour());
    text.append("[");
    text.append(role.tag());
    text.append("]");
    text.append("\x1b[0m");
    text.append(" ");
    text.append(line);
    text
}

/// Relayed lines tell the two nodes apart: the tags differ, the colours
/// differ, and no line of one node reads like a line of the other.
pub proof fn lemma_relayed_lines_differ(execution_line: Seq<char>, consensus_line: Seq<char>)
    ensures
        Role::Execution.tag_of() != Role::Consensus.tag_of(),
        Role::Execution.colour_of() != Role::Consensus.colour_of(),
        log_line_of(Role::Execution, execution_line) != log_line_of(
            Role::Consensus,
            consensus_line,
        ),
{
    reveal_strlit("EL");
    reveal_strlit("CL");
    reveal_strlit("\x1b[32m");
    reveal_strlit("\x1b[34m");
    assert(Role::Execution.tag_of()[0] != Role::Consensus.tag_of()[0]);
    assert(Role::Execution.colour_of()[3] != Role::Consensus.colour_of()[3]);
    assert(log_line_of(Role::Execution, execution_line)[3] == '2');
    assert(log_line_of(Role::Consensus, consensus_line)[3] == '4');
}

/// The nodes whose output is relayed: none in a quiet run, else both.
pub open spec fn relayed_of(quiet: bool) -> Seq<Role> {
    if quiet {
        Seq::empty()
    } else {
        seq![Role::Execution, Role::Consensus]
    }
}

/// The nodes whose captured output gets a relay before the run waits.
pub fn relayed(quiet: bool) -> (r: Vec<Role>)
    ensures
        r@ == relayed_of(quiet),
{
    let mut roles: Vec<Role> = Vec::new();
    if !quiet {
        roles.push(Role::Execution);
        roles.push(Role::Consensus);
    }
    assert(roles@ =~= relayed_of(quiet));
    roles
}

/// What ends the wait of a run. The first event to happen is the only one
/// that counts.
#[derive(Clone, Copy, Debug, PartialEq, Eq, Structural)]
pub enum Event {
    /// The operator asked for the run to stop.
    Interrupt,
    /// The process of `role` is gone, with `code` if it exited by itself.
    /// There is no code where a signal ended it, or where waiting for it
    /// failed.
    Exited { role: Role, code: Option<i32> },
}

/// Why a run failed.
#[derive(Clone, Copy, Debug, PartialEq, Eq, Structural)]
pub enum RunError {
    /// A node exited though the operator had not asked for it. Whatever its
    /// exit code, the run has failed: both nodes are to stay alive until the
    /// operator stops them.
    UnexpectedExit { role: Role, code: Option<i32> },
}

impl RunError {
    /// The message of the failure: which node exited, and with what code if
    /// it had one.
    pub open spec fn described(self) -> Seq<char> {
        match self {
            RunError::UnexpectedExit { role, code } => role.tag_of() + " exited unexpectedly"@
                + match code {
                Some(code) => " with status "@ + signed_decimal_of(code as int),
                None => " without a status"@,
            },
        }
    }

    /// Writes the message of the failure for the operator.
    pub fn describe(&self) -> (r: String)
        ensures
            r@ == self.described(),
    {
        match self {
            RunError::UnexpectedExit { role, code } => {
                let mut text = String::from_str(role.tag());
                text.append(" exited unexpectedly");
                match code {
                    Some(code) => {
                        text.append(" with status ");
                        push_signed_decimal(&mut text, *code as i64);
                    },
                    None => {
                        text.append(" without a status");
                    },
                }
                assert(text@ =~= self.described());
                text
            },
        }
    }
}

/// A request to terminate that could not be delivered to the process of
/// `role`. It is reported and then put aside: the run shuts down as if the
/// request had been delivered.
#[derive(Clone, Copy, Debug, PartialEq, Eq, Structural)]
pub struct SignalError {
    pub role: Role,
}

impl SignalError {
    /// The message of the failure.
    pub open spec fn described(self) -> Seq<char> {
        self.role.tag_of() + " could not be asked to terminate"@
    }

    /// Writes the message of the failure for the operator.
    pub fn describe(&self) -> (r: String)
        ensures
            r@ == self.described(),
    {
        let mut text = String::from_str(self.role.tag());
        text.append(" could not be asked to terminate");
        text
    }
}

/// The state of a run.
#[derive(Clone, Copy, Debug, PartialEq, Eq)]
pub enum Supervisor {
    /// Both nodes run, and the run waits for the first event.
    Running,
    /// The operator interrupted: both nodes are to be asked to terminate.
    ShuttingDownByRequest,
    /// The node `role` exited: its sibling is to be asked to terminate.
    ShuttingDownByFailure { role: Role, code: Option<i32> },
    /// The run is over, with this result.
    Done(Result<(), RunError>),
}

/// What the caller is to do in a state.
#[derive(Debug, PartialEq, Eq)]
pub enum Action {
    /// Wait for the first of the three events.
    Await,
    /// Ask each of these nodes once to terminate. A request that fails is
    /// reported and otherwise ignored: the others are still made.
    Terminate(Vec<Role>),
    /// Return this result. The processes are released.
    Return(Result<(), RunError>),
}

impl Supervisor {
    /// The state after `event` has won the wait. Only a running supervisor
    /// takes events: afterwards none changes the state.
    pub open spec fn after(self, event: Event) -> Supervisor {
        match self {
            Supervisor::Running => match event {
                Event::Interrupt => Supervisor::ShuttingDownByRequest,
                Event::Exited { role, code } => Supervisor::ShuttingDownByFailure { role, code },
            },
            _ => self,
        }
    }

    /// The nodes that are asked to terminate in this state: both on request,
    /// the sibling of the node that exited on failure, none otherwise.
    pub open spec fn targets(self) -> Seq<Role> {
        match self {
            Supervisor::ShuttingDownByRequest => seq![Role::Execution, Role::Consensus],
            Supervisor::ShuttingDownByFailure { role, code } => seq![role.sibling()],
            _ => Seq::empty(),
        }
    }

    /// The state after the requests of this state have been attempted: a
    /// shutdown is done, as a success on request and as a failure that names
    /// the node that exited otherwise. Any other state stays.
    pub open spec fn settled(self) -> Supervisor {
        match self {
            Supervisor::ShuttingDownByRequest => Supervisor::Done(Ok(())),
            Supervisor::ShuttingDownByFailure { role, code } => Supervisor::Done(
                Err(RunError::UnexpectedExit { role, code }),
            ),
            _ => self,
        }
    }

    /// A supervisor for two nodes that have just been launched.
    pub fn new() -> (r: Supervisor)
        ensures
            r == Supervisor::Running,
    {
        Supervisor::Running
    }

    /// Takes the event that won the wait.
    pub fn on_event(self, event: Event) -> (r: Supervisor)
        ensures
            r == self.after(event),
    {
        match self {
            Supervisor::Running => match event {
                Event::Interrupt => Supervisor::ShuttingDownByRequest,
                Event::Exited { role, code } => Supervisor::ShuttingDownByFailure { role, code },
            },
            other => other,
        }
    }

    /// What the caller is to do now.
    pub fn action(&self) -> (r: Action)
        ensures
            match *self {
                Supervisor::Running => r == Action::Await,
                Supervisor::Done(result) => r == Action::Return(result),
                _ => r matches Action::Terminate(roles) && roles@ == self.targets(),
            },
    {
        match self {
            Supervisor::Running => Action::Await,
            Supervisor::ShuttingDownByRequest => {
                let mut roles: Vec<Role> = Vec::new();
                roles.push(Role::Execution);
                roles.push(Role::Consensus);
                assert(roles@ =~= self.targets());
                Action::Terminate(roles)
            },
            Supervisor::ShuttingDownByFailure { role, code } => {
                let mut roles: Vec<Role> = Vec::new();
                roles.push(role.other());
                assert(roles@ =~= self.targets());
                Action::Terminate(roles)
            },
            Supervisor::Done(result) => Action::Return(*result),
        }
    }

    /// Takes note that the requests to terminate have been attempted.
    pub fn on_terminated(self) -> (r: Supervisor)
        ensures
            r == self.settled(),
    {
        match self {
            Supervisor::ShuttingDownByRequest => Supervisor::Done(Ok(())),
            Supervisor::ShuttingDownByFailure { role, code } => Supervisor::Done(
                Err(RunError::UnexpectedExit { role, code }),
            ),
            other => other,
        }
    }
}

/// How a run ends: the nodes that were asked to terminate, in order, and the
/// result.
#[derive(Debug, PartialEq, Eq)]
pub struct Shutdown {
    pub terminated: Vec<Role>,
    pub result: Result<(), RunError>,
}

/// The result of a run in which `event` came first: a success after an
/// interrupt, and after an exit the failure that names the node and its
/// code.
pub open spec fn result_of(event: Event) -> Result<(), RunError> {
    match event {
        Event::Interrupt => Ok(()),
        Event::Exited { role, code } => Err(RunError::UnexpectedExit { role, code }),
    }
}

/// The nodes that are asked to terminate in a run in which `event` came
/// first: both after an interrupt, and after an exit the node that still
/// runs.
pub open spec fn terminated_of(event: Event) -> Seq<Role> {
    match event {
        Event::Interrupt => seq![Role::Execution, Role::Consensus],
        Event::Exited { role, code } => seq![role.sibling()],
    }
}

/// A whole run of two freshly launched nodes, given the event that comes
/// first: the supervisor takes the event, asks for the terminations, and is
/// done.
pub fn start_nodes(event: Event) -> (r: Shutdown)
    ensures
        r.terminated@ == terminated_of(event),
        r.result == result_of(event),
{
    let waiting = Supervisor::new();
    let stopping = waiting.on_event(event);
    let terminated = match stopping.action() {
        Action::Terminate(roles) => roles,
        _ => Vec::new(),
    };
    let done = stopping.on_terminated();
    let result = match done.action() {
        Action::Return(result) => result,
        _ => Ok(()),
    };
    Shutdown { terminated, result }
}

/// Whether the process of `role` still runs once `event` has happened.
pub open spec fn survives(role: Role, event: Event) -> bool {
    match event {
        Event::Interrupt => true,
        Event::Exited { role: exited, code } => role != exited,
    }
}

/// Every run ends after one event and one round of requests, whatever the
/// event: the supervisor goes from running to a shutdown and from there to
/// done, where it stays and asks for nothing more. In the shutdown, each
/// node that still runs is asked to terminate exactly once, and a node that
/// has exited is not asked at all.
pub proof fn lemma_run_ends_once(event: Event)
    ensures
        Supervisor::Running.after(event) !is Running,
        Supervisor::Running.after(event) !is Done,
        Supervisor::Running.after(event).targets() == terminated_of(event),
        Supervisor::Running.after(event).settled() == Supervisor::Done(result_of(event)),
        Supervisor::Running.after(event).settled().targets() == Seq::<Role>::empty(),
        forall|later: Event| #[trigger]
            Supervisor::Running.after(event).after(later) == Supervisor::Running.after(event),
        forall|later: Event| #[trigger]
            Supervisor::Done(result_of(event)).after(later) == Supervisor::Done(result_of(event)),
        Supervisor::Done(result_of(event)).settled() == Supervisor::Done(result_of(event)),
        forall|role: Role| #[trigger]
            terminated_of(event).contains(role) <==> survives(role, event),
        terminated_of(event).no_duplicates(),
{
    let asked = terminated_of(event);
    assert forall|role: Role| #[trigger] asked.contains(role) <==> survives(role, event) by {
        if survives(role, event) {
            match event {
                Event::Interrupt => {
                    assert(asked[0] == Role::Execution && asked[1] == Role::Consensus);
                },
                Event::Exited { role: exited, code } => {
                    assert(asked[0] == role);
                },
            }
        }
    }
}

} // verus!
