//! Running route commands, one at a time.
//!
//! A run hands out the next command and takes back what became of it. A setup
//! run ends at the first fatal failure; a cleanup run issues everything it was
//! given.

use vstd::prelude::*;
use crate::error::{CommandFailure, CommandOutput, RouteCommandError};
use crate::gateway::GatewayInfo;
use crate::ip::IpAddr;
use crate::routing::commands::{
    build_setup_commands, build_teardown_commands, Platform, SetupCommand,
};

verus! {

/// Closes [`Phase`] to the two families below.
pub trait Sealed {}

/// A phase of route commands. Whether a failure is expected is a property of the
/// phase's type, and each run takes only its own type.
pub trait Phase: Sealed + Copy {
    spec fn expects_failure() -> bool;

    spec fn tag(self) -> Seq<char>;

    /// Whether a non-zero exit in this phase is expected rather than an anomaly.
    fn best_effort() -> (r: bool)
        ensures
            r == Self::expects_failure(),
    ;

    /// The phase's tag in the log.
    fn name(self) -> (r: &'static str)
        ensures
            r@ == self.tag(),
    ;
}

/// Phases whose command failures are anomalies.
#[derive(Debug, Clone, Copy, PartialEq, Eq, Structural)]
pub enum FatalPhase {
    /// Installing the split routes.
    Setup,
    /// Engaging a firewall cover.
    CoverEngage,
}

/// Phases whose command failures are expected: they delete what a healthy host
/// may never have had.
#[derive(Debug, Clone, Copy, PartialEq, Eq, Structural)]
pub enum BestEffortPhase {
    Teardown,
    RecoverSplit,
    RecoverBypass,
    RecoverCover,
}

impl Sealed for FatalPhase {}

impl Phase for FatalPhase {
    open spec fn expects_failure() -> bool {
        false
    }

    open spec fn tag(self) -> Seq<char> {
        match self {
            FatalPhase::Setup => "setup"@,
            FatalPhase::CoverEngage => "cover-engage"@,
        }
    }

    fn best_effort() -> (r: bool) {
        false
    }

    fn name(self) -> (r: &'static str) {
        match self {
            FatalPhase::Setup => "setup",
            FatalPhase::CoverEngage => "cover-engage",
        }
    }
}

impl Sealed for BestEffortPhase {}

impl Phase for BestEffortPhase {
    open spec fn expects_failure() -> bool {
        true
    }

    open spec fn tag(self) -> Seq<char> {
        match self {
            BestEffortPhase::Teardown => "teardown"@,
            BestEffortPhase::RecoverSplit => "recover-split"@,
            BestEffortPhase::RecoverBypass => "recover-bypass"@,
            BestEffortPhase::RecoverCover => "recover-cover"@,
        }
    }

    fn best_effort() -> (r: bool) {
        true
    }

    fn name(self) -> (r: &'static str) {
        match self {
            BestEffortPhase::Teardown => "teardown",
            BestEffortPhase::RecoverSplit => "recover-split",
            BestEffortPhase::RecoverBypass => "recover-bypass",
            BestEffortPhase::RecoverCover => "recover-cover",
        }
    }
}

/// What became of one command: `spawned` is its output, or why it could not be
/// started. An exit without a code counts as `-1`.
pub fn exec_verdict(spawned: Result<CommandOutput, String>) -> (r: Result<(), CommandFailure>)
    ensures
        r == match spawned {
            Err(e) => Err::<(), CommandFailure>(CommandFailure::Spawn(e)),
            Ok(out) => if out.success {
                Ok(())
            } else {
                Err(
                    CommandFailure::Exit(
                        match out.code {
                            Some(code) => code,
                            None => (-1) as i32,
                        },
                    ),
                )
            },
        },
{
    match spawned {
        Err(e) => Err(CommandFailure::Spawn(e)),
        Ok(out) => {
            if out.success {
                return Ok(());
            }
            let code: i32 = match out.code {
                Some(code) => code,
                None => -1,
            };
            Err(CommandFailure::Exit(code))
        }
    }
}

/// The answers to a run's commands so far, in order.
pub type Answers = Seq<Result<(), CommandFailure>>;

/// The `i`-th answer ended the setup: its command failed and was fatal.
pub open spec fn fatal_at(commands: Seq<SetupCommand>, answers: Answers, i: int) -> bool {
    0 <= i < answers.len() && answers[i] is Err && commands[i].fatal
}

/// Some fatal command has failed.
pub open spec fn setup_aborted(commands: Seq<SetupCommand>, answers: Answers) -> bool {
    exists|i: int| fatal_at(commands, answers, i)
}

/// No command is left to issue.
pub open spec fn setup_over(commands: Seq<SetupCommand>, answers: Answers) -> bool {
    answers.len() == commands.len() || setup_aborted(commands, answers)
}

/// The error that names the fatal command at `i`.
pub open spec fn is_abort_error(
    commands: Seq<SetupCommand>,
    answers: Answers,
    i: int,
    e: RouteCommandError,
) -> bool {
    &&& e.program@ == if commands[i].argv@.len() > 0 {
        commands[i].argv@[0]@
    } else {
        seq![]
    }
    &&& e.index == i
    &&& e.total == commands.len()
    &&& Err::<(), CommandFailure>(e.failure) == answers[i]
}

/// A setup phase under way.
pub struct SetupRun {
    commands: Vec<SetupCommand>,
    phase: FatalPhase,
    next: usize,
    aborted: Option<RouteCommandError>,
    answers: Ghost<Answers>,
}

impl SetupRun {
    pub closed spec fn commands(self) -> Seq<SetupCommand> {
        self.commands@
    }

    /// The phase that every command is issued in.
    pub closed spec fn phase(self) -> FatalPhase {
        self.phase
    }

    pub closed spec fn answers(self) -> Answers {
        self.answers@
    }

    pub closed spec fn wf(self) -> bool {
        &&& self.next == self.answers@.len()
        &&& self.next <= self.commands@.len()
        &&& forall|i: int| 0 <= i < self.next - 1 ==> !fatal_at(self.commands@, self.answers@, i)
        &&& match self.aborted {
            Some(e) => self.next > 0 && fatal_at(self.commands@, self.answers@, self.next - 1) && is_abort_error(
                self.commands@,
                self.answers@,
                self.next - 1,
                e,
            ),
            None => !fatal_at(self.commands@, self.answers@, self.next - 1),
        }
    }

    /// The command to issue now and the phase it is issued in, `None` when the run is
    /// over.
    pub fn next(&self) -> (r: Option<(&Vec<String>, FatalPhase)>)
        requires
            self.wf(),
        ensures
            r is None <==> setup_over(self.commands(), self.answers()),
            r matches Some((argv, phase)) ==> self.answers().len() < self.commands().len() && *argv
                == self.commands()[self.answers().len() as int].argv && phase == self.phase(),
    {
        if self.aborted.is_some() {
            assert(fatal_at(self.commands@, self.answers@, self.next - 1));
            return None;
        }
        assert(!setup_aborted(self.commands@, self.answers@));
        if self.next < self.commands.len() {
            Some((&self.commands[self.next].argv, self.phase))
        } else {
            None
        }
    }

    /// Take the answer to the command that [`SetupRun::next`] handed out.
    pub fn feed(self, answer: Result<(), CommandFailure>) -> (r: Self)
        requires
            self.wf(),
            !setup_over(self.commands(), self.answers()),
        ensures
            r.wf(),
            r.commands() == self.commands(),
            r.phase() == self.phase(),
            r.answers() == self.answers().push(answer),
    {
        let ghost before = self.answers@;
        let ghost after = before.push(answer);
        assert forall|i: int| 0 <= i < before.len() implies fatal_at(self.commands@, before, i) == fatal_at(
            self.commands@,
            after,
            i,
        ) by {}
        assert(self.aborted is None) by {
            if self.aborted is Some {
                assert(fatal_at(self.commands@, before, self.next - 1));
            }
        }
        let mut aborted: Option<RouteCommandError> = None;
        let index: usize = self.next;
        let total: usize = self.commands.len();
        if let Err(failure) = answer {
            if self.commands[index].fatal {
                let argv = &self.commands[index].argv;
                let program = if argv.len() > 0 {
                    argv[0].clone()
                } else {
                    String::new()
                };
                aborted = Some(RouteCommandError { program, index, total, failure });
            }
        }
        SetupRun { commands: self.commands, phase: self.phase, next: index + 1, aborted, answers: Ghost(after) }
    }

    /// The outcome of a run that is over: the fatal command that ended it, or
    /// success.
    pub fn finish(self) -> (r: Result<(), RouteCommandError>)
        requires
            self.wf(),
            setup_over(self.commands(), self.answers()),
        ensures
            r is Err <==> setup_aborted(self.commands(), self.answers()),
            r matches Err(e) ==> fatal_at(self.commands(), self.answers(), e.index as int) && is_abort_error(
                self.commands(),
                self.answers(),
                e.index as int,
                e,
            ),
    {
        match self.aborted {
            Some(e) => Err(e),
            None => {
                assert(!setup_aborted(self.commands@, self.answers@));
                Ok(())
            }
        }
    }
}

/// Setup stops at the first fatal failure: nothing has been issued after it, and
/// everything before it has.
pub proof fn setup_stops_at_the_first_fatal_failure(run: SetupRun, i: int)
    requires
        run.wf(),
        fatal_at(run.commands(), run.answers(), i),
    ensures
        i == run.answers().len() - 1,
{
}

/// A setup that is over without an error has issued every command, and each
/// fatal one succeeded.
pub proof fn a_successful_setup_ran_everything(run: SetupRun, i: int)
    requires
        run.wf(),
        setup_over(run.commands(), run.answers()),
        !setup_aborted(run.commands(), run.answers()),
        0 <= i < run.commands().len(),
    ensures
        run.answers().len() == run.commands().len(),
        run.commands()[i].fatal ==> run.answers()[i] is Ok,
{
    if run.commands()[i].fatal && run.answers()[i] is Err {
        assert(fatal_at(run.commands(), run.answers(), i));
    }
}

/// Start a setup phase: its commands are issued in order, up to the first fatal
/// one that fails.
pub fn run_setup_with(commands: Vec<SetupCommand>, phase: FatalPhase) -> (r: SetupRun)
    ensures
        r.wf(),
        r.commands() == commands@,
        r.phase() == phase,
        r.answers().len() == 0,
{
    SetupRun { commands, phase, next: 0, aborted: None, answers: Ghost(Seq::empty()) }
}

/// Start installing the split routes.
pub fn setup_routes(
    platform: Platform,
    tun_name: &str,
    server_ip: IpAddr,
    gateway: &GatewayInfo,
    tun_ipv6_available: bool,
) -> (r: SetupRun)
    ensures
        r.wf(),
        crate::routing::commands::setup_lines(r.commands()) == crate::routing::commands::setup_commands(
            platform,
            tun_name@,
            server_ip,
            gateway.gateway_ip.text(),
            gateway.interface_name@,
            tun_ipv6_available,
        ),
        r.phase() == FatalPhase::Setup,
        r.answers().len() == 0,
{
    let commands = build_setup_commands(platform, tun_name, server_ip, gateway, tun_ipv6_available);
    run_setup_with(commands, FatalPhase::Setup)
}

/// What a cleanup phase did. It has no error channel, so no caller can let one
/// failed deletion keep the others from being issued.
#[derive(Debug, Clone, Copy, PartialEq, Eq, Structural)]
pub struct CleanupReport {
    /// Commands issued: always all of them.
    pub attempted: usize,
    /// How many did not exit zero.
    pub failed: usize,
}

impl Default for CleanupReport {
    fn default() -> (r: Self)
        ensures
            r == (CleanupReport { attempted: 0, failed: 0 }),
    {
        CleanupReport { attempted: 0, failed: 0 }
    }
}

/// How many of the answers are failures.
pub open spec fn failures(answers: Answers) -> nat
    decreases answers.len(),
{
    if answers.len() == 0 {
        0
    } else {
        failures(answers.drop_last()) + if answers.last() is Err {
            1nat
        } else {
            0nat
        }
    }
}

/// A cleanup phase under way.
pub struct CleanupRun {
    commands: Vec<Vec<String>>,
    phase: BestEffortPhase,
    report: CleanupReport,
    answers: Ghost<Answers>,
}

impl CleanupRun {
    pub closed spec fn commands(self) -> Seq<Vec<String>> {
        self.commands@
    }

    /// The phase that every command is issued in.
    pub closed spec fn phase(self) -> BestEffortPhase {
        self.phase
    }

    pub closed spec fn answers(self) -> Answers {
        self.answers@
    }

    pub closed spec fn wf(self) -> bool {
        &&& self.report.attempted == self.answers@.len()
        &&& self.report.failed == failures(self.answers@)
        &&& self.answers@.len() <= self.commands@.len()
        &&& self.report.failed <= self.report.attempted
    }

    /// The command to issue now and the phase it is issued in, `None` when every
    /// command has been issued.
    pub fn next(&self) -> (r: Option<(&Vec<String>, BestEffortPhase)>)
        requires
            self.wf(),
        ensures
            r is None <==> self.answers().len() == self.commands().len(),
            r matches Some((argv, phase)) ==> self.answers().len() < self.commands().len() && *argv
                == self.commands()[self.answers().len() as int] && phase == self.phase(),
    {
        if self.report.attempted < self.commands.len() {
            Some((&self.commands[self.report.attempted], self.phase))
        } else {
            None
        }
    }

    /// Take the answer to the command that [`CleanupRun::next`] handed out.
    pub fn feed(self, answer: Result<(), CommandFailure>) -> (r: Self)
        requires
            self.wf(),
            self.answers().len() < self.commands().len(),
        ensures
            r.wf(),
            r.commands() == self.commands(),
            r.phase() == self.phase(),
            r.answers() == self.answers().push(answer),
    {
        let ghost after = self.answers@.push(answer);
        assert(after.drop_last() =~= self.answers@);
        let total: usize = self.commands.len();
        assert(self.report.attempted < total);
        let mut report = self.report;
        report.attempted = report.attempted + 1;
        if answer.is_err() {
            report.failed = report.failed + 1;
        }
        CleanupRun { commands: self.commands, phase: self.phase, report, answers: Ghost(after) }
    }

    /// The counts of a run that is over.
    pub fn finish(self) -> (r: CleanupReport)
        requires
            self.wf(),
            self.answers().len() == self.commands().len(),
        ensures
            r.attempted == self.commands().len(),
            r.failed == failures(self.answers()),
    {
        self.report
    }
}

/// Start a cleanup phase: every command is issued, whatever became of the others.
pub fn run_cleanup_with(commands: Vec<Vec<String>>, phase: BestEffortPhase) -> (r: CleanupRun)
    ensures
        r.wf(),
        r.commands() == commands@,
        r.phase() == phase,
        r.answers().len() == 0,
{
    CleanupRun { commands, phase, report: CleanupReport::default(), answers: Ghost(Seq::empty()) }
}

/// Start tearing the split routes and the server bypass down. Safe to run where
/// they do not exist.
pub fn teardown_routes(platform: Platform, tun_name: &str, server_ip: IpAddr, interface_name: &str) -> (r: CleanupRun)
    ensures
        r.wf(),
        crate::routing::commands::command_lines(r.commands()) == crate::routing::commands::teardown_commands(
            platform,
            tun_name@,
            server_ip,
            interface_name@,
        ),
        r.phase() == BestEffortPhase::Teardown,
        r.answers().len() == 0,
{
    let commands = build_teardown_commands(platform, tun_name, server_ip, interface_name);
    run_cleanup_with(commands, BestEffortPhase::Teardown)
}

} // verus!
