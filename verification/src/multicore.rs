//! Multi-core bring-up and runtime: the shared coordination state through
//! which the boot core wakes, directs and observes the secondary cores.
//!
//! The shared cells — per-core life-cycle states, published stack addresses,
//! hardware mailbox slots, workload counters, the global command word and
//! the shutdown flag — are atomics (or memory-mapped words) on the machine.
//! They are modelled here as one [`SmpState`] value, and every protocol step
//! is a verified transition on it: the boot core publishes a stack before it
//! writes a wake vector, a secondary core consumes its mailbox and reports
//! readiness, the run loop reads the command word and advances its workload
//! counter.  The shell owns the real shared memory, serializes access to it,
//! and performs each step by calling the functions here; the busy-waits
//! (wake budget, shutdown budget) are its loops around the read-only checks.

use vstd::prelude::*;

verus! {

use vstd::arithmetic::div_mod::{
    lemma_add_mod_noop,
    lemma_div_by_multiple,
    lemma_div_is_ordered,
    lemma_fundamental_div_mod_converse_mod,
    lemma_mod_division_less_than_divisor,
    lemma_small_mod,
};
use vstd::wrapping::u32_specs;
use crate::exceptions::ExceptionState;

/// Number of cores, the boot core included.
pub const MAX_CORES: usize = 4;

/// Base address of the secondary stack region (just above the boot core's
/// stack).
pub const STACK_BASE: u32 = 0x90000;

/// Stack bytes reserved per secondary core.
pub const STACK_SIZE: u32 = 0x10000;

/// Command word: no command issued.
pub const CMD_NONE: u32 = 0;

/// Command word: perform simulated computation.
pub const CMD_COMPUTE: u32 = 1;

/// Command word: idle, heartbeat only.
pub const CMD_IDLE: u32 = 2;

/// Command word: leave the run loop and stop.
pub const CMD_SHUTDOWN: u32 = 3;

/// Life cycle of one secondary core.  The boot core moves a slot from
/// `Offline` through `StackAssigned` to `Woken`; only the owning core moves
/// itself to `Ready`, `Running`, `ShuttingDown` and `Stopped`; `Stopped` is
/// terminal until a full reset.
#[derive(Clone, Copy, Debug, PartialEq, Eq, Structural)]
pub enum CoreState {
    Offline,
    StackAssigned,
    Woken,
    Ready,
    Running,
    ShuttingDown,
    Stopped,
}

/// The global command word's meaning, as the run loop reads it.
#[derive(Clone, Copy, Debug, PartialEq, Eq, Structural)]
pub enum Command {
    NoCommand,
    Compute,
    Idle,
    Shutdown,
}

/// What one run-loop iteration did.
#[derive(Clone, Copy, Debug, PartialEq, Eq, Structural)]
pub enum StepOutcome {
    /// A shutdown (command or flag) was observed; the core leaves the loop.
    ShutdownObserved,
    /// One workload unit was performed and accumulated.
    Computed,
    /// Idle, and this iteration is a low-frequency heartbeat.
    IdleHeartbeat,
    /// Idle, nothing to report.
    IdleQuiet,
    /// No recognized command; this iteration is a heartbeat.
    Heartbeat,
    /// No recognized command, nothing to report.
    Quiet,
}

/// Per-core identity, computed fresh from the hardware identification
/// registers the shell reads.
#[derive(Clone, Copy, Debug)]
pub struct CoreInfo {
    /// Core index; 0 is the boot core.
    pub id: u8,
    /// Current privilege level.
    pub el: u32,
    /// Hardware multiprocessor-affinity id.
    pub mpidr: u64,
    /// Assigned stack base, not yet known at identification time.
    pub stack_base: u32,
    /// Whether this is the boot core.
    pub is_primary: bool,
}

impl CoreInfo {
    /// Assemble a descriptor from the identification-register values read
    /// for the calling core.
    pub fn new(id: u8, el: u32, mpidr: u64) -> (info: CoreInfo)
        ensures
            info.id == id,
            info.el == el,
            info.mpidr == mpidr,
            info.stack_base == 0,
            info.is_primary == (id == 0),
    {
        CoreInfo { id, el, mpidr, stack_base: 0, is_primary: id == 0 }
    }
}

/// Mathematical view of the shared coordination state.
#[verifier::ext_equal]
pub struct SmpModel {
    /// Life-cycle state per core index.
    pub states: Seq<CoreState>,
    /// Published stack base per core; zero until published.
    pub stacks: Seq<u32>,
    /// Hardware mailbox slot per core: the wake entry address, zero when
    /// empty or consumed.
    pub mailboxes: Seq<u32>,
    /// Workload counter per core.
    pub workloads: Seq<u32>,
    /// The global command word.
    pub command: u32,
    /// The global hard-stop flag, distinct from the command word.
    pub shutdown: bool,
    /// The online-core count recorded at the end of bring-up.
    pub cores_online: u8,
}

/// The shared coordination state: one cell per core for life-cycle state,
/// published stack, mailbox and workload counter, plus the global command
/// word, shutdown flag and recorded online count.
pub struct SmpState {
    /// Life-cycle state per core index.
    pub core_states: [CoreState; 4],
    /// Published stack base per core; zero until published.
    pub core_stacks: [u32; 4],
    /// Hardware mailbox slot per core.
    pub mailboxes: [u32; 4],
    /// Workload counter per core.
    pub workloads: [u32; 4],
    /// The global command word.
    pub command: u32,
    /// The global hard-stop flag.
    pub shutdown: bool,
    /// The online-core count recorded at the end of bring-up.
    pub cores_online: u8,
}

impl View for SmpState {
    type V = SmpModel;

    open spec fn view(&self) -> SmpModel {
        SmpModel {
            states: self.core_states@,
            stacks: self.core_stacks@,
            mailboxes: self.mailboxes@,
            workloads: self.workloads@,
            command: self.command,
            shutdown: self.shutdown,
            cores_online: self.cores_online,
        }
    }
}

/// The fixed stack base published for secondary core `i`.
pub open spec fn spec_stack_base(i: int) -> u32 {
    (STACK_BASE + i * STACK_SIZE) as u32
}

/// Whether a core in state `s` has its readiness flag raised: it has
/// completed its own initialization and has not yet stopped.
pub open spec fn spec_core_ready_flag(s: CoreState) -> bool {
    s is Ready || s is Running || s is ShuttingDown
}

/// The command a raw word stands for; unrecognized words mean no command.
pub open spec fn spec_decode_command(w: u32) -> Command {
    if w == CMD_COMPUTE {
        Command::Compute
    } else if w == CMD_IDLE {
        Command::Idle
    } else if w == CMD_SHUTDOWN {
        Command::Shutdown
    } else {
        Command::NoCommand
    }
}

/// Decode the global command word.
pub fn decode_command(w: u32) -> (c: Command)
    ensures
        c == spec_decode_command(w),
{
    if w == CMD_COMPUTE {
        Command::Compute
    } else if w == CMD_IDLE {
        Command::Idle
    } else if w == CMD_SHUTDOWN {
        Command::Shutdown
    } else {
        Command::NoCommand
    }
}

/// Number of raised readiness flags among core indices below `n`.
pub open spec fn spec_ready_count_below(states: Seq<CoreState>, n: int) -> int
    decreases n,
{
    if n <= 0 {
        0
    } else {
        spec_ready_count_below(states, n - 1) + if spec_core_ready_flag(states[n - 1]) {
            1int
        } else {
            0int
        }
    }
}

/// Number of raised readiness flags over all four cores.
pub open spec fn spec_ready_count(states: Seq<CoreState>) -> int {
    spec_ready_count_below(states, MAX_CORES as int)
}

/// The readiness count over `n` slots lies between 0 and `n`.
pub proof fn lemma_ready_count_bound(states: Seq<CoreState>, n: int)
    requires
        n >= 0,
    ensures
        0 <= spec_ready_count_below(states, n) <= n,
    decreases n,
{
    if n > 0 {
        lemma_ready_count_bound(states, n - 1);
    }
}

/// The stack address a secondary core computes for itself: the published
/// base plus the per-core stack size (the stack top), or nothing while no
/// base is published for it.
pub open spec fn spec_secondary_stack(m: SmpModel, core_id: int) -> Option<u32> {
    if 1 <= core_id < 4 && m.stacks[core_id] != 0 {
        Some((m.stacks[core_id] + STACK_SIZE) as u32)
    } else {
        None
    }
}

/// Whether core `core_id` currently counts as online.
pub open spec fn spec_core_online(m: SmpModel, core_id: int) -> bool {
    0 <= core_id < 4 && spec_core_ready_flag(m.states[core_id])
}

impl SmpModel {
    /// Well-formedness: four slots of each kind; the boot core publishes no
    /// stack and has no mailbox; a published stack is the fixed per-core
    /// base; a slot that has left `Offline`, or whose mailbox holds a wake
    /// vector, has its stack published.  The last of these is the
    /// publish-before-wake ordering.
    pub open spec fn wf(self) -> bool {
        &&& self.states.len() == 4
        &&& self.stacks.len() == 4
        &&& self.mailboxes.len() == 4
        &&& self.workloads.len() == 4
        &&& self.stacks[0] == 0
        &&& self.mailboxes[0] == 0
        &&& forall|i: int|
            1 <= i < 4 ==> ((#[trigger] self.stacks[i]) == 0 || self.stacks[i]
                == spec_stack_base(i))
        &&& forall|i: int|
            1 <= i < 4 ==> ((#[trigger] self.mailboxes[i]) != 0 ==> self.stacks[i]
                == spec_stack_base(i))
        &&& forall|i: int|
            1 <= i < 4 ==> (!((#[trigger] self.states[i]) is Offline) ==> self.stacks[i]
                == spec_stack_base(i))
        &&& self.cores_online <= 4
    }

    /// The state at reset: the boot core ready, every secondary offline,
    /// nothing published, no command, one core online.
    pub open spec fn spec_initial() -> SmpModel {
        SmpModel {
            states: seq![
                CoreState::Ready,
                CoreState::Offline,
                CoreState::Offline,
                CoreState::Offline,
            ],
            stacks: seq![0u32, 0u32, 0u32, 0u32],
            mailboxes: seq![0u32, 0u32, 0u32, 0u32],
            workloads: seq![0u32, 0u32, 0u32, 0u32],
            command: CMD_NONE,
            shutdown: false,
            cores_online: 1,
        }
    }

    /// Storing a command word changes nothing else.
    pub open spec fn spec_send_command(self, command: u32) -> SmpModel {
        SmpModel { command, ..self }
    }

    /// Requesting shutdown raises the hard-stop flag and broadcasts the
    /// shutdown command.
    pub open spec fn spec_request_shutdown(self) -> SmpModel {
        SmpModel { shutdown: true, command: CMD_SHUTDOWN, ..self }
    }

    /// Recording the online count stores the current readiness count and
    /// changes nothing else.
    pub open spec fn spec_record_online(self) -> SmpModel {
        SmpModel { cores_online: spec_ready_count(self.states) as u8, ..self }
    }

    /// Waking core `i` with wake vector `entry`: the mailbox is written and
    /// the slot moves to `Woken`.
    pub open spec fn spec_wake(self, i: int, entry: u32) -> SmpModel {
        SmpModel {
            mailboxes: self.mailboxes.update(i, entry),
            states: self.states.update(i, CoreState::Woken),
            ..self
        }
    }

    /// Consuming a mailbox clears it.
    pub open spec fn spec_consume_mailbox(self, i: int) -> SmpModel {
        SmpModel { mailboxes: self.mailboxes.update(i, 0u32), ..self }
    }

    /// A core completing its own initialization raises its readiness flag.
    pub open spec fn spec_secondary_init(self, i: int) -> SmpModel {
        SmpModel { states: self.states.update(i, CoreState::Ready), ..self }
    }

    /// A core leaving the run loop parks itself: `ShuttingDown` becomes
    /// `Stopped` and its readiness flag falls.
    pub open spec fn spec_core_stop(self, i: int) -> SmpModel {
        SmpModel { states: self.states.update(i, CoreState::Stopped), ..self }
    }
}

impl SmpState {
    /// The shared state at reset.
    pub fn new() -> (s: SmpState)
        ensures
            s@ == SmpModel::spec_initial(),
            s@.wf(),
    {
        let s = SmpState {
            core_states: [
                CoreState::Ready,
                CoreState::Offline,
                CoreState::Offline,
                CoreState::Offline,
            ],
            core_stacks: [0u32, 0u32, 0u32, 0u32],
            mailboxes: [0u32, 0u32, 0u32, 0u32],
            workloads: [0u32, 0u32, 0u32, 0u32],
            command: CMD_NONE,
            shutdown: false,
            cores_online: 1,
        };
        proof {
            assert(s@.states =~= SmpModel::spec_initial().states);
            assert(s@.stacks =~= SmpModel::spec_initial().stacks);
            assert(s@.mailboxes =~= SmpModel::spec_initial().mailboxes);
            assert(s@.workloads =~= SmpModel::spec_initial().workloads);
            assert(s@ =~= SmpModel::spec_initial());
        }
        s
    }

    /// Publish a dedicated stack for every secondary core, before any of
    /// them is woken: each slot moves from `Offline` to `StackAssigned`
    /// with its fixed stack base recorded.
    #[verifier::loop_isolation(false)]
    pub fn assign_secondary_stacks(&mut self)
        requires
            old(self)@.wf(),
            forall|i: int| 1 <= i < 4 ==> (#[trigger] old(self)@.states[i]) is Offline,
        ensures
            final(self)@.wf(),
            forall|i: int| 1 <= i < 4 ==> (#[trigger] final(self)@.states[i]) is StackAssigned,
            forall|i: int|
                1 <= i < 4 ==> (#[trigger] final(self)@.stacks[i]) == spec_stack_base(i),
            final(self)@.states[0] == old(self)@.states[0],
            final(self)@.stacks[0] == old(self)@.stacks[0],
            final(self)@.mailboxes == old(self)@.mailboxes,
            final(self)@.workloads == old(self)@.workloads,
            final(self)@.command == old(self)@.command,
            final(self)@.shutdown == old(self)@.shutdown,
            final(self)@.cores_online == old(self)@.cores_online,
    {
        let mut i: usize = 1;
        while i < 4
            invariant
                1 <= i <= 4,
                forall|j: int|
                    1 <= j < i ==> (#[trigger] self@.stacks[j]) == spec_stack_base(j),
                forall|j: int| 1 <= j < i ==> (#[trigger] self@.states[j]) is StackAssigned,
                forall|j: int|
                    i <= j < 4 ==> (#[trigger] self@.stacks[j]) == old(self)@.stacks[j],
                forall|j: int|
                    i <= j < 4 ==> (#[trigger] self@.states[j]) == old(self)@.states[j],
                self@.stacks[0] == old(self)@.stacks[0],
                self@.states[0] == old(self)@.states[0],
                self@.mailboxes == old(self)@.mailboxes,
                self@.workloads == old(self)@.workloads,
                self@.command == old(self)@.command,
                self@.shutdown == old(self)@.shutdown,
                self@.cores_online == old(self)@.cores_online,
            decreases 4 - i,
        {
            let addr: u32 = STACK_BASE + (i as u32) * STACK_SIZE;
            self.core_stacks[i] = addr;
            self.core_states[i] = CoreState::StackAssigned;
            i = i + 1;
        }
    }

    /// Write the wake entry address into a secondary core's mailbox and
    /// mark it woken; the shell then signals the wake event.  An invalid
    /// core index (the boot core, or out of range) is refused without any
    /// change.  The slot must already have its stack published: a secondary
    /// core must never observe a wake vector before its stack.
    pub fn wake_secondary_core(&mut self, core_id: u8, entry_point: u32) -> (woken: bool)
        requires
            old(self)@.wf(),
            entry_point != 0,
            1 <= core_id < 4 ==> old(self)@.states[core_id as int] is StackAssigned,
        ensures
            final(self)@.wf(),
            woken == (1 <= core_id < 4),
            woken ==> final(self)@ == old(self)@.spec_wake(core_id as int, entry_point),
            !woken ==> final(self)@ == old(self)@,
    {
        if core_id == 0 || core_id >= 4 {
            return false;
        }
        let idx = core_id as usize;
        self.mailboxes[idx] = entry_point;
        self.core_states[idx] = CoreState::Woken;
        proof {
            assert(self@ =~= old(self)@.spec_wake(core_id as int, entry_point));
        }
        true
    }

    /// A parked secondary core reading its mailbox: the wake vector is
    /// returned and the slot cleared, as the hardware clears a consumed
    /// mailbox.  A non-zero vector proves the core's stack was published
    /// first.
    pub fn consume_mailbox(&mut self, core_id: u8) -> (entry: u32)
        requires
            old(self)@.wf(),
            1 <= core_id < 4,
        ensures
            final(self)@.wf(),
            entry == old(self)@.mailboxes[core_id as int],
            final(self)@ == old(self)@.spec_consume_mailbox(core_id as int),
            entry != 0 ==> old(self)@.stacks[core_id as int] == spec_stack_base(core_id as int),
    {
        let idx = core_id as usize;
        let entry = self.mailboxes[idx];
        self.mailboxes[idx] = 0;
        proof {
            assert(self@ =~= old(self)@.spec_consume_mailbox(core_id as int));
        }
        entry
    }

    /// The stack top a secondary core switches to: its published base plus
    /// the per-core stack size, or nothing while no base is published (an
    /// out-of-range index also has none).
    pub fn get_secondary_stack(&self, core_id: u8) -> (r: Option<u32>)
        requires
            self@.wf(),
        ensures
            r == spec_secondary_stack(self@, core_id as int),
            r matches Some(sp) ==> sp != 0,
    {
        if core_id > 0 && core_id < 4 {
            let base = self.core_stacks[core_id as usize];
            if base != 0 {
                return Some(base + STACK_SIZE);
            }
        }
        None
    }

    /// A woken secondary core initializes itself: it installs its own
    /// vector table, unmasks its interrupt source, and raises its readiness
    /// flag.  Only after all of that is the core available for commands.
    pub fn secondary_core_init(&mut self, cpu: &mut ExceptionState, core_id: u8)
        requires
            old(self)@.wf(),
            1 <= core_id < 4,
            old(self)@.states[core_id as int] is Woken,
        ensures
            final(self)@.wf(),
            final(self)@ == old(self)@.spec_secondary_init(core_id as int),
            final(cpu).vector_table_installed,
            !final(cpu).irq_masked,
    {
        crate::exceptions::init(cpu);
        crate::exceptions::enable_interrupts(cpu);
        self.core_states[core_id as usize] = CoreState::Ready;
        proof {
            assert(self@ =~= old(self)@.spec_secondary_init(core_id as int));
        }
    }

    /// Count the raised readiness flags, the boot core included.
    #[verifier::loop_isolation(false)]
    pub fn count_ready(&self) -> (n: u8)
        requires
            self@.wf(),
        ensures
            n as int == spec_ready_count(self@.states),
    {
        let mut n: u8 = 0;
        let mut i: usize = 0;
        while i < 4
            invariant
                i <= 4,
                n as int == spec_ready_count_below(self@.states, i as int),
                n <= i,
            decreases 4 - i,
        {
            let online = match self.core_states[i] {
                CoreState::Ready => true,
                CoreState::Running => true,
                CoreState::ShuttingDown => true,
                _ => false,
            };
            if online {
                n = n + 1;
            }
            i = i + 1;
        }
        n
    }

    /// Record the current readiness count as the online-core count, as the
    /// end of bring-up does.  Nothing else changes, so repeating the check
    /// returns the same count.
    pub fn record_online_count(&mut self)
        requires
            old(self)@.wf(),
        ensures
            final(self)@.wf(),
            final(self)@ == old(self)@.spec_record_online(),
    {
        proof {
            lemma_ready_count_bound(self@.states, 4);
        }
        let n = self.count_ready();
        self.cores_online = n;
        proof {
            assert(self@ =~= old(self)@.spec_record_online());
        }
    }

    /// The recorded online-core count.
    pub fn get_online_cores(&self) -> (n: u8)
        ensures
            n == self@.cores_online,
    {
        self.cores_online
    }

    /// Whether a core's readiness flag is currently raised; an out-of-range
    /// index is never online.
    pub fn is_core_online(&self, core_id: u8) -> (r: bool)
        ensures
            r == spec_core_online(self@, core_id as int),
    {
        if core_id < 4 {
            match self.core_states[core_id as usize] {
                CoreState::Ready => true,
                CoreState::Running => true,
                CoreState::ShuttingDown => true,
                _ => false,
            }
        } else {
            false
        }
    }

    /// Snapshot of all four workload counters, by plain loads: values may
    /// be stale by an update but are read exactly as stored.
    pub fn get_core_workload_stats(&self) -> (stats: [u32; 4])
        ensures
            stats@ == self@.workloads,
    {
        self.workloads
    }

    /// Store the global command word for every secondary core's next loop
    /// iteration; the shell follows this with the wake event signal.
    pub fn send_command_to_all_cores(&mut self, command: u32)
        requires
            old(self)@.wf(),
        ensures
            final(self)@.wf(),
            final(self)@ == old(self)@.spec_send_command(command),
    {
        self.command = command;
        proof {
            assert(self@ =~= old(self)@.spec_send_command(command));
        }
    }

    /// Broadcast the compute command.
    pub fn set_cores_compute_mode(&mut self)
        requires
            old(self)@.wf(),
        ensures
            final(self)@.wf(),
            final(self)@ == old(self)@.spec_send_command(CMD_COMPUTE),
    {
        self.send_command_to_all_cores(CMD_COMPUTE);
    }

    /// Broadcast the idle command.
    pub fn set_cores_idle_mode(&mut self)
        requires
            old(self)@.wf(),
        ensures
            final(self)@.wf(),
            final(self)@ == old(self)@.spec_send_command(CMD_IDLE),
    {
        self.send_command_to_all_cores(CMD_IDLE);
    }

    /// Initiate shutdown of the secondary cores: raise the hard-stop flag,
    /// then broadcast the shutdown command.  The bounded per-core wait for
    /// readiness flags to clear is the shell's loop around
    /// [`SmpState::is_core_online`].
    pub fn shutdown_secondary_cores(&mut self)
        requires
            old(self)@.wf(),
        ensures
            final(self)@.wf(),
            final(self)@ == old(self)@.spec_request_shutdown(),
    {
        self.shutdown = true;
        self.send_command_to_all_cores(CMD_SHUTDOWN);
        proof {
            assert(self@ =~= old(self)@.spec_request_shutdown());
        }
    }

    /// A core that observed shutdown parks itself: its readiness flag falls
    /// and its slot becomes `Stopped`, terminal until a full reset.
    pub fn core_stop(&mut self, core_id: u8)
        requires
            old(self)@.wf(),
            1 <= core_id < 4,
            old(self)@.states[core_id as int] is ShuttingDown,
        ensures
            final(self)@.wf(),
            final(self)@ == old(self)@.spec_core_stop(core_id as int),
    {
        self.core_states[core_id as usize] = CoreState::Stopped;
        proof {
            assert(self@ =~= old(self)@.spec_core_stop(core_id as int));
        }
    }

    /// One iteration of a secondary core's run loop: read the command word;
    /// on shutdown (command or the hard-stop flag) move to `ShuttingDown`
    /// and report that the loop must end; on compute, perform one workload
    /// unit, accumulate it into this core's counter and enter `Running`; on
    /// idle or an unrecognized command do no work, with an occasional
    /// heartbeat.  The hard-stop flag is checked after the work, as the loop
    /// does, so a final workload unit may land in the same iteration that
    /// observes it.  A stopped core stays stopped and ends the loop at once.
    pub fn run_loop_step(&mut self, core_id: u8, counter: u64) -> (r: (StepOutcome, bool))
        requires
            old(self)@.wf(),
            1 <= core_id < 4,
            old(self)@.states[core_id as int] is Ready || old(self)@.states[core_id as int]
                is Running || old(self)@.states[core_id as int] is Stopped,
        ensures
            final(self)@.wf(),
            final(self)@ == old(self)@.spec_run_step(core_id as int, counter).0,
            r.0 == old(self)@.spec_run_step(core_id as int, counter).1,
            r.1 == old(self)@.spec_run_step(core_id as int, counter).2,
    {
        let idx = core_id as usize;
        if self.core_states[idx] == CoreState::Stopped {
            return (StepOutcome::ShutdownObserved, false);
        }
        let cmd = decode_command(self.command);
        if cmd == Command::Shutdown {
            self.core_states[idx] = CoreState::ShuttingDown;
            proof {
                assert(self@ =~= old(self)@.spec_run_step(core_id as int, counter).0);
            }
            return (StepOutcome::ShutdownObserved, false);
        }
        let outcome = match cmd {
            Command::Compute => {
                let w = perform_computation(core_id, self.workloads[idx]);
                self.workloads[idx] = w;
                self.core_states[idx] = CoreState::Running;
                StepOutcome::Computed
            },
            Command::Idle => {
                if counter % 50_000_000 == 0 {
                    StepOutcome::IdleHeartbeat
                } else {
                    StepOutcome::IdleQuiet
                }
            },
            _ => {
                if counter % 10_000_000 == 0 {
                    StepOutcome::Heartbeat
                } else {
                    StepOutcome::Quiet
                }
            },
        };
        if self.shutdown {
            self.core_states[idx] = CoreState::ShuttingDown;
            proof {
                assert(self@ =~= old(self)@.spec_run_step(core_id as int, counter).0);
            }
            (outcome, false)
        } else {
            proof {
                assert(self@ =~= old(self)@.spec_run_step(core_id as int, counter).0);
            }
            (outcome, true)
        }
    }

    /// The observational workload report: nothing when fewer than two cores
    /// were brought online or no secondary core is online now; otherwise the
    /// mean workload over the online secondary cores and each online
    /// secondary core's absolute deviation from that mean.  It only reports;
    /// no work moves.
    #[verifier::loop_isolation(false)]
    pub fn balance_core_workload(&self) -> (r: Option<WorkloadReport>)
        requires
            self@.wf(),
        ensures
            (r is Some) == (self@.cores_online > 1 && spec_active_secondary(self@) > 0),
            r matches Some(rep) ==> {
                &&& rep.average as int == spec_total_workload(self@) / spec_active_secondary(
                    self@,
                )
                &&& forall|i: int|
                    0 <= i < 4 ==> (#[trigger] rep.deviations@[i]) as int == spec_deviation(
                        self@,
                        i,
                        rep.average as int,
                    )
            },
    {
        if self.cores_online <= 1 {
            return None;
        }
        let mut total: u64 = 0;
        let mut active: u32 = 0;
        let mut i: usize = 1;
        while i < 4
            invariant
                1 <= i <= 4,
                total as int == spec_total_workload_below(self@, i as int),
                active as int == spec_active_secondary_below(self@, i as int),
                active < i,
                total <= active as int * 0xffff_ffffu64,
            decreases 4 - i,
        {
            if self.is_core_online(i as u8) {
                total = total + self.workloads[i] as u64;
                active = active + 1;
            }
            i = i + 1;
        }
        if active == 0 {
            return None;
        }
        let avg64: u64 = total / active as u64;
        proof {
            lemma_div_is_ordered(total as int, active as int * 0xffff_ffff, active as int);
            lemma_div_by_multiple(0xffff_ffff, active as int);
            assert(active as int * 0xffff_ffff == 0xffff_ffff * active as int);
        }
        let average: u32 = avg64 as u32;
        let mut deviations: [u32; 4] = [0u32, 0u32, 0u32, 0u32];
        let mut i: usize = 1;
        while i < 4
            invariant
                1 <= i <= 4,
                average as int == spec_total_workload(self@) / spec_active_secondary(self@),
                forall|j: int|
                    0 <= j < i ==> (#[trigger] deviations@[j]) as int == spec_deviation(
                        self@,
                        j,
                        average as int,
                    ),
                forall|j: int| i <= j < 4 ==> (#[trigger] deviations@[j]) == 0,
            decreases 4 - i,
        {
            if self.is_core_online(i as u8) {
                let w = self.workloads[i];
                let dev = if w > average {
                    w - average
                } else {
                    average - w
                };
                deviations[i] = dev;
            }
            i = i + 1;
        }
        Some(WorkloadReport { average, deviations })
    }
}

/// The workload report [`SmpState::balance_core_workload`] computes: the
/// mean workload over the online secondary cores and, per core, the
/// absolute deviation from it (zero for the boot core and for cores not
/// online).
pub struct WorkloadReport {
    /// Mean workload of the online secondary cores.
    pub average: u32,
    /// Absolute deviation from the mean, per core index.
    pub deviations: [u32; 4],
}

/// Number of online secondary cores with index below `n`.
pub open spec fn spec_active_secondary_below(m: SmpModel, n: int) -> int
    decreases n,
{
    if n <= 1 {
        0
    } else {
        spec_active_secondary_below(m, n - 1) + if spec_core_ready_flag(m.states[n - 1]) {
            1int
        } else {
            0int
        }
    }
}

/// Number of online secondary cores.
pub open spec fn spec_active_secondary(m: SmpModel) -> int {
    spec_active_secondary_below(m, 4)
}

/// Sum of the workload counters of the online secondary cores with index
/// below `n`.
pub open spec fn spec_total_workload_below(m: SmpModel, n: int) -> int
    decreases n,
{
    if n <= 1 {
        0
    } else {
        spec_total_workload_below(m, n - 1) + if spec_core_ready_flag(m.states[n - 1]) {
            m.workloads[n - 1] as int
        } else {
            0int
        }
    }
}

/// Sum of the workload counters of the online secondary cores.
pub open spec fn spec_total_workload(m: SmpModel) -> int {
    spec_total_workload_below(m, 4)
}

/// An online secondary core's absolute deviation from the mean workload
/// `avg`; zero for any other core index.
pub open spec fn spec_deviation(m: SmpModel, i: int, avg: int) -> int {
    if 1 <= i < 4 && spec_core_ready_flag(m.states[i]) {
        if m.workloads[i] >= avg {
            m.workloads[i] - avg
        } else {
            avg - m.workloads[i]
        }
    } else {
        0
    }
}

/// Reduce an integer into the 32-bit unsigned range.
pub open spec fn wrap32(n: int) -> u32 {
    (n % 0x1_0000_0000) as u32
}

/// One step of the data-mixing chain the third core runs.
pub open spec fn spec_chaos_step(d: u32) -> u32 {
    wrap32(3 * d + 1)
}

/// `n` steps of the data-mixing chain from seed `d`.
pub open spec fn spec_chaos_iter(d: u32, n: nat) -> u32
    decreases n,
{
    if n == 0 {
        d
    } else {
        spec_chaos_step(spec_chaos_iter(d, (n - 1) as nat))
    }
}

/// Sum of the integers below `k`.
pub open spec fn spec_sum_below(k: nat) -> nat
    decreases k,
{
    if k == 0 {
        0
    } else {
        spec_sum_below((k - 1) as nat) + ((k - 1) as nat)
    }
}

/// Twice the sum of the integers below `k` is `k * (k - 1)`.
pub proof fn lemma_sum_below_closed(k: nat)
    ensures
        2 * spec_sum_below(k) == k * (k - 1),
    decreases k,
{
    if k > 0 {
        let km = (k - 1) as nat;
        lemma_sum_below_closed(km);
        let ki = k as int;
        assert(spec_sum_below(k) == spec_sum_below(km) + km);
        assert(2 * spec_sum_below(km) == km * (km - 1));
        assert(km * (km - 1) == (ki - 1) * (ki - 2)) by (nonlinear_arith)
            requires
                km == ki - 1,
        ;
        assert((ki - 1) * (ki - 2) + 2 * (ki - 1) == ki * (ki - 1)) by (nonlinear_arith);
        assert(2 * spec_sum_below(k) == 2 * spec_sum_below(km) + 2 * km);
    } else {
        assert(k * (k - 1) == 0) by (nonlinear_arith)
            requires
                k == 0,
        ;
    }
}

/// Adding `d` to an already-wrapped value and wrapping again equals
/// wrapping the whole sum once.
pub proof fn lemma_wrap32_add(x: int, d: u32)
    requires
        x >= 0,
    ensures
        u32_specs::wrapping_add(wrap32(x), d) == wrap32(x + d),
{
    let m: int = 0x1_0000_0000;
    lemma_mod_division_less_than_divisor(x, m);
    let a = x % m;
    lemma_add_mod_noop(x, d as int, m);
    lemma_small_mod(d as nat, m as nat);
    if a + d < m {
        lemma_small_mod((a + d) as nat, m as nat);
    } else {
        lemma_fundamental_div_mod_converse_mod(a + d, m, 1, a + d - m);
    }
}

/// The simulated work unit one compute iteration adds to a core's workload
/// counter: a fixed sum of per-iteration charges for the first and second
/// cores, the result of the data-mixing chain seeded with the current
/// counter for the third, and a single unit for any other index.
pub open spec fn spec_work_delta(core_id: int, cycles: u32) -> int {
    if core_id == 1 {
        499500
    } else if core_id == 2 {
        249500
    } else if core_id == 3 {
        spec_chaos_iter(cycles, 800) as int
    } else {
        1
    }
}

/// A compute iteration accumulates the core's work unit into its cycle
/// counter, wrapping at the 32-bit bound.
pub open spec fn spec_perform_computation(core_id: int, cycles: u32) -> u32 {
    wrap32(cycles + spec_work_delta(core_id, cycles))
}

/// Perform one simulated workload unit for `core_id` and accumulate it into
/// `cycles` (wrapping): the first core charges each of 1000 iterations its
/// index modulo 1000, the second sums 500 doubled indices, the third runs
/// its 800-step data-mixing chain, and any other index counts one unit.
#[verifier::loop_isolation(false)]
pub fn perform_computation(core_id: u8, cycles: u32) -> (r: u32)
    ensures
        r == spec_perform_computation(core_id as int, cycles),
{
    proof {
        lemma_small_mod(cycles as nat, 0x1_0000_0000 as nat);
    }
    match core_id {
        1 => {
            let mut c = cycles;
            let mut i: u32 = 0;
            while i < 1000
                invariant
                    i <= 1000,
                    c == wrap32(cycles + spec_sum_below(i as nat)),
                decreases 1000 - i,
            {
                proof {
                    assert((i as int) * (core_id as int) == i as int) by (nonlinear_arith)
                        requires
                            core_id as int == 1,
                    ;
                }
                let d = (i * (core_id as u32)) % 1000;
                proof {
                    lemma_wrap32_add(cycles + spec_sum_below(i as nat), d);
                }
                c = c.wrapping_add(d);
                i = i + 1;
            }
            proof {
                lemma_sum_below_closed(1000);
            }
            c
        },
        2 => {
            let mut sum: u32 = 0;
            let mut i: u32 = 0;
            while i < 500
                invariant
                    i <= 500,
                    sum as int == i * (i - 1),
                    sum <= 249500,
                decreases 500 - i,
            {
                let ghost ii = i as int;
                proof {
                    assert(ii * (ii - 1) + 2 * ii == (ii + 1) * ((ii + 1) - 1)) by (nonlinear_arith);
                    assert(ii * (ii - 1) + 2 * ii <= 500 * 499) by (nonlinear_arith)
                        requires
                            0 <= ii < 500,
                    ;
                }
                let d = i * 2;
                sum = sum.wrapping_add(d);
                i = i + 1;
            }
            proof {
                lemma_wrap32_add(cycles as int, sum);
            }
            cycles.wrapping_add(sum)
        },
        3 => {
            let mut data = cycles;
            let mut i: u32 = 0;
            while i < 800
                invariant
                    i <= 800,
                    data == spec_chaos_iter(cycles, i as nat),
                decreases 800 - i,
            {
                proof {
                    assert(u32_specs::wrapping_mul(data, 3) == wrap32(3 * data)) by {
                        assert((data as nat * 3 as nat) % (0x1_0000_0000 as nat) == (3 * data)
                            % 0x1_0000_0000);
                    }
                    lemma_wrap32_add(3 * (data as int), 1u32);
                    lemma_mod_division_less_than_divisor(3 * (data as int), 0x1_0000_0000);
                }
                data = data.wrapping_mul(3).wrapping_add(1);
                i = i + 1;
            }
            proof {
                lemma_wrap32_add(cycles as int, data);
            }
            cycles.wrapping_add(data)
        },
        _ => {
            proof {
                lemma_wrap32_add(cycles as int, 1u32);
            }
            cycles.wrapping_add(1)
        },
    }
}

impl SmpModel {
    /// The state and outcome of one run-loop iteration of core `core_id`;
    /// see [`SmpState::run_loop_step`].  The components are the state after
    /// the step, what the step did, and whether the loop continues.
    pub open spec fn spec_run_step(self, core_id: int, counter: u64) -> (SmpModel, StepOutcome, bool) {
        if self.states[core_id] is Stopped {
            (self, StepOutcome::ShutdownObserved, false)
        } else if spec_decode_command(self.command) is Shutdown {
            (
                SmpModel { states: self.states.update(core_id, CoreState::ShuttingDown), ..self },
                StepOutcome::ShutdownObserved,
                false,
            )
        } else {
            let worked = if spec_decode_command(self.command) is Compute {
                SmpModel {
                    states: self.states.update(core_id, CoreState::Running),
                    workloads: self.workloads.update(
                        core_id,
                        spec_perform_computation(core_id, self.workloads[core_id]),
                    ),
                    ..self
                }
            } else {
                self
            };
            let outcome = match spec_decode_command(self.command) {
                Command::Compute => StepOutcome::Computed,
                Command::Idle => if counter % 50_000_000 == 0 {
                    StepOutcome::IdleHeartbeat
                } else {
                    StepOutcome::IdleQuiet
                },
                _ => if counter % 10_000_000 == 0 {
                    StepOutcome::Heartbeat
                } else {
                    StepOutcome::Quiet
                },
            };
            if self.shutdown {
                (
                    SmpModel {
                        states: worked.states.update(core_id, CoreState::ShuttingDown),
                        ..worked
                    },
                    outcome,
                    false,
                )
            } else {
                (worked, outcome, true)
            }
        }
    }
}

/// Publish-before-wake: in any well-formed state, a non-zero wake vector in
/// a core's mailbox means that core's stack cell was already written, so the
/// stack pointer the core computes for itself exists and is never zero.
pub proof fn lemma_publish_before_wake(m: SmpModel, i: int)
    requires
        m.wf(),
        0 <= i < 4,
    ensures
        m.mailboxes[i] != 0 ==> m.stacks[i] == spec_stack_base(i),
        m.mailboxes[i] != 0 ==> (spec_secondary_stack(m, i) matches Some(sp) && sp != 0),
{
}

/// The readiness check is idempotent within one run: recording the online
/// count stores the current readiness count, changes no core state, and
/// recording again changes nothing at all, so repeated checks return the
/// same online count until some core's state moves.
pub proof fn lemma_readiness_check_idempotent(m: SmpModel)
    requires
        m.wf(),
    ensures
        m.spec_record_online().cores_online as int == spec_ready_count(m.states),
        m.spec_record_online().states == m.states,
        m.spec_record_online().spec_record_online() == m.spec_record_online(),
{
    lemma_ready_count_bound(m.states, 4);
    assert(m.spec_record_online().spec_record_online() =~= m.spec_record_online());
}

/// While a compute command is active, one run-loop step of a live core
/// never decreases that core's workload counter, short of the counter
/// wrapping at the 32-bit bound; under any other non-shutdown command the
/// counters stay exactly constant.
pub proof fn lemma_workload_monotone(m: SmpModel, i: int, counter: u64)
    requires
        m.workloads.len() == 4,
        0 <= i < 4,
        !(m.states[i] is Stopped),
        !(spec_decode_command(m.command) is Shutdown),
    ensures
        spec_decode_command(m.command) is Compute && m.workloads[i] + spec_work_delta(
            i,
            m.workloads[i],
        ) <= u32::MAX ==> m.spec_run_step(i, counter).0.workloads[i] >= m.workloads[i],
        !(spec_decode_command(m.command) is Compute) ==> m.spec_run_step(i, counter).0.workloads
            == m.workloads,
{
    if spec_decode_command(m.command) is Compute && m.workloads[i] + spec_work_delta(
        i,
        m.workloads[i],
    ) <= u32::MAX {
        lemma_small_mod((m.workloads[i] + spec_work_delta(i, m.workloads[i])) as nat, 0x1_0000_0000 as nat);
    }
}

/// A stopped core is terminal: broadcasting any command (compute included),
/// recording the online count, or requesting shutdown leaves it stopped,
/// and a run-loop step of the stopped core itself changes nothing; only a
/// full reset makes a fresh bring-up possible.
pub proof fn lemma_stopped_is_terminal(m: SmpModel, command: u32, i: int, counter: u64)
    requires
        m.states.len() == 4,
        0 <= i < 4,
        m.states[i] is Stopped,
    ensures
        m.spec_send_command(command).states[i] is Stopped,
        m.spec_send_command(command).spec_run_step(i, counter).0 == m.spec_send_command(command),
        m.spec_send_command(command).spec_run_step(i, counter).0.states[i] is Stopped,
        m.spec_request_shutdown().states[i] is Stopped,
        m.spec_record_online().states[i] is Stopped,
{
}

} // verus!

