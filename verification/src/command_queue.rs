//! The command queue: commands recorded in order, checked against the state
//! of the recording, and turned into the actions of one compute pass.
//!
//! Push constants may be written several times for one kernel. A write must
//! not overlap bytes that were written since the kernel was set or last
//! dispatched: setting a kernel and dispatching both clear the record of what
//! was written.

use vstd::prelude::*;
use std::collections::VecDeque;
use crate::bind_group::BindGroup;
use crate::context::{Context, Limits};
use crate::kernel::Kernel;
use crate::violation::{Violation, ViolationClass};
use crate::Range;

verus! {

/// Available commands to record in a command queue.
#[derive(Debug)]
#[allow(inconsistent_fields)]
pub enum Command<'a, S, P> {
    /// Set a kernel, to be able to set push constants and bind groups for it
    /// and to dispatch it.
    SetKernel { kernel: &'a Kernel<'a, S, P> },
    /// Write `data` to the push constants from the byte `offset` on.
    SetPushConstants { offset: u32, data: &'a [u8] },
    /// Set a bind group at the group index `index`.
    SetBindGroup { index: u32, bind_group: &'a BindGroup<S> },
    /// Dispatch the kernel that is set, with `workgroups` workgroups.
    Dispatch { workgroups: Range },
}

/// What the backend is told to do in the compute pass.
#[derive(Debug)]
#[allow(inconsistent_fields)]
pub enum PassAction<'a, S, P> {
    /// Set the pipeline of `kernel`.
    SetPipeline { kernel: &'a Kernel<'a, S, P> },
    /// Bind the resources of `bind_group` at the group index `index`.
    SetBindGroup { index: u32, bind_group: &'a BindGroup<S> },
    /// Write `data` to the push constants from the byte `offset` on.
    SetPushConstants { offset: u32, data: &'a [u8] },
    /// Dispatch the given numbers of workgroups.
    DispatchWorkgroups { x: u32, y: u32, z: u32 },
}

/// A command that was refused: its position in the queue, and why.
#[derive(Debug, Clone, Copy, PartialEq, Eq, Structural)]
pub struct Rejection {
    pub command: usize,
    pub violation: Violation,
}

/// Says whether two ranges of bytes, each from its first component up to its
/// second, have a byte in common.
pub open spec fn overlaps(a: (int, int), b: (int, int)) -> bool {
    a.0 < a.1 && b.0 < b.1 && a.0 < b.1 && b.0 < a.1
}

/// Says whether the range `range` has a byte in common with one of `written`.
pub open spec fn overlaps_any(written: Seq<(int, int)>, range: (int, int)) -> bool {
    exists|j: int| 0 <= j < written.len() && overlaps(#[trigger] written[j], range)
}

/// The bytes that a push-constant write of `len` bytes at `offset` fills.
pub open spec fn write_range(offset: u32, len: nat) -> (int, int) {
    (offset as int, offset + len)
}

/// The violation that `command` is, if any, when `kernel` is the kernel that
/// is set and `written` are the push-constant ranges written for it.
pub open spec fn violation_of<'a, S, P>(
    kernel: Option<&'a Kernel<'a, S, P>>,
    written: Seq<(int, int)>,
    limits: Limits,
    command: Command<'a, S, P>,
) -> Option<Violation> {
    match command {
        Command::SetKernel { .. } => None,
        Command::SetPushConstants { offset, data } => match kernel {
            None => Some(Violation::NoKernelBound),
            Some(kernel) => if offset % 4 != 0 || data@.len() % 4 != 0 {
                Some(Violation::PushConstantsMisaligned)
            } else if !kernel.declares(offset as int, offset + data@.len()) {
                Some(Violation::PushConstantsOutOfRange)
            } else if overlaps_any(written, write_range(offset, data@.len())) {
                Some(Violation::PushConstantsWrittenTwice)
            } else {
                None
            },
        },
        Command::SetBindGroup { index, bind_group } => match kernel {
            None => Some(Violation::NoKernelBound),
            Some(kernel) => if index < kernel.bind_groups().len()
                && kernel.bind_groups()[index as int].layout() == bind_group.layout() {
                None
            } else {
                Some(Violation::LayoutMismatch)
            },
        },
        Command::Dispatch { workgroups } => match kernel {
            None => Some(Violation::NoKernelBound),
            Some(_) => if workgroups.x > limits.max_compute_workgroups_per_dimension
                || workgroups.y > limits.max_compute_workgroups_per_dimension
                || workgroups.z > limits.max_compute_workgroups_per_dimension {
                Some(Violation::WorkgroupsExceedLimit)
            } else {
                None
            },
        },
    }
}

/// The kernel that is set after `command`, when `kernel` was set before it.
pub open spec fn next_kernel<'a, S, P>(
    kernel: Option<&'a Kernel<'a, S, P>>,
    command: Command<'a, S, P>,
) -> Option<&'a Kernel<'a, S, P>> {
    match command {
        Command::SetKernel { kernel: set } => Some(set),
        _ => kernel,
    }
}

/// The push-constant ranges on record after `command`, when `written` were on
/// record before it.
pub open spec fn next_written<'a, S, P>(
    written: Seq<(int, int)>,
    command: Command<'a, S, P>,
) -> Seq<(int, int)> {
    match command {
        Command::SetKernel { .. } => Seq::empty(),
        Command::SetPushConstants { offset, data } => written.push(
            write_range(offset, data@.len()),
        ),
        Command::SetBindGroup { .. } => written,
        Command::Dispatch { .. } => Seq::empty(),
    }
}

/// The actions that bind the bind groups of `kernel`, each at its group
/// index.
pub open spec fn bind_actions<'a, S, P>(kernel: &'a Kernel<'a, S, P>) -> Seq<
    PassAction<'a, S, P>,
> {
    Seq::new(
        kernel.bind_groups().len(),
        |i: int| PassAction::SetBindGroup { index: i as u32, bind_group: kernel.bind_groups()[i] },
    )
}

/// The actions that a command stands for. Setting a kernel sets its pipeline
/// and binds each of its bind groups at its group index.
pub open spec fn actions_of<'a, S, P>(command: Command<'a, S, P>) -> Seq<PassAction<'a, S, P>> {
    match command {
        Command::SetKernel { kernel } => seq![PassAction::SetPipeline { kernel }] + bind_actions(
            kernel,
        ),
        Command::SetPushConstants { offset, data } => seq![
            PassAction::SetPushConstants { offset, data },
        ],
        Command::SetBindGroup { index, bind_group } => seq![
            PassAction::SetBindGroup { index, bind_group },
        ],
        Command::Dispatch { workgroups } => seq![
            PassAction::DispatchWorkgroups { x: workgroups.x, y: workgroups.y, z: workgroups.z },
        ],
    }
}

/// The kernel that is set after the first `n` of `commands`.
pub open spec fn kernel_after<'a, S, P>(commands: Seq<Command<'a, S, P>>, n: int) -> Option<
    &'a Kernel<'a, S, P>,
>
    decreases n,
{
    if n <= 0 {
        None
    } else {
        next_kernel(kernel_after(commands, n - 1), commands[n - 1])
    }
}

/// The push-constant ranges on record after the first `n` of `commands`.
pub open spec fn written_after<'a, S, P>(commands: Seq<Command<'a, S, P>>, n: int) -> Seq<
    (int, int),
>
    decreases n,
{
    if n <= 0 {
        Seq::empty()
    } else {
        next_written(written_after(commands, n - 1), commands[n - 1])
    }
}

/// The actions that the first `n` of `commands` stand for, in order.
pub open spec fn plan_of<'a, S, P>(commands: Seq<Command<'a, S, P>>, n: int) -> Seq<
    PassAction<'a, S, P>,
>
    decreases n,
{
    if n <= 0 {
        Seq::empty()
    } else {
        plan_of(commands, n - 1) + actions_of(commands[n - 1])
    }
}

/// The violation that the command at the position `i` of `commands` is, if
/// any, in the state that the commands before it leave.
pub open spec fn violation_at<'a, S, P>(
    commands: Seq<Command<'a, S, P>>,
    limits: Limits,
    i: int,
) -> Option<Violation> {
    violation_of(kernel_after(commands, i), written_after(commands, i), limits, commands[i])
}

/// Says whether none of `commands` is a violation.
pub open spec fn valid<'a, S, P>(commands: Seq<Command<'a, S, P>>, limits: Limits) -> bool {
    forall|i: int| 0 <= i < commands.len() ==> violation_at(commands, limits, i) is None
}

/// Says whether `rejection` reports the first of `commands` that is a
/// violation.
pub open spec fn is_first_violation<'a, S, P>(
    commands: Seq<Command<'a, S, P>>,
    limits: Limits,
    rejection: Rejection,
) -> bool {
    &&& rejection.command < commands.len()
    &&& violation_at(commands, limits, rejection.command as int) == Some(rejection.violation)
    &&& forall|j: int| 0 <= j < rejection.command ==> violation_at(commands, limits, j) is None
}

/// Says whether `outcome` is what executing `commands` gives: the actions
/// that they stand for if none of them is a violation, and the first that is
/// one otherwise.
pub open spec fn executes_to<'a, S, P>(
    commands: Seq<Command<'a, S, P>>,
    limits: Limits,
    outcome: Result<Vec<PassAction<'a, S, P>>, Rejection>,
) -> bool {
    match outcome {
        Ok(plan) => valid(commands, limits) && plan@ == plan_of(commands, commands.len() as int),
        Err(rejection) => is_first_violation(commands, limits, rejection),
    }
}

/// A compute pass that is being recorded: the kernel that is set, the
/// push-constant ranges written for it, and the actions recorded so far.
#[derive(Debug)]
pub struct ComputePass<'a, S, P> {
    limits: Limits,
    kernel: Option<&'a Kernel<'a, S, P>>,
    written: Vec<(u32, u32)>,
    actions: Vec<PassAction<'a, S, P>>,
}

/// Appends to `actions` the actions that bind the bind groups of `kernel`.
fn push_bind_actions<'a, S, P>(
    actions: &mut Vec<PassAction<'a, S, P>>,
    kernel: &'a Kernel<'a, S, P>,
)
    ensures
        final(actions)@ == old(actions)@ + bind_actions(kernel),
{
    let ghost before = actions@;
    let count: u32 = kernel.bind_group_count();
    let mut i: u32 = 0;
    while i < count
        invariant
            i <= count,
            count == kernel.bind_groups().len(),
            actions@.len() == before.len() + i,
            forall|j: int| 0 <= j < before.len() ==> actions@[j] == before[j],
            forall|j: int|
                before.len() <= j < before.len() + i ==> actions@[j] == bind_actions(kernel)[j
                    - before.len()],
        decreases count - i,
    {
        actions.push(PassAction::SetBindGroup { index: i, bind_group: kernel.bind_group(i) });
        i += 1;
    }
    assert(actions@ =~= before + bind_actions(kernel));
}

impl<'a, S, P> ComputePass<'a, S, P> {
    /// The limits of the device.
    pub closed spec fn limits(&self) -> Limits {
        self.limits
    }

    /// The kernel that is set.
    pub closed spec fn kernel(&self) -> Option<&'a Kernel<'a, S, P>> {
        self.kernel
    }

    /// The push-constant ranges written since the kernel was set or last
    /// dispatched.
    pub closed spec fn written(&self) -> Seq<(int, int)> {
        Seq::new(
            self.written@.len(),
            |j: int| (self.written@[j].0 as int, self.written@[j].1 as int),
        )
    }

    /// The actions recorded so far.
    pub closed spec fn actions(&self) -> Seq<PassAction<'a, S, P>> {
        self.actions@
    }

    /// Begins a pass in which no kernel is set and nothing is recorded.
    pub fn new(limits: Limits) -> (r: Self)
        ensures
            r.limits() == limits,
            r.kernel() is None,
            r.written() == Seq::<(int, int)>::empty(),
            r.actions() == Seq::<PassAction<'a, S, P>>::empty(),
    {
        let pass = ComputePass { limits, kernel: None, written: Vec::new(), actions: Vec::new() };
        assert(pass.written() =~= Seq::<(int, int)>::empty());
        pass
    }

    /// Says whether a write of the bytes from `start` up to `end` overlaps
    /// one on record.
    fn overlaps_written(&self, start: u32, end: u32) -> (r: bool)
        ensures
            r == overlaps_any(self.written(), (start as int, end as int)),
    {
        let mut j: usize = 0;
        while j < self.written.len()
            invariant
                j <= self.written@.len(),
                forall|k: int|
                    0 <= k < j ==> !overlaps(
                        #[trigger] self.written()[k],
                        (start as int, end as int),
                    ),
            decreases self.written@.len() - j,
        {
            let (a, b) = self.written[j];
            if a < b && start < end && a < end && start < b {
                assert(overlaps(self.written()[j as int], (start as int, end as int)));
                return true;
            }
            j += 1;
        }
        false
    }

    /// Records `command` if it is valid in the state of the pass, and says
    /// which violation it is if it is not; the pass is then as it was.
    pub fn execute(&mut self, command: &Command<'a, S, P>) -> (r: Result<(), Violation>)
        ensures
            r == match violation_of(
                old(self).kernel(),
                old(self).written(),
                old(self).limits(),
                *command,
            ) {
                Some(violation) => Err::<(), Violation>(violation),
                None => Ok::<(), Violation>(()),
            },
            final(self).limits() == old(self).limits(),
            r is Ok ==> final(self).kernel() == next_kernel(old(self).kernel(), *command),
            r is Ok ==> final(self).written() == next_written(old(self).written(), *command),
            r is Ok ==> final(self).actions() == old(self).actions() + actions_of(*command),
            r is Err ==> final(self).kernel() == old(self).kernel(),
            r is Err ==> final(self).written() == old(self).written(),
            r is Err ==> final(self).actions() == old(self).actions(),
    {
        match *command {
            Command::SetKernel { kernel } => {
                self.kernel = Some(kernel);
                self.written = Vec::new();
                self.actions.push(PassAction::SetPipeline { kernel });
                push_bind_actions(&mut self.actions, kernel);
                assert(self.written() =~= Seq::<(int, int)>::empty());
                assert(self.actions@ =~= old(self).actions@ + actions_of(*command));
                Ok(())
            },
            Command::SetPushConstants { offset, data } => {
                let kernel = match self.kernel {
                    None => {
                        return Err(Violation::NoKernelBound);
                    },
                    Some(kernel) => kernel,
                };
                let len: usize = data.len();
                if offset % 4 != 0 || len % 4 != 0 {
                    return Err(Violation::PushConstantsMisaligned);
                }
                let (start, end) = match kernel.push_constants_bounds() {
                    None => {
                        return Err(Violation::PushConstantsOutOfRange);
                    },
                    Some(bounds) => bounds,
                };
                if offset < start || offset > end || len > (end - offset) as usize {
                    return Err(Violation::PushConstantsOutOfRange);
                }
                let write_end: u32 = offset + len as u32;
                if self.overlaps_written(offset, write_end) {
                    return Err(Violation::PushConstantsWrittenTwice);
                }
                self.written.push((offset, write_end));
                self.actions.push(PassAction::SetPushConstants { offset, data });
                assert(self.written() =~= next_written(old(self).written(), *command));
                assert(self.actions@ =~= old(self).actions@ + actions_of(*command));
                Ok(())
            },
            Command::SetBindGroup { index, bind_group } => {
                let kernel = match self.kernel {
                    None => {
                        return Err(Violation::NoKernelBound);
                    },
                    Some(kernel) => kernel,
                };
                if index >= kernel.bind_group_count() || !kernel.bind_group(index).same_layout(
                    bind_group,
                ) {
                    return Err(Violation::LayoutMismatch);
                }
                self.actions.push(PassAction::SetBindGroup { index, bind_group });
                assert(self.actions@ =~= old(self).actions@ + actions_of(*command));
                Ok(())
            },
            Command::Dispatch { workgroups } => {
                if self.kernel.is_none() {
                    return Err(Violation::NoKernelBound);
                }
                let max: u32 = self.limits.max_compute_workgroups_per_dimension;
                if workgroups.x > max || workgroups.y > max || workgroups.z > max {
                    return Err(Violation::WorkgroupsExceedLimit);
                }
                self.written = Vec::new();
                self.actions.push(
                    PassAction::DispatchWorkgroups {
                        x: workgroups.x,
                        y: workgroups.y,
                        z: workgroups.z,
                    },
                );
                assert(self.written() =~= Seq::<(int, int)>::empty());
                assert(self.actions@ =~= old(self).actions@ + actions_of(*command));
                Ok(())
            },
        }
    }

    /// Ends the pass and gives the actions recorded in it.
    pub fn finish(self) -> (r: Vec<PassAction<'a, S, P>>)
        ensures
            r@ == self.actions(),
    {
        self.actions
    }
}

/// Queue that holds commands and executes them in the order in which they
/// were recorded.
#[derive(Debug)]
pub struct CommandQueue<'a, S, P> {
    limits: Limits,
    cmd_queue: VecDeque<Command<'a, S, P>>,
}

impl<'a, S, P> CommandQueue<'a, S, P> {
    /// The limits of the device that the queue was created for.
    pub closed spec fn limits(&self) -> Limits {
        self.limits
    }

    /// The commands recorded so far, in order.
    pub closed spec fn commands(&self) -> Seq<Command<'a, S, P>> {
        self.cmd_queue@
    }

    /// Creates an empty command queue for the device of `context`.
    pub fn new(context: &Context) -> (r: Self)
        ensures
            r.limits() == context.limits(),
            r.commands() == Seq::<Command<'a, S, P>>::empty(),
    {
        CommandQueue { limits: context.limits(), cmd_queue: VecDeque::new() }
    }

    /// Creates an empty command queue for a device with the limits `limits`.
    pub(crate) fn with_limits(limits: Limits) -> (r: Self)
        ensures
            r.limits() == limits,
            r.commands() == Seq::<Command<'a, S, P>>::empty(),
    {
        CommandQueue { limits, cmd_queue: VecDeque::new() }
    }

    /// Enqueues setting a kernel. The kernel is not dispatched by this: see
    /// `enqueue_dispatch`.
    pub fn enqueue_set_kernel(self, kernel: &'a Kernel<'a, S, P>) -> (r: Self)
        ensures
            r.limits() == self.limits(),
            r.commands() == self.commands().push(Command::SetKernel { kernel }),
    {
        let mut queue = self;
        queue.cmd_queue.push_back(Command::SetKernel { kernel });
        queue
    }

    /// Enqueues writing `data` to the push constants from the byte `offset`
    /// on. Both `offset` and the length of `data` must be multiples of 4.
    pub fn enqueue_set_push_constants(self, offset: u32, data: &'a [u8]) -> (r: Self)
        ensures
            r.limits() == self.limits(),
            r.commands() == self.commands().push(Command::SetPushConstants { offset, data }),
    {
        let mut queue = self;
        queue.cmd_queue.push_back(Command::SetPushConstants { offset, data });
        queue
    }

    /// Enqueues setting a bind group at the group index `index`. The bind
    /// group must have the layout of the one that the kernel was built with
    /// at that index.
    pub fn enqueue_set_bind_group(self, index: u32, bind_group: &'a BindGroup<S>) -> (r: Self)
        ensures
            r.limits() == self.limits(),
            r.commands() == self.commands().push(Command::SetBindGroup { index, bind_group }),
    {
        let mut queue = self;
        queue.cmd_queue.push_back(Command::SetBindGroup { index, bind_group });
        queue
    }

    /// Enqueues a dispatch of the kernel that is set. No dimension of
    /// `workgroups` may exceed the device's
    /// `max_compute_workgroups_per_dimension`.
    pub fn enqueue_dispatch(self, workgroups: Range) -> (r: Self)
        ensures
            r.limits() == self.limits(),
            r.commands() == self.commands().push(Command::Dispatch { workgroups }),
    {
        let mut queue = self;
        queue.cmd_queue.push_back(Command::Dispatch { workgroups });
        queue
    }

    /// Executes the commands recorded in the queue: replays them in order
    /// into one compute pass and gives the actions of that pass, for the
    /// backend to carry out as one unit of work. If a command is a violation,
    /// nothing is to be carried out: the first such command is reported.
    pub fn execute(self) -> (r: Result<Vec<PassAction<'a, S, P>>, Rejection>)
        ensures
            executes_to(self.commands(), self.limits(), r),
    {
        let total: usize = self.cmd_queue.len();
        let mut pass: ComputePass<'a, S, P> = ComputePass::new(self.limits);
        let mut position: usize = 0;
        while position < total
            invariant
                position <= total,
                total == self.commands().len(),
                pass.limits() == self.limits(),
                pass.kernel() == kernel_after(self.commands(), position as int),
                pass.written() == written_after(self.commands(), position as int),
                pass.actions() == plan_of(self.commands(), position as int),
                forall|j: int|
                    0 <= j < position ==> violation_at(self.commands(), self.limits(), j) is None,
            decreases total - position,
        {
            match pass.execute(&self.cmd_queue[position]) {
                Err(violation) => {
                    return Err(Rejection { command: position, violation });
                },
                Ok(()) => {},
            }
            position += 1;
        }
        Ok(pass.finish())
    }
}

/// Executing a queue has one outcome: no queue is both valid and refused,
/// and the command that a refusal reports is determined by the queue.
pub proof fn lemma_first_violation_is_unique<'a, S, P>(
    commands: Seq<Command<'a, S, P>>,
    limits: Limits,
    first: Rejection,
    second: Rejection,
)
    requires
        is_first_violation(commands, limits, first),
        is_first_violation(commands, limits, second),
    ensures
        first == second,
        !valid(commands, limits),
{
    if first.command < second.command {
        assert(violation_at(commands, limits, first.command as int) is None);
    }
    if second.command < first.command {
        assert(violation_at(commands, limits, second.command as int) is None);
    }
}

/// A queue in which push constants, a bind group or a dispatch is recorded
/// before any kernel is set is refused with a sequencing violation: executing
/// it reports its first command, for which no kernel is bound.
pub proof fn lemma_command_before_kernel_is_refused<'a, S, P>(
    commands: Seq<Command<'a, S, P>>,
    limits: Limits,
    i: int,
)
    requires
        0 <= i < commands.len(),
        !(commands[i] is SetKernel),
        forall|j: int| 0 <= j < i ==> !(#[trigger] commands[j] is SetKernel),
    ensures
        !valid(commands, limits),
        forall|outcome: Result<Vec<PassAction<'a, S, P>>, Rejection>| #[trigger]
            executes_to(commands, limits, outcome) ==> outcome == Err::<
                Vec<PassAction<'a, S, P>>,
                Rejection,
            >(Rejection { command: 0, violation: Violation::NoKernelBound }),
        Violation::NoKernelBound.spec_class() == ViolationClass::Sequencing,
{
    let first = Rejection { command: 0, violation: Violation::NoKernelBound };
    assert(!(commands[0] is SetKernel));
    assert(kernel_after(commands, 0) is None);
    assert(violation_at(commands, limits, 0) == Some(Violation::NoKernelBound));
    assert(is_first_violation(commands, limits, first));
    assert forall|outcome: Result<Vec<PassAction<'a, S, P>>, Rejection>| #[trigger]
        executes_to(commands, limits, outcome) implies outcome == Err::<
        Vec<PassAction<'a, S, P>>,
        Rejection,
    >(first) by {
        match outcome {
            Ok(_) => {},
            Err(rejection) => {
                lemma_first_violation_is_unique(commands, limits, rejection, first);
            },
        }
    }
}

/// A queue in which a bind group is set whose layout differs from the one
/// that the kernel then bound has at that index is refused. If the commands
/// before it are valid, executing the queue reports that command as a layout
/// mismatch, which is a binding-contract violation.
pub proof fn lemma_mismatched_bind_group_is_refused<'a, S, P>(
    commands: Seq<Command<'a, S, P>>,
    limits: Limits,
    i: int,
)
    requires
        0 <= i < commands.len() <= usize::MAX,
        kernel_after(commands, i) is Some,
        commands[i] is SetBindGroup,
        commands[i]->index < kernel_after(commands, i).unwrap().bind_groups().len(),
        kernel_after(commands, i).unwrap().bind_groups()[commands[i]->index as int].layout()
            != commands[i]->bind_group.layout(),
    ensures
        !valid(commands, limits),
        (forall|j: int| 0 <= j < i ==> violation_at(commands, limits, j) is None) ==> forall|
            outcome: Result<Vec<PassAction<'a, S, P>>, Rejection>,
        | #[trigger]
            executes_to(commands, limits, outcome) ==> outcome == Err::<
                Vec<PassAction<'a, S, P>>,
                Rejection,
            >(Rejection { command: i as usize, violation: Violation::LayoutMismatch }),
        Violation::LayoutMismatch.spec_class() == ViolationClass::BindingContract,
{
    let refused = Rejection { command: i as usize, violation: Violation::LayoutMismatch };
    assert(violation_at(commands, limits, i) == Some(Violation::LayoutMismatch));
    if forall|j: int| 0 <= j < i ==> violation_at(commands, limits, j) is None {
        assert(is_first_violation(commands, limits, refused));
        assert forall|outcome: Result<Vec<PassAction<'a, S, P>>, Rejection>| #[trigger]
            executes_to(commands, limits, outcome) implies outcome == Err::<
            Vec<PassAction<'a, S, P>>,
            Rejection,
        >(refused) by {
            match outcome {
                Ok(_) => {},
                Err(rejection) => {
                    lemma_first_violation_is_unique(commands, limits, rejection, refused);
                },
            }
        }
    }
}

} // verus!
