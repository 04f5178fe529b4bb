//! Kernels: a compiled pipeline with the bind groups and the push-constant
//! range that it was built for.

use vstd::prelude::*;
use crate::bind_group::{BindGroup, BindGroupLayoutEntry, ShaderStages};
use crate::command_queue::{
    bind_actions, executes_to, kernel_after, plan_of, violation_at, written_after, Command,
    CommandQueue, PassAction, Rejection,
};
use crate::context::{Context, Limits};
use crate::violation::Violation;
use crate::Range;

verus! {

/// A range of push-constant bytes and the stages that see it.
#[derive(Debug, PartialEq, Eq)]
pub struct PushConstantRange {
    pub stages: ShaderStages,
    pub range: core::ops::Range<u32>,
}

/// The layout of a pipeline: the layouts of its bind groups, by group index,
/// and its push-constant ranges.
#[derive(Debug)]
pub struct PipelineLayout<'a> {
    pub bind_group_layouts: Vec<&'a Vec<BindGroupLayoutEntry>>,
    pub push_constant_ranges: Vec<PushConstantRange>,
}

/// Provides the info required to build a kernel.
#[derive(Debug)]
pub struct KernelInfo<'i, 'a, S> {
    /// Function of the program that will run when the kernel is dispatched.
    pub entry_point: &'i str,
    /// The bind groups that hold the buffers, images and samplers to be used
    /// in the kernel. The position of a bind group is its group index.
    pub bind_groups: &'i [&'a BindGroup<S>],
    /// Range of a small amount of data that can be cheaply changed on every
    /// dispatch.
    pub push_constants_range: Option<core::ops::Range<u32>>,
}

impl<'i, 'a, S> KernelInfo<'i, 'a, S> {
    /// The violation that building a kernel with this info on the device of
    /// `context` would be, if any: push constants on a device without the
    /// feature, or a push-constant range that ends after the device's limit.
    pub open spec fn violation(&self, context: &Context) -> Option<Violation> {
        match self.push_constants_range {
            None => None,
            Some(range) => if !context.features().push_constants {
                Some(Violation::PushConstantsUnsupported)
            } else if range.end > context.limits().max_push_constant_size {
                Some(Violation::PushConstantsTooLarge)
            } else {
                None
            },
        }
    }

    /// Checks the info against what the device of `context` declared.
    pub fn validate(&self, context: &Context) -> (r: Result<(), Violation>)
        ensures
            r == match self.violation(context) {
                Some(violation) => Err::<(), Violation>(violation),
                None => Ok::<(), Violation>(()),
            },
    {
        match &self.push_constants_range {
            None => Ok(()),
            Some(range) => {
                if !context.features().push_constants {
                    Err(Violation::PushConstantsUnsupported)
                } else if range.end > context.limits().max_push_constant_size {
                    Err(Violation::PushConstantsTooLarge)
                } else {
                    Ok(())
                }
            },
        }
    }

    /// Derives the layout of the pipeline: the layouts of the bind groups in
    /// the given order, and the push-constant range, if there is one, for the
    /// compute stage.
    pub fn pipeline_layout(&self) -> (r: PipelineLayout<'a>)
        ensures
            r.bind_group_layouts@.len() == self.bind_groups@.len(),
            forall|i: int|
                0 <= i < self.bind_groups@.len() ==> (#[trigger] r.bind_group_layouts@[i])@
                    == self.bind_groups@[i].layout(),
            match self.push_constants_range {
                None => r.push_constant_ranges@.len() == 0,
                Some(range) => r.push_constant_ranges@.len() == 1
                    && r.push_constant_ranges@[0].stages == ShaderStages::spec_compute()
                    && r.push_constant_ranges@[0].range == range,
            },
    {
        let mut layouts: Vec<&'a Vec<BindGroupLayoutEntry>> = Vec::new();
        let mut i: usize = 0;
        while i < self.bind_groups.len()
            invariant
                i <= self.bind_groups@.len(),
                layouts@.len() == i,
                forall|j: int|
                    0 <= j < i ==> (#[trigger] layouts@[j])@ == self.bind_groups@[j].layout(),
            decreases self.bind_groups@.len() - i,
        {
            let bind_group: &'a BindGroup<S> = self.bind_groups[i];
            layouts.push(bind_group.layout_entries());
            i += 1;
        }
        let mut push_constant_ranges: Vec<PushConstantRange> = Vec::new();
        match &self.push_constants_range {
            None => {},
            Some(range) => {
                push_constant_ranges.push(
                    PushConstantRange {
                        stages: ShaderStages::compute(),
                        range: range.start..range.end,
                    },
                );
            },
        }
        PipelineLayout { bind_group_layouts: layouts, push_constant_ranges }
    }
}

/// Program that executes on the device: a pipeline of the backend, of type
/// `P`, with the bind groups that it binds when it is set, the push-constant
/// range that it declares, and the limits of the device it was built for.
#[derive(Debug)]
pub struct Kernel<'a, S, P> {
    pipeline: P,
    bind_groups: Vec<&'a BindGroup<S>>,
    push_constants_range: Option<core::ops::Range<u32>>,
    limits: Limits,
}

impl<'a, S, P> Kernel<'a, S, P> {
    #[verifier::type_invariant]
    spec fn inv(&self) -> bool {
        self.bind_groups@.len() <= u32::MAX
    }

    /// The pipeline of the backend.
    pub closed spec fn pipeline(&self) -> P {
        self.pipeline
    }

    /// The bind groups of the kernel, by group index.
    pub closed spec fn bind_groups(&self) -> Seq<&'a BindGroup<S>> {
        self.bind_groups@
    }

    /// The push-constant range that the kernel declares.
    pub closed spec fn push_constants_range(&self) -> Option<core::ops::Range<u32>> {
        self.push_constants_range
    }

    /// The limits of the device that the kernel was built for.
    pub closed spec fn limits(&self) -> Limits {
        self.limits
    }

    /// Says whether the kernel declares the push-constant bytes from `start`
    /// up to `end`.
    pub open spec fn declares(&self, start: int, end: int) -> bool {
        match self.push_constants_range() {
            None => false,
            Some(range) => range.start <= start && end <= range.end,
        }
    }

    /// Creates a kernel of `pipeline`, which the backend compiled for the
    /// layout derived from `info`. The kernel keeps the bind groups of `info`
    /// in their order, and its push-constant range.
    pub fn new(context: &Context, info: &KernelInfo<'_, 'a, S>, pipeline: P) -> (r: Self)
        requires
            info.violation(context) is None,
            info.bind_groups@.len() <= u32::MAX,
        ensures
            r.pipeline() == pipeline,
            r.bind_groups() == info.bind_groups@,
            r.push_constants_range() == info.push_constants_range,
            r.limits() == context.limits(),
    {
        let mut bind_groups: Vec<&'a BindGroup<S>> = Vec::new();
        let mut i: usize = 0;
        while i < info.bind_groups.len()
            invariant
                i <= info.bind_groups@.len(),
                bind_groups@ =~= info.bind_groups@.take(i as int),
            decreases info.bind_groups@.len() - i,
        {
            bind_groups.push(info.bind_groups[i]);
            i += 1;
        }
        assert(info.bind_groups@.take(i as int) =~= info.bind_groups@);
        let push_constants_range = match &info.push_constants_range {
            None => None,
            Some(range) => Some(range.start..range.end),
        };
        Kernel { pipeline, bind_groups, push_constants_range, limits: context.limits() }
    }

    /// Executes the kernel once: the actions of a compute pass in which the
    /// kernel is set, its bind groups are bound and `workgroups` workgroups
    /// are dispatched. The dispatch is refused if a dimension of `workgroups`
    /// exceeds the device's limit.
    pub fn dispatch(&'a self, workgroups: Range) -> (r: Result<
        Vec<PassAction<'a, S, P>>,
        Rejection,
    >)
        ensures
            executes_to(
                seq![Command::SetKernel { kernel: self }, Command::Dispatch { workgroups }],
                self.limits(),
                r,
            ),
            r is Ok <==> workgroups.x <= self.limits().max_compute_workgroups_per_dimension
                && workgroups.y <= self.limits().max_compute_workgroups_per_dimension
                && workgroups.z <= self.limits().max_compute_workgroups_per_dimension,
            r matches Ok(plan) ==> plan@ == seq![PassAction::SetPipeline { kernel: self }]
                + bind_actions(self) + seq![
                PassAction::DispatchWorkgroups {
                    x: workgroups.x,
                    y: workgroups.y,
                    z: workgroups.z,
                },
            ],
            r matches Err(rejection) ==> rejection == (Rejection {
                command: 1,
                violation: Violation::WorkgroupsExceedLimit,
            }),
    {
        let command_queue: CommandQueue<'a, S, P> = CommandQueue::with_limits(self.limits);
        let command_queue = command_queue.enqueue_set_kernel(self).enqueue_dispatch(workgroups);
        let ghost commands = seq![
            Command::SetKernel { kernel: self },
            Command::Dispatch { workgroups },
        ];
        proof {
            assert(command_queue.commands() =~= commands);
            reveal_with_fuel(kernel_after, 3);
            reveal_with_fuel(written_after, 3);
            reveal_with_fuel(plan_of, 3);
            assert(kernel_after(commands, 0) is None);
            assert(kernel_after(commands, 1) == Some(self));
            assert(violation_at(commands, self.limits(), 0) is None);
            assert(violation_at(commands, self.limits(), 1) is None <==> workgroups.x
                <= self.limits().max_compute_workgroups_per_dimension && workgroups.y
                <= self.limits().max_compute_workgroups_per_dimension && workgroups.z
                <= self.limits().max_compute_workgroups_per_dimension);
            assert(plan_of(commands, 2) =~= seq![PassAction::SetPipeline { kernel: self }]
                + bind_actions(self) + seq![
                PassAction::DispatchWorkgroups {
                    x: workgroups.x,
                    y: workgroups.y,
                    z: workgroups.z,
                },
            ]);
        }
        command_queue.execute()
    }

    /// The pipeline of the backend.
    pub fn pipeline_handle(&self) -> (r: &P)
        ensures
            *r == self.pipeline(),
    {
        &self.pipeline
    }

    /// The number of bind groups of the kernel.
    pub fn bind_group_count(&self) -> (r: u32)
        ensures
            r == self.bind_groups().len(),
    {
        proof {
            use_type_invariant(self);
        }
        self.bind_groups.len() as u32
    }

    /// The bind group of the kernel at the group index `index`.
    pub fn bind_group(&self, index: u32) -> (r: &'a BindGroup<S>)
        requires
            index < self.bind_groups().len(),
        ensures
            r == self.bind_groups()[index as int],
    {
        self.bind_groups[index as usize]
    }

    /// The bounds of the push-constant range that the kernel declares.
    pub fn push_constants_bounds(&self) -> (r: Option<(u32, u32)>)
        ensures
            r == match self.push_constants_range() {
                None => None::<(u32, u32)>,
                Some(range) => Some((range.start, range.end)),
            },
    {
        match &self.push_constants_range {
            None => None,
            Some(range) => Some((range.start, range.end)),
        }
    }
}

} // verus!
