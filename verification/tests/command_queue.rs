use hac::{
    BindGroup, BindGroupDescriptor, BindGroupEntry, BufferAccess, Command, CommandQueue,
    ComputePass, Context, ContextInfo, Extent3d, Features, Image, ImageInfo, Kernel, KernelInfo,
    Limits, PassAction, Range, Rejection, SamplerBindingType, StorageImageAccess, Violation,
    ViolationClass,
};

type Group = BindGroup<Vec<BindGroupEntry<u32>>>;
type Queue<'a> = CommandQueue<'a, Vec<BindGroupEntry<u32>>, &'static str>;

fn device(max_push_constant_size: u32) -> Context {
    Context::new(ContextInfo {
        features: Features { push_constants: true },
        limits: Limits {
            max_buffer_size: 1 << 28,
            max_push_constant_size,
            max_compute_workgroups_per_dimension: 65535,
        },
    })
}

fn buffers(context: &Context, accesses: &[BufferAccess]) -> Group {
    let mut descriptor = BindGroupDescriptor::new(context);
    for (resource, access) in accesses.iter().enumerate() {
        descriptor = descriptor.push_buffer(resource as u32, *access);
    }
    descriptor.into_bind_group()
}

fn refused(command: usize, violation: Violation) -> Rejection {
    Rejection { command, violation }
}

#[test]
fn empty_queue_gives_an_empty_pass() {
    let context = Context::default();
    let queue: Queue = CommandQueue::new(&context);
    assert!(queue.execute().unwrap().is_empty());
}

#[test]
fn dispatch_before_any_kernel_is_a_sequencing_violation() {
    let context = Context::default();
    let queue: Queue = context.command_queue();
    let rejection = queue.enqueue_dispatch(Range::d1(1)).execute().unwrap_err();
    assert_eq!(rejection, refused(0, Violation::NoKernelBound));
    assert_eq!(rejection.violation.class(), ViolationClass::Sequencing);
}

#[test]
fn push_constants_before_any_kernel_are_a_sequencing_violation() {
    let context = device(16);
    let queue: Queue = CommandQueue::new(&context);
    let rejection = queue.enqueue_set_push_constants(0, &[0; 4]).execute().unwrap_err();
    assert_eq!(rejection, refused(0, Violation::NoKernelBound));
    assert_eq!(rejection.violation.class(), ViolationClass::Sequencing);
}

#[test]
fn bind_group_before_any_kernel_is_a_sequencing_violation() {
    let context = Context::default();
    let group = buffers(&context, &[BufferAccess::ReadOnly]);
    let queue: Queue = CommandQueue::new(&context);
    let rejection = queue.enqueue_set_bind_group(0, &group).execute().unwrap_err();
    assert_eq!(rejection, refused(0, Violation::NoKernelBound));
    assert_eq!(rejection.violation.class(), ViolationClass::Sequencing);
}

#[test]
fn command_before_the_kernel_is_reported_even_if_a_kernel_follows() {
    let context = Context::default();
    let group = buffers(&context, &[BufferAccess::ReadOnly]);
    let info = KernelInfo { entry_point: "main", bind_groups: &[&group], push_constants_range: None };
    let kernel = Kernel::new(&context, &info, "pipeline");
    let rejection = CommandQueue::new(&context)
        .enqueue_dispatch(Range::d1(1))
        .enqueue_set_kernel(&kernel)
        .enqueue_dispatch(Range::d1(1))
        .execute()
        .unwrap_err();
    assert_eq!(rejection, refused(0, Violation::NoKernelBound));
}

#[test]
fn bind_group_with_another_layout_is_a_binding_contract_violation() {
    let context = device(8);
    let group = buffers(&context, &[BufferAccess::ReadOnly, BufferAccess::ReadWrite]);
    let other = buffers(&context, &[BufferAccess::ReadOnly, BufferAccess::ReadOnly]);
    let info =
        KernelInfo { entry_point: "main", bind_groups: &[&group], push_constants_range: Some(0..8) };
    let kernel = Kernel::new(&context, &info, "pipeline");
    let rejection = CommandQueue::new(&context)
        .enqueue_set_kernel(&kernel)
        .enqueue_set_push_constants(0, &[0; 8])
        .enqueue_dispatch(Range::d1(4))
        .enqueue_set_bind_group(0, &other)
        .enqueue_dispatch(Range::d1(4))
        .execute()
        .unwrap_err();
    assert_eq!(rejection, refused(3, Violation::LayoutMismatch));
    assert_eq!(rejection.violation.class(), ViolationClass::BindingContract);
}

#[test]
fn bind_group_at_an_index_without_bind_group_is_a_layout_mismatch() {
    let context = Context::default();
    let group = buffers(&context, &[BufferAccess::ReadOnly]);
    let info = KernelInfo { entry_point: "main", bind_groups: &[&group], push_constants_range: None };
    let kernel = Kernel::new(&context, &info, "pipeline");
    let rejection = CommandQueue::new(&context)
        .enqueue_set_kernel(&kernel)
        .enqueue_set_bind_group(1, &group)
        .execute()
        .unwrap_err();
    assert_eq!(rejection, refused(1, Violation::LayoutMismatch));
}

#[test]
fn bind_group_is_checked_against_the_kernel_that_is_set_last() {
    let context = Context::default();
    let read = buffers(&context, &[BufferAccess::ReadOnly]);
    let write = buffers(&context, &[BufferAccess::ReadWrite]);
    let reads =
        KernelInfo { entry_point: "main", bind_groups: &[&read], push_constants_range: None };
    let writes =
        KernelInfo { entry_point: "main", bind_groups: &[&write], push_constants_range: None };
    let reader = Kernel::new(&context, &reads, "reader");
    let writer = Kernel::new(&context, &writes, "writer");
    let accepted = CommandQueue::new(&context)
        .enqueue_set_kernel(&reader)
        .enqueue_set_kernel(&writer)
        .enqueue_set_bind_group(0, &write)
        .execute();
    assert!(accepted.is_ok());
    let rejection = CommandQueue::new(&context)
        .enqueue_set_kernel(&reader)
        .enqueue_set_kernel(&writer)
        .enqueue_set_bind_group(0, &read)
        .execute()
        .unwrap_err();
    assert_eq!(rejection, refused(2, Violation::LayoutMismatch));
}

#[test]
fn push_constants_must_be_aligned_to_four_bytes() {
    let context = device(16);
    let info: KernelInfo<Vec<BindGroupEntry<u32>>> =
        KernelInfo { entry_point: "main", bind_groups: &[], push_constants_range: Some(0..16) };
    let kernel = Kernel::new(&context, &info, "pipeline");
    let data = [0u8; 16];
    let outcome = |offset: u32, len: usize| {
        CommandQueue::new(&context)
            .enqueue_set_kernel(&kernel)
            .enqueue_set_push_constants(offset, &data[..len])
            .execute()
            .map(|plan| plan.len())
    };
    assert_eq!(outcome(0, 16), Ok(2));
    assert_eq!(outcome(4, 8), Ok(2));
    assert_eq!(outcome(12, 4), Ok(2));
    assert_eq!(outcome(16, 0), Ok(2));
    assert_eq!(outcome(2, 4), Err(refused(1, Violation::PushConstantsMisaligned)));
    assert_eq!(outcome(0, 6), Err(refused(1, Violation::PushConstantsMisaligned)));
    assert_eq!(outcome(1, 1), Err(refused(1, Violation::PushConstantsMisaligned)));
    assert_eq!(outcome(3, 16), Err(refused(1, Violation::PushConstantsMisaligned)));
    assert_eq!(Violation::PushConstantsMisaligned.class(), ViolationClass::BindingContract);
}

#[test]
fn push_constants_must_stay_in_the_range_of_the_kernel() {
    let context = device(32);
    let info: KernelInfo<Vec<BindGroupEntry<u32>>> =
        KernelInfo { entry_point: "main", bind_groups: &[], push_constants_range: Some(8..24) };
    let kernel = Kernel::new(&context, &info, "pipeline");
    let data = [0u8; 32];
    let outcome = |offset: u32, len: usize| {
        CommandQueue::new(&context)
            .enqueue_set_kernel(&kernel)
            .enqueue_set_push_constants(offset, &data[..len])
            .execute()
            .map(|plan| plan.len())
    };
    assert_eq!(outcome(8, 16), Ok(2));
    assert_eq!(outcome(20, 4), Ok(2));
    assert_eq!(outcome(24, 0), Ok(2));
    assert_eq!(outcome(4, 8), Err(refused(1, Violation::PushConstantsOutOfRange)));
    assert_eq!(outcome(8, 20), Err(refused(1, Violation::PushConstantsOutOfRange)));
    assert_eq!(outcome(24, 4), Err(refused(1, Violation::PushConstantsOutOfRange)));
    assert_eq!(outcome(28, 0), Err(refused(1, Violation::PushConstantsOutOfRange)));
    assert_eq!(outcome(0xffff_fffc, 8), Err(refused(1, Violation::PushConstantsOutOfRange)));
    assert_eq!(Violation::PushConstantsOutOfRange.class(), ViolationClass::BindingContract);
}

#[test]
fn push_constants_for_a_kernel_without_range_are_out_of_range() {
    let context = device(32);
    let info: KernelInfo<Vec<BindGroupEntry<u32>>> =
        KernelInfo { entry_point: "main", bind_groups: &[], push_constants_range: None };
    let kernel = Kernel::new(&context, &info, "pipeline");
    let rejection = CommandQueue::new(&context)
        .enqueue_set_kernel(&kernel)
        .enqueue_set_push_constants(0, &[0; 4])
        .execute()
        .unwrap_err();
    assert_eq!(rejection, refused(1, Violation::PushConstantsOutOfRange));
}

#[test]
fn push_constants_written_twice_are_a_sequencing_violation() {
    let context = device(16);
    let info: KernelInfo<Vec<BindGroupEntry<u32>>> =
        KernelInfo { entry_point: "main", bind_groups: &[], push_constants_range: Some(0..16) };
    let kernel = Kernel::new(&context, &info, "pipeline");
    let rejection = CommandQueue::new(&context)
        .enqueue_set_kernel(&kernel)
        .enqueue_set_push_constants(0, &[0; 8])
        .enqueue_set_push_constants(4, &[0; 8])
        .execute()
        .unwrap_err();
    assert_eq!(rejection, refused(2, Violation::PushConstantsWrittenTwice));
    assert_eq!(rejection.violation.class(), ViolationClass::Sequencing);
    let same = CommandQueue::new(&context)
        .enqueue_set_kernel(&kernel)
        .enqueue_set_push_constants(0, &[0; 16])
        .enqueue_set_push_constants(0, &[0; 16])
        .execute()
        .unwrap_err();
    assert_eq!(same, refused(2, Violation::PushConstantsWrittenTwice));
}

#[test]
fn push_constants_that_do_not_overlap_may_follow_one_another() {
    let context = device(16);
    let info: KernelInfo<Vec<BindGroupEntry<u32>>> =
        KernelInfo { entry_point: "main", bind_groups: &[], push_constants_range: Some(0..16) };
    let kernel = Kernel::new(&context, &info, "pipeline");
    let plan = CommandQueue::new(&context)
        .enqueue_set_kernel(&kernel)
        .enqueue_set_push_constants(8, &[1; 8])
        .enqueue_set_push_constants(0, &[2; 4])
        .enqueue_set_push_constants(4, &[3; 4])
        .enqueue_set_push_constants(4, &[])
        .enqueue_dispatch(Range::d1(1))
        .execute()
        .unwrap();
    assert_eq!(plan.len(), 6);
    assert!(matches!(plan[1], PassAction::SetPushConstants { offset: 8, data } if data == [1; 8]));
    assert!(matches!(plan[2], PassAction::SetPushConstants { offset: 0, data } if data == [2; 4]));
    assert!(matches!(plan[3], PassAction::SetPushConstants { offset: 4, data } if data == [3; 4]));
    assert!(matches!(plan[4], PassAction::SetPushConstants { offset: 4, data } if data.is_empty()));
    let rejection = CommandQueue::new(&context)
        .enqueue_set_kernel(&kernel)
        .enqueue_set_push_constants(8, &[1; 8])
        .enqueue_set_push_constants(0, &[2; 4])
        .enqueue_set_push_constants(4, &[3; 8])
        .execute()
        .unwrap_err();
    assert_eq!(rejection, refused(3, Violation::PushConstantsWrittenTwice));
}

#[test]
fn dispatch_and_set_kernel_clear_what_was_written() {
    let context = device(8);
    let info: KernelInfo<Vec<BindGroupEntry<u32>>> =
        KernelInfo { entry_point: "main", bind_groups: &[], push_constants_range: Some(0..8) };
    let kernel = Kernel::new(&context, &info, "pipeline");
    let after_dispatch = CommandQueue::new(&context)
        .enqueue_set_kernel(&kernel)
        .enqueue_set_push_constants(0, &[0; 8])
        .enqueue_dispatch(Range::d1(1))
        .enqueue_set_push_constants(0, &[1; 8])
        .enqueue_dispatch(Range::d1(1))
        .execute();
    assert_eq!(after_dispatch.map(|plan| plan.len()), Ok(5));
    let after_set_kernel = CommandQueue::new(&context)
        .enqueue_set_kernel(&kernel)
        .enqueue_set_push_constants(0, &[0; 8])
        .enqueue_set_kernel(&kernel)
        .enqueue_set_push_constants(0, &[1; 8])
        .execute();
    assert_eq!(after_set_kernel.map(|plan| plan.len()), Ok(4));
    let group = buffers(&context, &[BufferAccess::ReadOnly]);
    let grouped_info =
        KernelInfo { entry_point: "main", bind_groups: &[&group], push_constants_range: Some(0..8) };
    let grouped = Kernel::new(&context, &grouped_info, "pipeline");
    let after_set_bind_group = CommandQueue::new(&context)
        .enqueue_set_kernel(&grouped)
        .enqueue_set_push_constants(0, &[0; 8])
        .enqueue_set_bind_group(0, &group)
        .enqueue_set_push_constants(0, &[1; 8])
        .execute();
    assert_eq!(
        after_set_bind_group.map(|plan| plan.len()),
        Err(refused(3, Violation::PushConstantsWrittenTwice))
    );
}

#[test]
fn dispatch_over_the_workgroup_limit_is_a_capacity_violation() {
    let context = Context::new(ContextInfo {
        features: Features::empty(),
        limits: Limits {
            max_buffer_size: 1 << 28,
            max_push_constant_size: 0,
            max_compute_workgroups_per_dimension: 8,
        },
    });
    let info: KernelInfo<Vec<BindGroupEntry<u32>>> =
        KernelInfo { entry_point: "main", bind_groups: &[], push_constants_range: None };
    let kernel = Kernel::new(&context, &info, "pipeline");
    let outcome = |workgroups: Range| {
        CommandQueue::new(&context)
            .enqueue_set_kernel(&kernel)
            .enqueue_dispatch(workgroups)
            .execute()
            .map(|plan| plan.len())
    };
    assert_eq!(outcome(Range::new(8, 8, 8)), Ok(2));
    assert_eq!(outcome(Range::new(0, 0, 0)), Ok(2));
    assert_eq!(outcome(Range::new(9, 1, 1)), Err(refused(1, Violation::WorkgroupsExceedLimit)));
    assert_eq!(outcome(Range::new(1, 9, 1)), Err(refused(1, Violation::WorkgroupsExceedLimit)));
    assert_eq!(outcome(Range::new(1, 1, 9)), Err(refused(1, Violation::WorkgroupsExceedLimit)));
    assert_eq!(Violation::WorkgroupsExceedLimit.class(), ViolationClass::ResourceCapacity);
}

#[test]
fn the_first_violation_is_the_one_reported() {
    let context = device(8);
    let group = buffers(&context, &[BufferAccess::ReadOnly]);
    let other = buffers(&context, &[BufferAccess::ReadWrite]);
    let info =
        KernelInfo { entry_point: "main", bind_groups: &[&group], push_constants_range: Some(0..8) };
    let kernel = Kernel::new(&context, &info, "pipeline");
    let rejection = CommandQueue::new(&context)
        .enqueue_set_kernel(&kernel)
        .enqueue_dispatch(Range::d1(1))
        .enqueue_set_push_constants(2, &[0; 4])
        .enqueue_set_bind_group(0, &other)
        .enqueue_dispatch(Range::d1(70000))
        .execute()
        .unwrap_err();
    assert_eq!(rejection, refused(2, Violation::PushConstantsMisaligned));
}

#[test]
fn adding_two_arrays_records_one_dispatch_over_three_buffers() {
    const N: usize = 1 << 16 - 1;
    let context = Context::default();
    let a: Vec<f32> = (0..N).map(|i| i as f32).collect();
    let b: Vec<f32> = (0..N).map(|i| (2 * i) as f32 + 0.5).collect();
    let buf_a = context.buffer_from_slice(&a);
    let buf_b = context.buffer_from_slice(&b);
    let buf_c = context.buffer::<f32>(N as u64);
    assert_eq!(buf_a.capacity(), N as u64);
    assert_eq!(buf_b.capacity(), N as u64);
    assert_eq!(buf_c.size(), 4 * N as u64);
    let bind_group = context
        .bind_group_descriptor()
        .push_buffer("a", BufferAccess::ReadOnly)
        .push_buffer("b", BufferAccess::ReadOnly)
        .push_buffer("c", BufferAccess::ReadWrite)
        .into_bind_group();
    let slots: Vec<(u32, &str)> = bind_group
        .bound_resources()
        .iter()
        .map(|entry| (entry.binding, entry.resource))
        .collect();
    assert_eq!(slots, vec![(0, "a"), (1, "b"), (2, "c")]);
    let info =
        KernelInfo { entry_point: "main", bind_groups: &[&bind_group], push_constants_range: None };
    assert_eq!(info.validate(&context), Ok(()));
    let kernel = context.kernel(&info, "add");
    let plan = kernel.dispatch(Range::d1(N as u32)).unwrap();
    assert_eq!(plan.len(), 3);
    assert!(matches!(plan[0], PassAction::SetPipeline { kernel: set } if std::ptr::eq(set, &kernel)));
    assert!(matches!(
        plan[1],
        PassAction::SetBindGroup { index: 0, bind_group: bound } if std::ptr::eq(bound, &bind_group)
    ));
    assert!(matches!(plan[2], PassAction::DispatchWorkgroups { x: 32768, y: 1, z: 1 }));
    let sums: Vec<f32> = a.iter().zip(b.iter()).map(|(x, y)| x + y).collect();
    let c = buf_c.read_to_vec(&sums);
    assert_eq!(c.len(), N);
    for i in 0..N {
        assert!((a[i] + b[i] - c[i]).abs() <= f32::EPSILON);
    }
}

#[test]
fn two_blur_passes_swap_the_images_between_the_dispatches() {
    let context = device(8);
    let size = Extent3d { width: 640, height: 480, depth_or_array_layers: 1 };
    let im0 = Image::new(&context, &ImageInfo { size, format: wgpu::TextureFormat::Rgba8Unorm });
    let im1 = Image::empty_like(&im0);
    let sampler_group = BindGroupDescriptor::new(&context)
        .push_sampler(0u32, SamplerBindingType::Filtering)
        .into_bind_group();
    let images0 = BindGroupDescriptor::new(&context)
        .push_image(1, &im0)
        .push_storage_image(2, &im1, StorageImageAccess::WriteOnly)
        .into_bind_group();
    let images1 = BindGroupDescriptor::new(&context)
        .push_image(2, &im1)
        .push_storage_image(1, &im0, StorageImageAccess::WriteOnly)
        .into_bind_group();
    let gauss = buffers(&context, &[BufferAccess::ReadOnly, BufferAccess::ReadOnly]);
    let info = KernelInfo {
        entry_point: "gaussian_pass",
        bind_groups: &[&sampler_group, &images0, &gauss],
        push_constants_range: Some(0..8),
    };
    assert_eq!(info.validate(&context), Ok(()));
    let kernel = Kernel::new(&context, &info, "blur");
    let horizontal: &[u8] = hac::cast_slice(&[1i32, 0]);
    let vertical: &[u8] = hac::cast_slice(&[0i32, 1]);
    let workgroups = Range::d2(640, 480);
    let plan = context
        .command_queue()
        .enqueue_set_kernel(&kernel)
        .enqueue_set_push_constants(0, horizontal)
        .enqueue_dispatch(workgroups)
        .enqueue_set_bind_group(1, &images1)
        .enqueue_set_push_constants(0, vertical)
        .enqueue_dispatch(workgroups)
        .execute()
        .unwrap();
    assert_eq!(plan.len(), 9);
    assert!(matches!(plan[0], PassAction::SetPipeline { kernel: set } if std::ptr::eq(set, &kernel)));
    assert!(matches!(
        plan[1],
        PassAction::SetBindGroup { index: 0, bind_group } if std::ptr::eq(bind_group, &sampler_group)
    ));
    assert!(matches!(
        plan[2],
        PassAction::SetBindGroup { index: 1, bind_group } if std::ptr::eq(bind_group, &images0)
    ));
    assert!(matches!(
        plan[3],
        PassAction::SetBindGroup { index: 2, bind_group } if std::ptr::eq(bind_group, &gauss)
    ));
    assert!(matches!(
        plan[4],
        PassAction::SetPushConstants { offset: 0, data } if data == horizontal
    ));
    assert!(matches!(plan[5], PassAction::DispatchWorkgroups { x: 640, y: 480, z: 1 }));
    assert!(matches!(
        plan[6],
        PassAction::SetBindGroup { index: 1, bind_group } if std::ptr::eq(bind_group, &images1)
    ));
    assert!(matches!(
        plan[7],
        PassAction::SetPushConstants { offset: 0, data } if data == vertical
    ));
    assert!(matches!(plan[8], PassAction::DispatchWorkgroups { x: 640, y: 480, z: 1 }));
}

#[test]
fn compute_pass_records_command_by_command() {
    let context = device(8);
    let group = buffers(&context, &[BufferAccess::ReadOnly]);
    let info =
        KernelInfo { entry_point: "main", bind_groups: &[&group], push_constants_range: Some(0..8) };
    let kernel = Kernel::new(&context, &info, "pipeline");
    let mut pass = ComputePass::new(context.limits());
    assert_eq!(
        pass.execute(&Command::Dispatch { workgroups: Range::d1(1) }),
        Err(Violation::NoKernelBound)
    );
    assert_eq!(pass.execute(&Command::SetKernel { kernel: &kernel }), Ok(()));
    assert_eq!(pass.execute(&Command::SetPushConstants { offset: 0, data: &[0; 8] }), Ok(()));
    assert_eq!(
        pass.execute(&Command::SetPushConstants { offset: 4, data: &[0; 4] }),
        Err(Violation::PushConstantsWrittenTwice)
    );
    assert_eq!(pass.execute(&Command::SetBindGroup { index: 0, bind_group: &group }), Ok(()));
    assert_eq!(pass.execute(&Command::Dispatch { workgroups: Range::d1(1) }), Ok(()));
    assert_eq!(pass.execute(&Command::SetPushConstants { offset: 4, data: &[0; 4] }), Ok(()));
    let actions = pass.finish();
    assert_eq!(actions.len(), 6);
    assert!(matches!(actions[0], PassAction::SetPipeline { .. }));
    assert!(matches!(actions[1], PassAction::SetBindGroup { index: 0, .. }));
    assert!(matches!(actions[2], PassAction::SetPushConstants { offset: 0, .. }));
    assert!(matches!(actions[3], PassAction::SetBindGroup { index: 0, .. }));
    assert!(matches!(actions[4], PassAction::DispatchWorkgroups { x: 1, y: 1, z: 1 }));
    assert!(matches!(actions[5], PassAction::SetPushConstants { offset: 4, .. }));
}
