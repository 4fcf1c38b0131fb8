use virtual_circus::{
    AllocationLedger, BufferType, ChannelPoll, PollAction,
    plan_image, rollback_for, CreationError, CreationStep, ImageAspect, ImageLayout, ImagePlan,
    ImagePurpose, Rollback,
};

#[test]
fn texture_without_data_is_refused() {
    assert_eq!(plan_image(0, 0x4, ImagePurpose::Texture), Err(CreationError::EmptyImageData));
}

#[test]
fn texture_plan_fills_and_ends_shader_readable() {
    assert_eq!(
        plan_image(16, 0x4, ImagePurpose::Texture),
        Ok(ImagePlan { usage: 0x6, aspect: ImageAspect::Color, fill: true, final_layout: ImageLayout::ShaderReadOnly })
    );
}

#[test]
fn depth_buffer_without_data_is_accepted() {
    assert_eq!(
        plan_image(0, 0x20, ImagePurpose::DepthBuffer),
        Ok(ImagePlan { usage: 0x22, aspect: ImageAspect::Depth, fill: false, final_layout: ImageLayout::DepthAttachment })
    );
}

#[test]
fn purpose_picks_aspect_and_layout() {
    assert_eq!(ImagePurpose::Texture.aspect_mask(), ImageAspect::Color);
    assert_eq!(ImagePurpose::DepthBuffer.aspect_mask(), ImageAspect::Depth);
    assert_eq!(ImagePurpose::Texture.final_layout(), ImageLayout::ShaderReadOnly);
    assert_eq!(ImagePurpose::DepthBuffer.final_layout(), ImageLayout::DepthAttachment);
}

#[test]
fn rollback_undoes_what_was_acquired() {
    assert_eq!(rollback_for(CreationStep::CreateObject), vec![]);
    assert_eq!(rollback_for(CreationStep::Allocate), vec![Rollback::DestroyObject]);
    assert_eq!(rollback_for(CreationStep::Bind), vec![Rollback::DestroyObject, Rollback::FreeAllocation]);
}

#[test]
fn refused_texture_leaves_no_allocation_behind() {
    let mut ledger = AllocationLedger::new();
    ledger.record_allocation(64, BufferType::GpuOnly).unwrap();
    let baseline = ledger.outstanding();
    assert_eq!(plan_image(0, 0x4, ImagePurpose::Texture), Err(CreationError::EmptyImageData));
    assert_eq!(ledger.on_poll(ChannelPoll::Empty), PollAction::Idle);
    assert_eq!(ledger.outstanding(), baseline);
}
