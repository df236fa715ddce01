use broth::resources::ResourceLedger;

#[test]
fn a_recreated_generation_is_fully_alive() {
    let mut ledger = ResourceLedger::new();
    ledger.recreate_generation(3);
    assert_eq!(ledger.live_swapchains(), 1);
    assert_eq!(ledger.live_image_views(), 3);
    assert_eq!(ledger.live_framebuffers(), 3);
    assert_eq!(ledger.pipeline.created - ledger.pipeline.destroyed, 1);
    assert_eq!(ledger.command_buffers.created - ledger.command_buffers.destroyed, 3);
    assert_eq!(ledger.uniform_buffers.created - ledger.uniform_buffers.destroyed, 3);
}

#[test]
fn double_recreation_leaks_nothing() {
    let mut ledger = ResourceLedger::new();
    ledger.recreate_generation(3);
    ledger.recreate_generation(4);
    // Exactly one live swapchain, and only the new generation's
    // framebuffers and views.
    assert_eq!(ledger.live_swapchains(), 1);
    assert_eq!(ledger.live_framebuffers(), 4);
    assert_eq!(ledger.live_image_views(), 4);
    // Everything the two earlier generations created was destroyed.
    assert_eq!(ledger.swapchain.created, 2);
    assert_eq!(ledger.swapchain.destroyed, 1);
    assert_eq!(ledger.framebuffers.created, 7);
    assert_eq!(ledger.framebuffers.destroyed, 3);
    assert_eq!(ledger.image_views.created, 7);
    assert_eq!(ledger.image_views.destroyed, 3);
}

#[test]
fn teardown_reclaims_everything() {
    let mut ledger = ResourceLedger::new();
    ledger.recreate_generation(2);
    ledger.destroy_generation();
    assert_eq!(ledger.live_swapchains(), 0);
    assert_eq!(ledger.live_framebuffers(), 0);
    assert_eq!(ledger.live_image_views(), 0);
    ledger.destroy_static();
    assert_eq!(ledger.texture.created, ledger.texture.destroyed);
    assert_eq!(ledger.sync_objects.created, ledger.sync_objects.destroyed);
}
