use vis_runtime::fault::Fatal;
use vis_runtime::swapchain::{
    choose_present_mode, create_framebuffers, plan_swapchain, Capabilities, CompositeAlpha,
    CompositeAlphas, Extent, ImageUsage, PresentMode, PresentModes, SurfaceTransform,
    FALLBACK_HEIGHT, FALLBACK_WIDTH,
};

fn modes(immediate: bool, mailbox: bool, fifo: bool, relaxed: bool) -> PresentModes {
    PresentModes { immediate, mailbox, fifo, relaxed, shared_demand: false, shared_continuous: false }
}

fn alphas(opaque: bool, pre_multiplied: bool, post_multiplied: bool, inherit: bool) -> CompositeAlphas {
    CompositeAlphas { opaque, pre_multiplied, post_multiplied, inherit }
}

fn usage() -> ImageUsage {
    ImageUsage {
        transfer_source: true,
        transfer_destination: false,
        sampled: false,
        storage: false,
        color_attachment: true,
        depth_stencil_attachment: false,
        transient_attachment: false,
        input_attachment: false,
    }
}

fn surface(extent: Option<Extent>, alpha: CompositeAlphas, formats: Vec<u32>, present: PresentModes) -> Capabilities {
    Capabilities {
        min_image_count: 2,
        current_extent: extent,
        supported_composite_alpha: alpha,
        supported_usage_flags: usage(),
        supported_formats: formats,
        present_modes: present,
    }
}

#[test]
fn mailbox_is_preferred_where_supported() {
    assert_eq!(choose_present_mode(&modes(true, true, true, true)), PresentMode::Mailbox);
    assert_eq!(choose_present_mode(&modes(false, true, false, false)), PresentMode::Mailbox);
    assert_eq!(choose_present_mode(&modes(false, true, true, false)), PresentMode::Mailbox);
}

#[test]
fn fifo_is_the_fallback() {
    assert_eq!(choose_present_mode(&modes(true, false, true, true)), PresentMode::Fifo);
    assert_eq!(choose_present_mode(&modes(true, false, false, true)), PresentMode::Fifo);
    assert_eq!(choose_present_mode(&modes(false, false, false, false)), PresentMode::Fifo);
}

#[test]
fn shared_modes_do_not_count() {
    let shared = PresentModes {
        immediate: false,
        mailbox: false,
        fifo: false,
        relaxed: false,
        shared_demand: true,
        shared_continuous: true,
    };
    assert_eq!(choose_present_mode(&shared), PresentMode::Fifo);
}

#[test]
fn plan_takes_the_first_entries() {
    let capabilities = surface(
        Some(Extent { width: 800, height: 600 }),
        alphas(false, true, true, false),
        vec![50, 44, 37],
        modes(true, true, true, false),
    );
    let plan = plan_swapchain(&capabilities).unwrap();
    assert_eq!(plan.image_count, 2);
    assert_eq!(plan.format, 50);
    assert_eq!(plan.dimensions, Extent { width: 800, height: 600 });
    assert_eq!(plan.layers, 1);
    assert_eq!(plan.usage, usage());
    assert_eq!(plan.transform, SurfaceTransform::Identity);
    assert_eq!(plan.alpha, CompositeAlpha::PreMultiplied);
    assert_eq!(plan.present_mode, PresentMode::Mailbox);
    assert!(plan.clipped);
}

#[test]
fn first_alpha_goes_by_the_listed_order() {
    let cases = [
        (alphas(true, true, true, true), CompositeAlpha::Opaque),
        (alphas(false, true, true, true), CompositeAlpha::PreMultiplied),
        (alphas(false, false, true, true), CompositeAlpha::PostMultiplied),
        (alphas(false, false, false, true), CompositeAlpha::Inherit),
        (alphas(true, false, false, true), CompositeAlpha::Opaque),
    ];
    for (supported, expected) in cases {
        let capabilities = surface(None, supported, vec![44], modes(false, false, true, false));
        assert_eq!(plan_swapchain(&capabilities).unwrap().alpha, expected);
    }
}

#[test]
fn plan_falls_back_to_a_fixed_size() {
    let capabilities = surface(None, alphas(true, false, false, false), vec![44], modes(false, false, true, false));
    let plan = plan_swapchain(&capabilities).unwrap();
    assert_eq!(plan.dimensions, Extent { width: 1024, height: 768 });
    assert_eq!(FALLBACK_WIDTH, 1024);
    assert_eq!(FALLBACK_HEIGHT, 768);
    assert_eq!(plan.present_mode, PresentMode::Fifo);
}

#[test]
fn plan_needs_a_composite_alpha() {
    let capabilities = surface(None, alphas(false, false, false, false), vec![44], modes(false, true, true, false));
    assert_eq!(plan_swapchain(&capabilities), Err(Fatal::NoCompositeAlpha));
}

#[test]
fn plan_needs_a_format() {
    let capabilities = surface(None, alphas(true, false, false, false), vec![], modes(false, true, true, false));
    assert_eq!(plan_swapchain(&capabilities), Err(Fatal::NoFormat));
}

#[test]
fn missing_alpha_is_reported_before_missing_format() {
    let capabilities = surface(None, alphas(false, false, false, false), vec![], modes(false, true, true, false));
    assert_eq!(plan_swapchain(&capabilities), Err(Fatal::NoCompositeAlpha));
}

#[test]
fn one_framebuffer_for_each_image() {
    let images: Vec<u32> = vec![10, 20, 30, 40];
    let framebuffers = create_framebuffers(&images, |image: &u32| format!("framebuffer of {}", image));
    assert_eq!(framebuffers.len(), images.len());
    assert_eq!(
        framebuffers,
        vec![
            "framebuffer of 10".to_string(),
            "framebuffer of 20".to_string(),
            "framebuffer of 30".to_string(),
            "framebuffer of 40".to_string(),
        ]
    );
}

#[test]
fn no_images_no_framebuffers() {
    let images: Vec<u8> = Vec::new();
    let framebuffers: Vec<u8> = create_framebuffers(&images, |image: &u8| *image);
    assert!(framebuffers.is_empty());
}
