use sim2d::swapchain::{
    acquire_image_status, clamp, present_image_status, select_extent, select_image_count,
    select_image_sharing, select_present_mode, select_surface_format, AcquireImageStatus,
    Extent2D, ImageSharing, PresentImageStatus, SurfaceCapabilities, SurfaceFormat,
    COLOR_SPACE_SRGB_NONLINEAR, ERROR_OUT_OF_DATE, FORMAT_B8G8R8A8_SRGB, PRESENT_MODE_FIFO,
    PRESENT_MODE_MAILBOX,
};

fn capabilities(min: u32, max: u32, current_width: u32) -> SurfaceCapabilities {
    SurfaceCapabilities {
        min_image_count: min,
        max_image_count: max,
        current_extent: Extent2D { width: current_width, height: 600 },
        min_image_extent: Extent2D { width: 1000, height: 900 },
        max_image_extent: Extent2D { width: 100, height: 90 },
    }
}

#[test]
fn image_count_is_two_more_than_the_minimum_within_the_maximum() {
    assert_eq!(select_image_count(&capabilities(2, 0, 800)), 4);
    assert_eq!(select_image_count(&capabilities(2, 3, 800)), 3);
    assert_eq!(select_image_count(&capabilities(2, 8, 800)), 4);
    assert_eq!(select_image_count(&capabilities(3, 3, 800)), 3);
}

#[test]
fn clamp_keeps_values_in_range() {
    assert_eq!(clamp(5, 1, 10), 5);
    assert_eq!(clamp(0, 1, 10), 1);
    assert_eq!(clamp(11, 1, 10), 10);
}

#[test]
fn extent_uses_the_current_extent_when_set() {
    assert_eq!(
        select_extent(&capabilities(2, 0, 800), (1920, 1080)),
        Extent2D { width: 800, height: 600 }
    );
}

#[test]
fn extent_clamps_the_framebuffer_size_otherwise() {
    let caps = capabilities(2, 0, u32::MAX);
    assert_eq!(select_extent(&caps, (500, 50)), Extent2D { width: 500, height: 90 });
    assert_eq!(select_extent(&caps, (5000, 5000)), Extent2D { width: 1000, height: 900 });
    assert_eq!(select_extent(&caps, (10, 100)), Extent2D { width: 100, height: 100 });
}

#[test]
fn present_mode_prefers_mailbox() {
    assert_eq!(select_present_mode(&vec![0, 2, 1, 3]), PRESENT_MODE_MAILBOX);
    assert_eq!(select_present_mode(&vec![0, 2, 3]), PRESENT_MODE_FIFO);
    assert_eq!(select_present_mode(&vec![]), PRESENT_MODE_FIFO);
}

#[test]
fn surface_format_prefers_srgb_bgra() {
    let other = SurfaceFormat { format: 44, color_space: COLOR_SPACE_SRGB_NONLINEAR };
    let wrong_space = SurfaceFormat { format: FORMAT_B8G8R8A8_SRGB, color_space: 1000104001 };
    let preferred = SurfaceFormat {
        format: FORMAT_B8G8R8A8_SRGB,
        color_space: COLOR_SPACE_SRGB_NONLINEAR,
    };
    assert_eq!(select_surface_format(&vec![other, wrong_space, preferred]), Some(preferred));
    assert_eq!(select_surface_format(&vec![wrong_space, other]), Some(wrong_space));
    assert_eq!(select_surface_format(&vec![]), None);
}

#[test]
fn image_sharing_is_exclusive_for_one_family() {
    assert_eq!(select_image_sharing(0, 0), ImageSharing::Exclusive);
    assert_eq!(select_image_sharing(0, 2), ImageSharing::Concurrent(0, 2));
}

#[test]
fn acquire_status_follows_the_driver_answer() {
    assert_eq!(acquire_image_status(Ok((3, false))), Ok(AcquireImageStatus::ImageAcequired(3)));
    assert_eq!(acquire_image_status(Ok((1, true))), Ok(AcquireImageStatus::ImageAcequired(1)));
    assert_eq!(
        acquire_image_status(Err(ERROR_OUT_OF_DATE)),
        Ok(AcquireImageStatus::NeedsRebuild)
    );
    assert_eq!(acquire_image_status(Err(-4)), Err(-4));
}

#[test]
fn present_status_follows_the_driver_answer() {
    assert_eq!(present_image_status(Ok(false)), Ok(PresentImageStatus::Queued));
    assert_eq!(present_image_status(Ok(true)), Ok(PresentImageStatus::NeedsRebuild));
    assert_eq!(
        present_image_status(Err(ERROR_OUT_OF_DATE)),
        Ok(PresentImageStatus::NeedsRebuild)
    );
    assert_eq!(present_image_status(Err(-3)), Err(-3));
}
