use triangle_loop::geometry::{clear_color, triangle_vertices, Vertex, COORD_SCALE};
use triangle_loop::setup::{
    choose_swapchain_params, full_viewport, pick_first_device, select_queue_family,
    QueueFamilyProps, SurfaceCapabilities, SwapchainParams, WINDOW_HEIGHT, WINDOW_WIDTH,
};

#[test]
fn triangle_is_the_three_fixed_vertices() {
    let v = triangle_vertices();
    assert_eq!(
        v,
        vec![
            Vertex { x_hundredths: -50, y_hundredths: -25 },
            Vertex { x_hundredths: 0, y_hundredths: 50 },
            Vertex { x_hundredths: 25, y_hundredths: -10 },
        ]
    );
    // In units: (-0.5, -0.25), (0.0, 0.5), (0.25, -0.1).
    assert_eq!(COORD_SCALE, 100);
    let as_f32: Vec<[f32; 2]> = v
        .iter()
        .map(|p| {
            [
                p.x_hundredths as f32 / COORD_SCALE as f32,
                p.y_hundredths as f32 / COORD_SCALE as f32,
            ]
        })
        .collect();
    assert_eq!(as_f32, vec![[-0.5, -0.25], [0.0, 0.5], [0.25, -0.1]]);
}

#[test]
fn triangle_never_changes_between_calls() {
    assert_eq!(triangle_vertices(), triangle_vertices());
}

#[test]
fn clear_color_is_opaque_blue() {
    let c = clear_color();
    assert_eq!(
        (
            c.red_hundredths,
            c.green_hundredths,
            c.blue_hundredths,
            c.alpha_hundredths
        ),
        (0, 0, 100, 100)
    );
}

#[test]
fn first_device_is_picked() {
    assert_eq!(pick_first_device(3), Some(0));
    assert_eq!(pick_first_device(1), Some(0));
    assert_eq!(pick_first_device(0), None);
}

#[test]
fn queue_family_first_eligible_wins() {
    let fams = vec![
        QueueFamilyProps { supports_graphics: true, surface_support: false },
        QueueFamilyProps { supports_graphics: false, surface_support: true },
        QueueFamilyProps { supports_graphics: true, surface_support: true },
        QueueFamilyProps { supports_graphics: true, surface_support: true },
    ];
    assert_eq!(select_queue_family(&fams), Some(2));
}

#[test]
fn queue_family_none_eligible() {
    let fams = vec![
        QueueFamilyProps { supports_graphics: true, surface_support: false },
        QueueFamilyProps { supports_graphics: false, surface_support: false },
    ];
    assert_eq!(select_queue_family(&fams), None);
    assert_eq!(select_queue_family(&vec![]), None);
}

#[test]
fn swapchain_params_take_first_of_each() {
    let caps = SurfaceCapabilities {
        min_image_count: 2,
        formats: vec![37, 44, 50],
        composite_alphas: vec![1, 8],
    };
    assert_eq!(
        choose_swapchain_params(&caps, 800, 600),
        Some(SwapchainParams {
            image_count: 2,
            format: 37,
            composite_alpha: 1,
            width: 800,
            height: 600,
        })
    );
}

#[test]
fn swapchain_params_need_format_and_alpha() {
    let no_formats = SurfaceCapabilities {
        min_image_count: 2,
        formats: vec![],
        composite_alphas: vec![1],
    };
    assert_eq!(choose_swapchain_params(&no_formats, 800, 600), None);
    let no_alphas = SurfaceCapabilities {
        min_image_count: 2,
        formats: vec![37],
        composite_alphas: vec![],
    };
    assert_eq!(choose_swapchain_params(&no_alphas, 800, 600), None);
}

#[test]
fn viewport_covers_whole_image() {
    let v = full_viewport(1024, 768);
    assert_eq!((v.origin_x, v.origin_y, v.width, v.height), (0, 0, 1024, 768));
}

#[test]
fn initial_window_size_is_800_by_600() {
    assert_eq!((WINDOW_WIDTH, WINDOW_HEIGHT), (800, 600));
}
