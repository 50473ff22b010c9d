use raycaster::render_precedence::{to_numeric, RenderPrecedence};

#[test]
fn layers_rank_from_gui_to_camera_view() {
    assert_eq!(to_numeric(RenderPrecedence::Gui), 0);
    assert_eq!(to_numeric(RenderPrecedence::EffectOverlay), 1);
    assert_eq!(to_numeric(RenderPrecedence::MiniMap), 2);
    assert_eq!(to_numeric(RenderPrecedence::CameraView), 3);
}

#[test]
fn sorting_by_rank_puts_the_camera_view_last() {
    let mut layers = vec![
        RenderPrecedence::CameraView,
        RenderPrecedence::MiniMap,
        RenderPrecedence::CameraView,
        RenderPrecedence::Gui,
        RenderPrecedence::EffectOverlay,
    ];
    layers.sort_by_key(|layer| to_numeric(*layer));
    assert_eq!(
        layers,
        vec![
            RenderPrecedence::Gui,
            RenderPrecedence::EffectOverlay,
            RenderPrecedence::MiniMap,
            RenderPrecedence::CameraView,
            RenderPrecedence::CameraView,
        ]
    );
}
