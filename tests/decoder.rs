use tech_paws::command::{camera_slot, CameraSlot, Color, ExecutionCommand, PassMode, RenderCommand, Vec2i};
use tech_paws::renderer::{DrawOp, Renderer};

type V = (f32, f32);
type R = RenderCommand<V>;

fn red() -> Color {
    Color::rgba(255, 0, 0, 255)
}

fn text(s: &str, position: Option<V>, camera: V, color: Color) -> DrawOp<V> {
    DrawOp::Text { text: s.to_string(), position, camera, color }
}

#[test]
fn misaligned_push_is_skipped_gracefully() {
    let mut r = Renderer::new((0.0, 0.0));
    r.handle_exec_commands(&vec![
        ExecutionCommand::PushVec2f((10.0, 20.0)),
        ExecutionCommand::PushInt32(1),
    ]);
    assert_eq!(r.stack_lengths(), (1, 1, 0, 0, 0));
    assert_eq!(r.position_of(CameraSlot::First), (0.0, 0.0));
    assert_eq!(r.position_of(CameraSlot::Second), (0.0, 0.0));

    let mut r = Renderer::new((0.0, 0.0));
    let ops = r.handle_render_commands(&vec![R::PushVec2f((10.0, 20.0)), R::PushInt32(1), R::Other]);
    assert!(ops.is_empty());
    assert_eq!(r.stack_lengths(), (1, 1, 0, 0, 0));
}

#[test]
fn short_stacks_degrade_to_no_ops() {
    let mut r = Renderer::new((3.0, 4.0));
    r.handle_exec_commands(&vec![ExecutionCommand::UpdateCameraPosition, ExecutionCommand::Other]);
    assert_eq!(r.position_of(CameraSlot::First), (3.0, 4.0));
    assert_eq!(r.position_of(CameraSlot::Second), (3.0, 4.0));

    let ops = r.handle_render_commands(&vec![
        R::SetCamera,
        R::SetColorUniform,
        R::PushVec2f((1.0, 1.0)),
        R::DrawLines,
        R::PushVec2f((1.0, 1.0)),
        R::DrawQuads,
        R::DrawText,
    ]);
    assert!(ops.is_empty());
    assert_eq!(r.camera(), CameraSlot::First);
    assert_eq!(r.color(), Color::black());
    assert!(r.stacks_empty());
}

#[test]
fn red_line_scenario() {
    let mut r = Renderer::new((0.0, 0.0));
    let ops = r.handle_render_commands(&vec![
        R::PushColor(red()),
        R::SetColorUniform,
        R::PushVec2f((0.0, 0.0)),
        R::PushVec2f((10.0, 10.0)),
        R::DrawLines,
    ]);
    assert_eq!(
        ops,
        vec![DrawOp::Line { from: (0.0, 0.0), to: (10.0, 10.0), camera: (0.0, 0.0), color: red() }]
    );
}

#[test]
fn red_line_is_offset_by_the_current_camera() {
    let mut r = Renderer::new((0.0, 0.0));
    r.handle_exec_commands(&vec![
        ExecutionCommand::PushInt32(1),
        ExecutionCommand::PushVec2f((5.5, -2.0)),
        ExecutionCommand::UpdateCameraPosition,
    ]);
    let ops = r.handle_render_commands(&vec![
        R::PushInt32(1),
        R::SetCamera,
        R::PushColor(red()),
        R::SetColorUniform,
        R::PushVec2f((0.0, 0.0)),
        R::PushVec2f((10.0, 10.0)),
        R::DrawLines,
    ]);
    assert_eq!(
        ops,
        vec![DrawOp::Line { from: (0.0, 0.0), to: (10.0, 10.0), camera: (5.5, -2.0), color: red() }]
    );
}

#[test]
fn measurement_and_paint_passes_over_one_string() {
    let cmds = vec![R::PushString("AB".to_string()), R::DrawText];

    let mut r = Renderer::new((0.0, 0.0));
    let measured = r.handle_render_state(&cmds);
    assert_eq!(measured, vec![DrawOp::MeasureText { text: "AB".to_string() }]);

    let mut r = Renderer::new((0.0, 0.0));
    let painted = r.handle_render_commands(&cmds);
    assert_eq!(painted, vec![text("AB", None, (0.0, 0.0), Color::black())]);
    assert!(!painted.iter().any(|op| matches!(op, DrawOp::MeasureText { .. })));
}

#[test]
fn lines_take_consecutive_pairs_and_drop_the_odd_vector() {
    let mut r = Renderer::new((0.0, 0.0));
    let ops = r.handle_render_commands(&vec![
        R::PushVec2f((1.0, 1.0)),
        R::PushVec2f((2.0, 2.0)),
        R::PushVec2f((3.0, 3.0)),
        R::PushVec2f((4.0, 4.0)),
        R::PushVec2f((5.0, 5.0)),
        R::DrawLines,
    ]);
    let black = Color::black();
    assert_eq!(
        ops,
        vec![
            DrawOp::Line { from: (1.0, 1.0), to: (2.0, 2.0), camera: (0.0, 0.0), color: black },
            DrawOp::Line { from: (3.0, 3.0), to: (4.0, 4.0), camera: (0.0, 0.0), color: black },
        ]
    );
    assert!(r.stacks_empty());

    let ops = r.handle_render_commands(&vec![R::DrawLines]);
    assert!(ops.is_empty());
}

#[test]
fn text_pairs_each_string_with_its_position() {
    let mut r = Renderer::new((1.0, 1.0));
    let ops = r.handle_render_commands(&vec![
        R::PushString("a".to_string()),
        R::PushVec2f((10.0, 0.0)),
        R::PushVec2f((20.0, 0.0)),
        R::PushString("b".to_string()),
        R::PushString("c".to_string()),
        R::PushVec2f((30.0, 0.0)),
        R::DrawText,
    ]);
    let black = Color::black();
    assert_eq!(
        ops,
        vec![
            text("c", Some((30.0, 0.0)), (1.0, 1.0), black),
            text("b", Some((20.0, 0.0)), (1.0, 1.0), black),
            text("a", Some((10.0, 0.0)), (1.0, 1.0), black),
        ]
    );
}

#[test]
fn text_without_position_stands_at_the_camera() {
    let mut r = Renderer::new((0.0, 0.0));
    let ops = r.handle_render_commands(&vec![
        R::PushString("first".to_string()),
        R::PushString("second".to_string()),
        R::PushVec2f((7.0, 8.0)),
        R::DrawText,
    ]);
    let black = Color::black();
    assert_eq!(
        ops,
        vec![text("second", Some((7.0, 8.0)), (0.0, 0.0), black), text("first", None, (0.0, 0.0), black)]
    );
}

#[test]
fn measurement_walks_strings_from_the_last() {
    let mut r = Renderer::new((0.0, 0.0));
    let ops = r.handle_render_state(&vec![
        R::PushString("x".to_string()),
        R::PushString("y".to_string()),
        R::DrawText,
    ]);
    assert_eq!(
        ops,
        vec![DrawOp::MeasureText { text: "y".to_string() }, DrawOp::MeasureText { text: "x".to_string() }]
    );
}

#[test]
fn selected_color_holds_until_the_next_flush() {
    let mut r = Renderer::new((0.0, 0.0));
    let ops = r.handle_render_commands(&vec![
        R::PushColor(red()),
        R::SetColorUniform,
        R::PushColor(Color::rgba(0, 0, 255, 255)),
        R::PushInt32(0),
        R::SetCamera,
        R::PushVec2f((0.0, 0.0)),
        R::PushVec2f((4.0, 4.0)),
        R::PushVec2f((8.0, 8.0)),
        R::PushVec2f((2.0, 2.0)),
        R::DrawQuads,
        R::PushVec2f((0.0, 0.0)),
        R::PushVec2f((1.0, 1.0)),
        R::DrawLines,
    ]);
    assert_eq!(
        ops,
        vec![
            DrawOp::Quad { origin: (0.0, 0.0), size: (4.0, 4.0), camera: (0.0, 0.0), color: red() },
            DrawOp::Quad { origin: (8.0, 8.0), size: (2.0, 2.0), camera: (0.0, 0.0), color: red() },
            DrawOp::Line { from: (0.0, 0.0), to: (1.0, 1.0), camera: (0.0, 0.0), color: Color::black() },
        ]
    );
}

#[test]
fn draw_actions_flush_every_stack() {
    for action in [R::DrawText, R::DrawLines, R::DrawQuads, R::DrawPoints] {
        let mut r = Renderer::new((0.0, 0.0));
        r.handle_render_commands(&vec![
            R::PushColor(red()),
            R::SetColorUniform,
            R::PushInt32(4),
            R::PushVec2f((1.0, 2.0)),
            R::PushVec2i(Vec2i { x: 1, y: 2 }),
            R::PushColor(red()),
            R::PushString("s".to_string()),
        ]);
        assert_eq!(r.stack_lengths(), (1, 1, 1, 1, 1));
        assert_eq!(r.color(), red());
        r.handle_render_commands(&vec![action]);
        assert!(r.stacks_empty());
        assert_eq!(r.color(), Color::black());
    }
}

#[test]
fn set_actions_empty_only_their_own_stack() {
    let mut r = Renderer::new((0.0, 0.0));
    let fill = vec![
        R::PushInt32(1),
        R::PushVec2f((1.0, 2.0)),
        R::PushVec2i(Vec2i { x: 1, y: 2 }),
        R::PushColor(red()),
        R::PushString("s".to_string()),
    ];
    r.handle_render_commands(&fill);
    r.handle_render_commands(&vec![R::SetCamera]);
    assert_eq!(r.stack_lengths(), (0, 1, 1, 1, 1));
    assert_eq!(r.camera(), CameraSlot::Second);
    assert_eq!(r.color(), Color::black());

    let mut r = Renderer::new((0.0, 0.0));
    r.handle_render_commands(&fill);
    r.handle_render_commands(&vec![R::SetColorUniform]);
    assert_eq!(r.stack_lengths(), (1, 1, 1, 0, 1));
    assert_eq!(r.color(), red());
}

#[test]
fn camera_update_flushes() {
    let mut r = Renderer::new((0.0, 0.0));
    r.handle_render_commands(&vec![R::PushColor(red()), R::SetColorUniform, R::PushString("s".to_string())]);
    r.handle_exec_commands(&vec![ExecutionCommand::PushVec2f((1.0, 1.0)), ExecutionCommand::UpdateCameraPosition]);
    assert!(r.stacks_empty());
    assert_eq!(r.color(), Color::black());
    assert_eq!(r.position_of(CameraSlot::First), (1.0, 1.0));
}

#[test]
fn camera_update_leaves_the_other_slot() {
    let mut r = Renderer::new((0.0, 0.0));
    r.handle_exec_commands(&vec![
        ExecutionCommand::PushVec2f((100.0, 50.0)),
        ExecutionCommand::PushInt32(1),
        ExecutionCommand::UpdateCameraPosition,
    ]);
    assert_eq!(r.position_of(CameraSlot::Second), (100.0, 50.0));
    assert_eq!(r.position_of(CameraSlot::First), (0.0, 0.0));

    r.handle_exec_commands(&vec![
        ExecutionCommand::PushInt32(0),
        ExecutionCommand::PushVec2f((-3.0, 9.0)),
        ExecutionCommand::PushVec2f((7.0, 7.0)),
        ExecutionCommand::UpdateCameraPosition,
    ]);
    assert_eq!(r.position_of(CameraSlot::First), (-3.0, 9.0));
    assert_eq!(r.position_of(CameraSlot::Second), (100.0, 50.0));
}

#[test]
fn camera_update_without_index_uses_the_selected_camera() {
    let mut r = Renderer::new((0.0, 0.0));
    r.handle_render_commands(&vec![R::PushInt32(1), R::SetCamera]);
    r.handle_exec_commands(&vec![ExecutionCommand::PushVec2f((6.0, 6.0)), ExecutionCommand::UpdateCameraPosition]);
    assert_eq!(r.position_of(CameraSlot::Second), (6.0, 6.0));
    assert_eq!(r.position_of(CameraSlot::First), (0.0, 0.0));
    assert_eq!(r.camera(), CameraSlot::Second);
}

#[test]
fn camera_indices_are_clamped() {
    assert_eq!(camera_slot(0), CameraSlot::First);
    assert_eq!(camera_slot(1), CameraSlot::Second);
    assert_eq!(camera_slot(-3), CameraSlot::First);
    assert_eq!(camera_slot(7), CameraSlot::Second);
    assert_eq!(camera_slot(i32::MIN), CameraSlot::First);
    assert_eq!(camera_slot(i32::MAX), CameraSlot::Second);
}

#[test]
fn measurement_pass_only_measures_and_selects_cameras() {
    let mut r = Renderer::new((0.0, 0.0));
    let ops = r.decode_render(
        &vec![
            R::PushColor(red()),
            R::SetColorUniform,
            R::PushVec2f((0.0, 0.0)),
            R::PushVec2f((1.0, 1.0)),
            R::DrawLines,
            R::DrawQuads,
            R::DrawPoints,
            R::PushInt32(1),
            R::SetCamera,
        ],
        PassMode::Measure,
    );
    assert!(ops.is_empty());
    assert_eq!(r.color(), Color::black());
    assert_eq!(r.camera(), CameraSlot::Second);
    assert_eq!(r.stack_lengths(), (0, 2, 0, 1, 0));
}

#[test]
fn start_frame_resets_selection_but_keeps_positions() {
    let mut r = Renderer::new((0.0, 0.0));
    r.handle_exec_commands(&vec![
        ExecutionCommand::PushInt32(1),
        ExecutionCommand::PushVec2f((2.0, 3.0)),
        ExecutionCommand::UpdateCameraPosition,
    ]);
    r.handle_render_commands(&vec![
        R::PushInt32(1),
        R::SetCamera,
        R::PushColor(red()),
        R::SetColorUniform,
        R::PushString("left".to_string()),
    ]);
    r.start_frame();
    assert_eq!(r.camera(), CameraSlot::First);
    assert_eq!(r.color(), Color::black());
    assert!(r.stacks_empty());
    assert_eq!(r.position_of(CameraSlot::Second), (2.0, 3.0));
    assert_eq!(r.camera_position(), (0.0, 0.0));
}

#[test]
fn new_renderer_starts_empty_and_black() {
    let r = Renderer::new((0.5, 0.25));
    assert!(r.stacks_empty());
    assert_eq!(r.color(), Color { r: 0, g: 0, b: 0, a: 255 });
    assert_eq!(r.camera(), CameraSlot::First);
    assert_eq!(r.position_of(CameraSlot::First), (0.5, 0.25));
    assert_eq!(r.position_of(CameraSlot::Second), (0.5, 0.25));
}

#[test]
fn flush_empties_stacks_and_resets_color() {
    let mut r = Renderer::new((0.0, 0.0));
    r.handle_render_commands(&vec![R::PushColor(red()), R::SetColorUniform, R::PushVec2f((1.0, 1.0)), R::PushInt32(1), R::SetCamera]);
    r.flush();
    assert!(r.stacks_empty());
    assert_eq!(r.color(), Color::black());
    assert_eq!(r.camera(), CameraSlot::Second);
}
