use fractal_view::instructions::RenderInstruction;
use fractal_view::panel::{EditSignals, PropertiesWindow};
use fractal_view::params::FractalType;
use fractal_view::rat::Rat;
use fractal_view::renderer_error;
use fractal_view::sync::{
    frame_writes, instruction_writes, quad_indices, quad_vertices, uniform_name,
    uniform_write_outcome, UniformId, UniformValue, UniformWrite,
};

#[test]
fn untouched_frame_emits_iterations_choice_and_axis_range() {
    let mut w = PropertiesWindow::default();
    let out = w.draw(&EditSignals::none(), false);
    assert_eq!(out.len(), 3);
    assert_eq!(out[0], RenderInstruction::Iterations(500));
    assert_eq!(out[1], RenderInstruction::FractalChoice(FractalType::Mandelbrot));
    match out[2] {
        RenderInstruction::AxisRange { x_min, x_max, .. } => {
            assert!((x_min.num as f64 / x_min.den as f64 + 1.0).abs() < 1e-12);
            assert!((x_max.num as f64 / x_max.den as f64 - 1.0).abs() < 1e-12);
        }
        ref other => panic!("expected an axis range, got {:?}", other),
    }
}

#[test]
fn captured_mouse_suppresses_the_axis_range() {
    let mut w = PropertiesWindow::default();
    let out = w.draw(&EditSignals::none(), true);
    assert_eq!(out.len(), 2);
    assert!(out
        .iter()
        .all(|i| !matches!(i, RenderInstruction::AxisRange { .. })));
}

#[test]
fn julia_selection_emits_exactly_one_choice_with_the_constant() {
    let mut w = PropertiesWindow::default();
    let mut edits = EditSignals::none();
    edits.julia_selected = Some(true);
    let out = w.draw(&edits, false);
    let choices: Vec<&RenderInstruction> = out
        .iter()
        .filter(|i| matches!(i, RenderInstruction::FractalChoice(_)))
        .collect();
    assert_eq!(choices.len(), 1);
    assert_eq!(
        *choices[0],
        RenderInstruction::FractalChoice(FractalType::Julia(
            Rat::new(-4, 5),
            Rat::new(39, 250)
        ))
    );

    // The selection is sticky: the next frame without interaction still
    // emits the Julia choice, exactly once.
    let out2 = w.draw(&EditSignals::none(), false);
    let choices2: Vec<&RenderInstruction> = out2
        .iter()
        .filter(|i| matches!(i, RenderInstruction::FractalChoice(_)))
        .collect();
    assert_eq!(choices2.len(), 1);
    assert_eq!(
        *choices2[0],
        RenderInstruction::FractalChoice(FractalType::Julia(
            Rat::new(-4, 5),
            Rat::new(39, 250)
        ))
    );
}

#[test]
fn julia_constant_edits_apply_only_while_julia_is_selected() {
    let mut w = PropertiesWindow::default();
    let mut edits = EditSignals::none();
    edits.julia_cx = Some(Rat::new(1, 4));
    w.draw(&edits, false);
    assert_eq!(w.params.julia_cx, Rat::new(-4, 5));

    let mut edits = EditSignals::none();
    edits.julia_selected = Some(true);
    edits.julia_cx = Some(Rat::new(1, 4));
    w.draw(&edits, false);
    assert_eq!(w.params.julia_cx, Rat::new(1, 4));
}

#[test]
fn hsv_and_terminal_color_are_emitted_only_on_interaction() {
    let mut w = PropertiesWindow::default();
    let mut edits = EditSignals::none();
    edits.hsv_s = Some(Rat::new(1, 2));
    let out = w.draw(&edits, true);
    assert_eq!(out.len(), 3);
    assert_eq!(
        out[2],
        RenderInstruction::HsvScale(Rat::from_int(1), Rat::new(1, 2), Rat::from_int(1))
    );

    let mut edits = EditSignals::none();
    edits.term_r = Some(Rat::new(3, 10));
    let out = w.draw(&edits, true);
    assert_eq!(out.len(), 3);
    assert_eq!(
        out[2],
        RenderInstruction::TerminalColor(
            Rat::new(3, 10),
            Rat::from_int(0),
            Rat::from_int(0)
        )
    );
}

#[test]
fn panel_camera_width_edit_keeps_aspect_under_lock() {
    let mut w = PropertiesWindow::default();
    let mut edits = EditSignals::none();
    edits.camera_width = Some(Rat::from_int(4));
    w.draw(&edits, false);
    assert_eq!(w.view.camera_width, Rat::from_int(4));
    // height = (600 / 800) * 4 = 3
    assert_eq!(w.view.camera_height, Rat::from_int(3));
}

#[test]
fn panel_focus_edit_is_written_through() {
    let mut w = PropertiesWindow::default();
    let mut edits = EditSignals::none();
    edits.focus_x = Some(Rat::new(-1, 2));
    edits.focus_y = Some(Rat::new(1, 4));
    w.draw(&edits, false);
    assert_eq!(w.view.focus_x, Rat::new(-1, 2));
    assert_eq!(w.view.focus_y, Rat::new(1, 4));
}

#[test]
fn panel_zoom_edit_is_written_through() {
    let mut w = PropertiesWindow::default();
    let mut edits = EditSignals::none();
    edits.zoom = Some(Rat::new(5, 2));
    w.draw(&edits, false);
    assert_eq!(w.view.zoom, Rat::new(5, 2));
}

#[test]
fn uniform_names_match_the_shader_surface_exactly() {
    assert_eq!(uniform_name(UniformId::XAxisRange), "x_axis_range");
    assert_eq!(uniform_name(UniformId::YAxisRange), "y_axis_range");
    assert_eq!(uniform_name(UniformId::Julia), "julia");
    assert_eq!(uniform_name(UniformId::JuliaConst), "julia_const");
    assert_eq!(uniform_name(UniformId::MaxIterations), "max_iterations");
    assert_eq!(uniform_name(UniformId::HsvScale), "hsv_scale");
    assert_eq!(uniform_name(UniformId::TerminalColor), "terminal_color");
    assert_eq!(uniform_name(UniformId::ScreenSize), "screen_size");
}

#[test]
fn iteration_uploads_are_clamped_to_at_least_one() {
    let w = instruction_writes(&RenderInstruction::Iterations(0));
    assert_eq!(
        w,
        vec![UniformWrite { id: UniformId::MaxIterations, value: UniformValue::Int(1) }]
    );
    let w = instruction_writes(&RenderInstruction::Iterations(-5));
    assert_eq!(
        w,
        vec![UniformWrite { id: UniformId::MaxIterations, value: UniformValue::Int(1) }]
    );
    let w = instruction_writes(&RenderInstruction::Iterations(500));
    assert_eq!(
        w,
        vec![UniformWrite { id: UniformId::MaxIterations, value: UniformValue::Int(500) }]
    );
}

#[test]
fn julia_choice_writes_flag_and_constant() {
    let w = instruction_writes(&RenderInstruction::FractalChoice(FractalType::Julia(
        Rat::new(-4, 5),
        Rat::new(39, 250),
    )));
    assert_eq!(w.len(), 2);
    assert_eq!(w[0], UniformWrite { id: UniformId::Julia, value: UniformValue::Flag(true) });
    assert_eq!(
        w[1],
        UniformWrite {
            id: UniformId::JuliaConst,
            value: UniformValue::Pair(Rat::new(-4, 5), Rat::new(39, 250)),
        }
    );

    let w = instruction_writes(&RenderInstruction::FractalChoice(FractalType::Mandelbrot));
    assert_eq!(w, vec![UniformWrite { id: UniformId::Julia, value: UniformValue::Flag(false) }]);
}

#[test]
fn frame_writes_end_with_the_viewport_size() {
    let instructions = vec![
        RenderInstruction::Iterations(500),
        RenderInstruction::FractalChoice(FractalType::Mandelbrot),
    ];
    let w = frame_writes(&instructions, 800, 600);
    assert_eq!(w.len(), 3);
    assert_eq!(
        w[0],
        UniformWrite { id: UniformId::MaxIterations, value: UniformValue::Int(500) }
    );
    assert_eq!(w[1], UniformWrite { id: UniformId::Julia, value: UniformValue::Flag(false) });
    assert_eq!(
        w[2],
        UniformWrite { id: UniformId::ScreenSize, value: UniformValue::Size(800, 600) }
    );
}

#[test]
fn empty_frames_still_upload_the_viewport_size() {
    let w = frame_writes(&Vec::new(), 320, 200);
    assert_eq!(
        w,
        vec![UniformWrite { id: UniformId::ScreenSize, value: UniformValue::Size(320, 200) }]
    );
}

#[test]
fn quad_geometry_is_the_documented_static_quad() {
    assert_eq!(quad_vertices(), vec![-1, -1, 0, 1, 1, 0, -1, 1, 0, 1, -1, 0]);
    assert_eq!(quad_indices(), vec![0, 1, 2, 0, 3, 1]);
}

#[test]
fn a_missing_uniform_is_a_recoverable_error_naming_it() {
    assert!(uniform_write_outcome(UniformId::Julia, true).is_ok());
    match uniform_write_outcome(UniformId::HsvScale, false) {
        Err(renderer_error::Error::SetUniformError { name, message }) => {
            assert_eq!(name, "hsv_scale");
            assert_eq!(message, "Uniform not found");
        }
        other => panic!("expected a SetUniformError, got {:?}", other),
    }
}
