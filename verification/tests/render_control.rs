use tri_render::control::RenderSession;
use tri_render::frame::drain_messages;
use tri_render::init::{
    clear_color_bits, color_attribute, fragment_shader_source, on_init_failure,
    position_attribute, vertex_shader_source, FailureAction, InitStep, VertexAttribute,
};
use tri_render::messages::{resize_message, ThreadMessage, Viewport};

#[test]
fn resize_filter_forwards_positive_dimensions() {
    assert_eq!(
        resize_message(800, 600),
        Some(ThreadMessage::Resize(800, 600))
    );
    assert_eq!(
        resize_message(i32::MAX as u32, 1),
        Some(ThreadMessage::Resize(i32::MAX, 1))
    );
}

#[test]
fn resize_filter_drops_zero_and_oversized_dimensions() {
    assert_eq!(resize_message(0, 600), None);
    assert_eq!(resize_message(800, 0), None);
    assert_eq!(resize_message(0, 0), None);
    assert_eq!(resize_message(i32::MAX as u32 + 1, 600), None);
    assert_eq!(resize_message(800, u32::MAX), None);
}

#[test]
fn drain_applies_last_resize_before_exit() {
    let msgs = vec![
        ThreadMessage::Resize(800, 600),
        ThreadMessage::Resize(640, 480),
        ThreadMessage::Exit,
        ThreadMessage::Resize(1, 1),
    ];
    let start = Viewport { width: 100, height: 100 };
    let (exit, viewport) = drain_messages(&msgs, start);
    assert!(exit);
    assert_eq!(viewport, Viewport { width: 640, height: 480 });
}

#[test]
fn drain_without_exit_keeps_running() {
    let msgs = vec![
        ThreadMessage::Resize(320, 240),
        ThreadMessage::Resize(800, 600),
    ];
    let start = Viewport { width: 100, height: 100 };
    let (exit, viewport) = drain_messages(&msgs, start);
    assert!(!exit);
    assert_eq!(viewport, Viewport { width: 800, height: 600 });
}

#[test]
fn drain_of_empty_queue_changes_nothing() {
    let msgs: Vec<ThreadMessage> = Vec::new();
    let start = Viewport { width: 640, height: 480 };
    assert_eq!(drain_messages(&msgs, start), (false, start));
}

#[test]
fn drain_stops_at_leading_exit() {
    let msgs = vec![ThreadMessage::Exit, ThreadMessage::Resize(800, 600)];
    let start = Viewport { width: 640, height: 480 };
    assert_eq!(drain_messages(&msgs, start), (true, start));
}

#[test]
fn frames_advance_until_exit() {
    let mut session = RenderSession::new(Viewport { width: 100, height: 100 });
    assert!(session
        .send_message(ThreadMessage::Resize(800, 600))
        .is_ok());
    session.run_frame();
    assert!(session.running);
    assert_eq!(session.viewport, Viewport { width: 800, height: 600 });
    assert_eq!(session.frames_drawn, 1);
    assert!(session.send_message(ThreadMessage::Exit).is_ok());
    session.run_frame();
    assert!(!session.running);
    assert_eq!(session.frames_drawn, 1);
}

#[test]
fn stop_terminates_and_later_sends_report_closed() {
    let session = RenderSession::new(Viewport { width: 100, height: 100 });
    let mut stopped = session.stop();
    assert!(!stopped.running);
    assert_eq!(stopped.queue.len(), 0);
    let rejected = stopped.send_message(ThreadMessage::Resize(10, 10));
    assert_eq!(rejected, Err(ThreadMessage::Resize(10, 10)));
    assert!(!stopped.running);
}

#[test]
fn controller_scenario_applies_only_valid_resize() {
    let mut session = RenderSession::new(Viewport { width: 100, height: 100 });
    assert!(session
        .send_message(ThreadMessage::Resize(800, 600))
        .is_ok());
    // A zero-width resize is filtered by the event thread and never sent.
    assert_eq!(resize_message(0, 600), None);
    assert!(session.send_message(ThreadMessage::Exit).is_ok());
    let mut stopped = session.stop();
    assert!(!stopped.running);
    assert_eq!(stopped.viewport, Viewport { width: 800, height: 600 });
    assert_eq!(stopped.frames_drawn, 0);
    assert_eq!(
        stopped.send_message(ThreadMessage::Exit),
        Err(ThreadMessage::Exit)
    );
}

#[test]
fn shader_compile_failure_is_fatal_with_its_diagnostic() {
    let log = String::from("0:3(1): error: syntax error, unexpected NEW_IDENTIFIER");
    match on_init_failure(InitStep::CompileVertexShader, log.clone()) {
        FailureAction::Abort(diag) => {
            assert_eq!(diag, log);
            assert!(!diag.is_empty());
        }
        FailureAction::ContinueDegraded(_) => panic!("compile failure must abort"),
    }
    match on_init_failure(InitStep::CompileFragmentShader, String::from("bad source")) {
        FailureAction::Abort(diag) => assert_eq!(diag, "bad source"),
        FailureAction::ContinueDegraded(_) => panic!("compile failure must abort"),
    }
}

#[test]
fn surface_activation_and_link_failures_are_fatal() {
    for step in [
        InitStep::CreateSurface,
        InitStep::ActivateContext,
        InitStep::LinkProgram,
    ] {
        match on_init_failure(step, String::from("no luck")) {
            FailureAction::Abort(diag) => assert_eq!(diag, "no luck"),
            FailureAction::ContinueDegraded(_) => panic!("this step must be fatal"),
        }
    }
}

#[test]
fn vsync_failure_is_survived() {
    match on_init_failure(InitStep::SetSwapInterval, String::from("not supported")) {
        FailureAction::ContinueDegraded(diag) => assert_eq!(diag, "not supported"),
        FailureAction::Abort(_) => panic!("a vsync failure must not abort"),
    }
}

#[test]
fn vertex_attributes_describe_the_interleaved_layout() {
    assert_eq!(
        position_attribute(),
        VertexAttribute { index: 0, components: 2, stride: 20, offset: 0 }
    );
    assert_eq!(
        color_attribute(),
        VertexAttribute { index: 1, components: 3, stride: 20, offset: 8 }
    );
}

#[test]
fn clear_color_is_opaque_white() {
    let (r, g, b, a) = clear_color_bits();
    assert_eq!(f32::from_bits(r), 1.0);
    assert_eq!(f32::from_bits(g), 1.0);
    assert_eq!(f32::from_bits(b), 1.0);
    assert_eq!(f32::from_bits(a), 1.0);
}

#[test]
fn shader_sources_are_the_embedded_programs() {
    let vs = vertex_shader_source();
    let fs = fragment_shader_source();
    assert!(vs.contains("#version 330 core"));
    assert!(vs.contains("gl_Position = vec4(aPos, 0.0, 1.0);"));
    assert!(fs.contains("#version 330 core"));
    assert!(fs.contains("FragColor = vec4(bColor, 1.0);"));
}
