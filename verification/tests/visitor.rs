use crayon::graphics::{
    BlendFactor, BlendValue, Comparison, CullFace, Equation, FrontFaceOrder, Resource, VertexFormat,
};
use crayon::visitor::{
    check_attribute_layout, AttributeDesc, AttributeError, BlendAction, CullAction, DepthAction,
    ErrorKind, LayoutStep, Lookup, OpenGLVisitor, VertexElement,
};

#[test]
fn buffers_are_bound_once_per_target() {
    let mut v = OpenGLVisitor::new();
    assert!(v.bind_buffer(Resource::Vertex, 3));
    assert!(!v.bind_buffer(Resource::Vertex, 3));
    assert!(v.bind_buffer(Resource::Index, 3));
    assert!(v.bind_buffer(Resource::Vertex, 4));
    assert!(!v.bind_buffer(Resource::Index, 3));
}

#[test]
fn programs_are_used_once() {
    let mut v = OpenGLVisitor::new();
    assert!(v.bind_program(7));
    assert!(!v.bind_program(7));
    v.delete_program(7);
    assert!(v.bind_program(7));
}

#[test]
fn fresh_cache_holds_the_driver_defaults() {
    let mut v = OpenGLVisitor::new();
    assert_eq!(v.set_cull_face(CullFace::Nothing), None);
    assert_eq!(v.set_front_face_order(FrontFaceOrder::CounterClockwise), None);
    assert_eq!(v.set_depth_test(Comparison::Always), None);
    assert_eq!(v.set_depth_write(true), None);
    assert_eq!(v.set_color_blend(None), None);
    assert!(!v.set_color_write(true, true, true, true));
}

#[test]
fn fresh_cache_applies_first_requests() {
    let mut v = OpenGLVisitor::new();
    assert!(v.set_viewport((0, 0), (128, 128)));
    assert!(!v.set_viewport((0, 0), (128, 128)));
    assert_eq!(v.set_cull_face(CullFace::Back), Some(CullAction::Enable(CullFace::Back)));
    assert_eq!(v.set_depth_write(false), Some(false));
    assert!(v.set_color_write(false, false, false, false));
}

fn element(format: VertexFormat, size: u8) -> Option<VertexElement> {
    Some(VertexElement { format, size, normalized: false })
}

#[test]
fn attribute_layout_matches() {
    let wanted = [
        AttributeDesc { format: VertexFormat::Float, size: 3 },
        AttributeDesc { format: VertexFormat::UByte, size: 4 },
    ];
    let found = [element(VertexFormat::Float, 3), element(VertexFormat::UByte, 4)];
    assert_eq!(check_attribute_layout(&wanted, &found), Ok(()));
    assert_eq!(check_attribute_layout(&[], &[]), Ok(()));
}

#[test]
fn attribute_layout_reports_the_first_fault() {
    let wanted = [
        AttributeDesc { format: VertexFormat::Float, size: 3 },
        AttributeDesc { format: VertexFormat::Float, size: 2 },
        AttributeDesc { format: VertexFormat::Short, size: 2 },
    ];
    let missing = [element(VertexFormat::Float, 3), None, None];
    assert_eq!(check_attribute_layout(&wanted, &missing), Err(AttributeError::Missing(1)));
    let resized = [element(VertexFormat::Float, 3), element(VertexFormat::Float, 4), None];
    assert_eq!(check_attribute_layout(&wanted, &resized), Err(AttributeError::Incompatible(1)));
    let reformatted = [
        element(VertexFormat::Fixed, 3),
        element(VertexFormat::Float, 2),
        element(VertexFormat::Short, 2),
    ];
    assert_eq!(check_attribute_layout(&wanted, &reformatted), Err(AttributeError::Incompatible(0)));
}

#[test]
fn state_changes_are_remembered() {
    let mut v = OpenGLVisitor::new();
    assert!(v.set_viewport((1, 2), (3, 4)));
    assert!(!v.set_viewport((1, 2), (3, 4)));
    assert_eq!(v.set_cull_face(CullFace::Front), Some(CullAction::Enable(CullFace::Front)));
    assert_eq!(v.set_cull_face(CullFace::Nothing), Some(CullAction::Disable));
    assert_eq!(v.set_cull_face(CullFace::Nothing), None);
    assert_eq!(v.set_front_face_order(FrontFaceOrder::Clockwise), Some(FrontFaceOrder::Clockwise));
    assert_eq!(v.set_depth_test(Comparison::Less), Some(DepthAction::Enable(Comparison::Less)));
    assert_eq!(v.set_depth_test(Comparison::Always), Some(DepthAction::Disable));
    assert_eq!(v.set_depth_write(false), Some(false));
    assert_eq!(v.set_depth_write(false), None);
    assert_eq!(v.set_depth_write(true), Some(true));
    assert!(v.set_color_write(true, false, true, false));
    assert!(!v.set_color_write(true, false, true, false));
}

#[test]
fn blending_is_enabled_only_when_it_was_off() {
    let mut v = OpenGLVisitor::new();
    let alpha = (
        Equation::Add,
        BlendFactor::Value(BlendValue::SourceAlpha),
        BlendFactor::OneMinusValue(BlendValue::SourceAlpha),
    );
    assert_eq!(
        v.set_color_blend(Some(alpha)),
        Some(BlendAction::Apply { enable: true, equation: alpha.0, src: alpha.1, dst: alpha.2 })
    );
    assert_eq!(v.set_color_blend(Some(alpha)), None);
    let add = (Equation::Subtract, BlendFactor::One, BlendFactor::One);
    assert_eq!(
        v.set_color_blend(Some(add)),
        Some(BlendAction::Apply { enable: false, equation: add.0, src: add.1, dst: add.2 })
    );
    assert_eq!(v.set_color_blend(None), Some(BlendAction::Disable));
    assert_eq!(v.set_color_blend(None), None);
}

#[test]
fn layout_needs_a_program_and_a_vertex_buffer() {
    let mut v = OpenGLVisitor::new();
    assert_eq!(v.bind_attribute_layout(), Err(ErrorKind::InvalidHandle));
    v.bind_program(1);
    assert_eq!(v.bind_attribute_layout(), Err(ErrorKind::InvalidHandle));
    v.bind_buffer(Resource::Index, 2);
    assert_eq!(v.bind_attribute_layout(), Err(ErrorKind::InvalidHandle));
}

#[test]
fn vertex_arrays_are_generated_once_per_program_and_buffer() {
    let mut v = OpenGLVisitor::new();
    v.bind_program(1);
    v.bind_buffer(Resource::Vertex, 2);
    assert_eq!(v.bind_attribute_layout(), Ok(LayoutStep::Generate { program: 1, buffer: 2 }));
    v.vertex_array_generated(10);
    v.record_vertex_array(1, 2, 10);
    assert_eq!(v.bind_attribute_layout(), Ok(LayoutStep::Bound));
    v.bind_buffer(Resource::Vertex, 3);
    assert_eq!(v.bind_attribute_layout(), Ok(LayoutStep::Generate { program: 1, buffer: 3 }));
    v.vertex_array_generated(11);
    v.record_vertex_array(1, 3, 11);
    v.bind_buffer(Resource::Vertex, 2);
    assert_eq!(v.bind_attribute_layout(), Ok(LayoutStep::BindCached(10)));
    assert_eq!(v.bind_attribute_layout(), Ok(LayoutStep::Bound));
}

#[test]
fn locations_are_queried_once() {
    let mut v = OpenGLVisitor::new();
    assert_eq!(v.get_uniform_location(5, "tint"), Err(ErrorKind::InvalidHandle));
    v.program_created(5);
    assert_eq!(v.get_uniform_location(5, "tint"), Ok(Lookup::Query));
    v.record_uniform_location(5, "tint", 3);
    assert_eq!(v.get_uniform_location(5, "tint"), Ok(Lookup::Cached(3)));
    assert_eq!(v.get_uniform_location(5, "scale"), Ok(Lookup::Query));
    v.record_attribute_location(5, "position", 0);
    assert_eq!(v.get_attribute_location(5, "position"), Ok(Lookup::Cached(0)));
    assert_eq!(v.get_uniform_location(5, "position"), Ok(Lookup::Cached(0)));
}

#[test]
fn created_and_deleted_programs_forget_locations() {
    let mut v = OpenGLVisitor::new();
    v.program_created(5);
    v.record_uniform_location(5, "tint", 3);
    v.delete_program(5);
    assert_eq!(v.get_uniform_location(5, "tint"), Ok(Lookup::Query));
    v.record_uniform_location(5, "tint", 4);
    v.program_created(5);
    assert_eq!(v.get_uniform_location(5, "tint"), Ok(Lookup::Query));
    v.delete_program(9);
    assert_eq!(v.get_uniform_location(9, "tint"), Err(ErrorKind::InvalidHandle));
}

#[test]
fn recording_for_an_unknown_program_changes_nothing() {
    let mut v = OpenGLVisitor::new();
    v.record_uniform_location(8, "tint", 1);
    assert_eq!(v.get_uniform_location(8, "tint"), Err(ErrorKind::InvalidHandle));
}
