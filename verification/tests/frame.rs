use crayon::frame::{
    DeviceCommand, Frame, FramePayload, FrameTask, IndexBufferDescriptor, PipelineDescriptor,
    PostFrameTask, PreFrameTask, VertexBufferDescriptor, ViewDescriptor,
};
use crayon::graphics::{Handle, IndexFormat, Primitive, ResourceHint};

struct Payload;

impl FramePayload for Payload {
    type State = u32;
    type Uniform = [u32; 2];
    type Layout = u16;
    type Attributes = (u8, [u16; 3]);
}

fn h(index: u32) -> Handle {
    Handle { index, version: 1 }
}

fn draw(frame: &mut Frame<Payload>, view: u32, from: u32, uniforms: &[(&str, [u32; 2])]) {
    let mut entries = Vec::new();
    for (name, value) in uniforms {
        entries.push((frame.buf.extend_from_str(name), *value));
    }
    let uniforms = frame.buf.extend_from_slice(&entries);
    frame.drawcalls.push(FrameTask {
        view: h(view),
        pipeline: h(50),
        vb: h(60),
        ib: None,
        primitive: Primitive::Triangles,
        from,
        len: 3,
        uniforms,
    });
}

#[test]
fn new_frame_is_empty() {
    let frame: Frame<Payload> = Frame::with_capacity(16);
    assert!(frame.pre.is_empty());
    assert!(frame.drawcalls.is_empty());
    assert!(frame.post.is_empty());
}

#[test]
fn clear_removes_everything() {
    let mut frame: Frame<Payload> = Frame::with_capacity(16);
    draw(&mut frame, 1, 0, &[("a", [1, 2])]);
    frame.post.push(PostFrameTask::DeleteView(h(1)));
    frame.clear();
    assert!(frame.drawcalls.is_empty());
    assert!(frame.post.is_empty());
    assert!(frame.dispatch().is_empty());
}

#[test]
fn dispatch_sorts_draws_by_view_keeping_recorded_order() {
    let mut frame: Frame<Payload> = Frame::with_capacity(16);
    draw(&mut frame, 3, 0, &[]);
    draw(&mut frame, 1, 10, &[]);
    draw(&mut frame, 3, 20, &[]);
    draw(&mut frame, 2, 30, &[]);
    draw(&mut frame, 1, 40, &[]);
    let cmds = frame.dispatch();
    let order: Vec<(u32, u32)> = frame.drawcalls.iter().map(|d| (d.view.index, d.from)).collect();
    assert_eq!(order, vec![(1, 10), (1, 40), (2, 30), (3, 0), (3, 20)]);
    assert_eq!(cmds.len(), 10);
    let mut seen = Vec::new();
    for pair in cmds.chunks(2) {
        match (&pair[0], &pair[1]) {
            (DeviceCommand::BindView(v), DeviceCommand::Draw { from, .. }) => seen.push((v.index, *from)),
            _ => panic!("expected a view binding followed by a draw"),
        }
    }
    assert_eq!(seen, order);
}

#[test]
fn views_order_by_index_then_version() {
    let mut frame: Frame<Payload> = Frame::with_capacity(4);
    draw(&mut frame, 2, 0, &[]);
    frame.drawcalls[0].view = Handle { index: 2, version: 5 };
    draw(&mut frame, 2, 1, &[]);
    frame.drawcalls[1].view = Handle { index: 2, version: 3 };
    draw(&mut frame, 1, 2, &[]);
    frame.drawcalls[2].view = Handle { index: 1, version: 9 };
    frame.dispatch();
    let order: Vec<u32> = frame.drawcalls.iter().map(|d| d.from).collect();
    assert_eq!(order, vec![2, 1, 0]);
}

#[test]
fn draw_commands_carry_named_uniforms() {
    let mut frame: Frame<Payload> = Frame::with_capacity(16);
    draw(&mut frame, 1, 5, &[("tint", [1, 2]), ("scale", [3, 4])]);
    let cmds = frame.dispatch();
    match &cmds[1] {
        DeviceCommand::Draw { primitive, pipeline, vb, ib, from, len, uniforms } => {
            assert_eq!(*primitive, Primitive::Triangles);
            assert_eq!(*pipeline, h(50));
            assert_eq!(*vb, h(60));
            assert_eq!(*ib, None);
            assert_eq!((*from, *len), (5, 3));
            assert_eq!(
                uniforms,
                &vec![("tint".to_string(), [1u32, 2]), ("scale".to_string(), [3u32, 4])]
            );
        }
        _ => panic!("expected a draw"),
    }
}

#[test]
fn pre_tasks_read_their_payloads() {
    let mut frame: Frame<Payload> = Frame::with_capacity(64);
    let view = frame.buf.extend(&ViewDescriptor {
        clear_color: Some(0xff00ff00),
        clear_depth: Some(1.0f32.to_bits()),
        clear_stencil: None,
    });
    let vs = frame.buf.extend_from_str("void main() {}");
    let fs = frame.buf.extend_from_str("void main() { }");
    let pipeline = frame.buf.extend(&PipelineDescriptor::<Payload> {
        vs,
        fs,
        state: 77,
        attributes: (2, [1, 2, 3]),
    });
    let vertices = frame.buf.extend_from_slice(&[9u8, 8, 7]);
    let vb = frame.buf.extend(&VertexBufferDescriptor::<Payload> {
        layout: 12,
        hint: ResourceHint::Static,
        size: 3,
        data: Some(vertices),
    });
    let ib = frame.buf.extend(&IndexBufferDescriptor {
        format: IndexFormat::UShort,
        hint: ResourceHint::Dynamic,
        size: 64,
        data: None,
    });
    let name = frame.buf.extend_from_str("time");
    let value = frame.buf.extend(&[5u32, 6]);
    let state = frame.buf.extend(&99u32);
    frame.pre.push(PreFrameTask::CreateView(h(1), view));
    frame.pre.push(PreFrameTask::UpdateViewRect(h(1), (1, 2), (3, 4)));
    frame.pre.push(PreFrameTask::CreatePipeline(h(2), pipeline));
    frame.pre.push(PreFrameTask::UpdatePipelineUniform(h(2), name, value));
    frame.pre.push(PreFrameTask::UpdatePipelineState(h(2), state));
    frame.pre.push(PreFrameTask::CreateVertexBuffer(h(3), vb));
    frame.pre.push(PreFrameTask::UpdateVertexBuffer(h(3), 1, vertices));
    frame.pre.push(PreFrameTask::CreateIndexBuffer(h(4), ib));
    frame.post.push(PostFrameTask::DeleteIndexBuffer(h(4)));
    let cmds = frame.dispatch();
    assert_eq!(cmds.len(), 9);
    match &cmds[0] {
        DeviceCommand::CreateView { view, clear_color, clear_depth, clear_stencil } => {
            assert_eq!(*view, h(1));
            assert_eq!(*clear_color, Some(0xff00ff00));
            assert_eq!(clear_depth.map(f32::from_bits), Some(1.0));
            assert_eq!(*clear_stencil, None);
        }
        _ => panic!("expected a view creation"),
    }
    match &cmds[1] {
        DeviceCommand::UpdateViewRect { view, position, size } => {
            assert_eq!((*view, *position, *size), (h(1), (1, 2), (3, 4)));
        }
        _ => panic!("expected a view rectangle"),
    }
    match &cmds[2] {
        DeviceCommand::CreatePipeline { pipeline, state, vs, fs, attributes } => {
            assert_eq!(*pipeline, h(2));
            assert_eq!(*state, 77);
            assert_eq!(vs, "void main() {}");
            assert_eq!(fs, "void main() { }");
            assert_eq!(*attributes, (2, [1, 2, 3]));
        }
        _ => panic!("expected a pipeline creation"),
    }
    match &cmds[3] {
        DeviceCommand::UpdatePipelineUniform { pipeline, name, variable } => {
            assert_eq!((*pipeline, name.as_str(), *variable), (h(2), "time", [5, 6]));
        }
        _ => panic!("expected a uniform update"),
    }
    match &cmds[4] {
        DeviceCommand::UpdatePipelineState { pipeline, state } => {
            assert_eq!((*pipeline, *state), (h(2), 99));
        }
        _ => panic!("expected a state update"),
    }
    match &cmds[5] {
        DeviceCommand::CreateVertexBuffer { vb, layout, hint, size, data } => {
            assert_eq!((*vb, *layout, *hint, *size), (h(3), 12, ResourceHint::Static, 3));
            assert_eq!(data, &Some(vec![9u8, 8, 7]));
        }
        _ => panic!("expected a vertex buffer creation"),
    }
    match &cmds[6] {
        DeviceCommand::UpdateVertexBuffer { vb, offset, data } => {
            assert_eq!((*vb, *offset, data.as_slice()), (h(3), 1, &[9u8, 8, 7][..]));
        }
        _ => panic!("expected a vertex buffer update"),
    }
    match &cmds[7] {
        DeviceCommand::CreateIndexBuffer { ib, format, hint, size, data } => {
            assert_eq!((*ib, *format, *hint, *size), (h(4), IndexFormat::UShort, ResourceHint::Dynamic, 64));
            assert_eq!(*data, None);
        }
        _ => panic!("expected an index buffer creation"),
    }
    assert!(matches!(cmds[8], DeviceCommand::DeleteIndexBuffer(x) if x == h(4)));
}

#[test]
fn commands_come_pre_then_draws_then_post() {
    let mut frame: Frame<Payload> = Frame::with_capacity(16);
    frame.pre.push(PreFrameTask::UpdateViewClear(h(1), Some(1), None, Some(-1)));
    draw(&mut frame, 1, 0, &[]);
    frame.post.push(PostFrameTask::DeleteView(h(1)));
    frame.post.push(PostFrameTask::DeletePipeline(h(2)));
    frame.post.push(PostFrameTask::DeleteVertexBuffer(h(3)));
    let cmds = frame.dispatch();
    assert_eq!(cmds.len(), 6);
    assert!(matches!(cmds[0], DeviceCommand::UpdateViewClear { clear_stencil: Some(-1), .. }));
    assert!(matches!(cmds[1], DeviceCommand::BindView(v) if v == h(1)));
    assert!(matches!(cmds[2], DeviceCommand::Draw { .. }));
    assert!(matches!(cmds[3], DeviceCommand::DeleteView(v) if v == h(1)));
    assert!(matches!(cmds[4], DeviceCommand::DeletePipeline(v) if v == h(2)));
    assert!(matches!(cmds[5], DeviceCommand::DeleteVertexBuffer(v) if v == h(3)));
}

#[test]
fn readiness_checks_every_payload() {
    let mut frame: Frame<Payload> = Frame::with_capacity(16);
    assert!(frame.is_ready());
    draw(&mut frame, 1, 0, &[("tint", [1, 2])]);
    let name = frame.buf.extend_from_str("alpha");
    let value = frame.buf.extend(&[0u32, 0]);
    frame.pre.push(PreFrameTask::UpdatePipelineUniform(h(2), name, value));
    assert!(frame.is_ready());

    // A pointer taken from a longer buffer reaches past the end of this one.
    let mut other: Frame<Payload> = Frame::with_capacity(16);
    other.buf.extend(&[0u8; 64]);
    let far = other.buf.extend(&5u32);
    frame.pre.push(PreFrameTask::UpdatePipelineState(h(2), far));
    assert!(!frame.is_ready());
    frame.pre.pop();

    // Bytes that are not UTF-8 cannot be read as a name: a two-byte text
    // pointer, taken at the same offset in another buffer, lands on them.
    let bytes = frame.buf.extend_from_slice(&[0xffu8, 0xfe]);
    let mut filler = Frame::<Payload>::with_capacity(0);
    filler.buf.extend_from_slice(&vec![b'a'; bytes.offset() as usize]);
    let text_ptr = filler.buf.extend_from_str("\u{00e9}");
    assert_eq!(text_ptr.offset(), bytes.offset());
    assert!(!frame.buf.holds_text(text_ptr));
    frame.pre.push(PreFrameTask::UpdatePipelineUniform(h(2), text_ptr, value));
    assert!(!frame.is_ready());
}
