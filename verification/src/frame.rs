//! A frame: the tasks recorded for one frame, their payloads in a
//! `TaskBuffer`, and the plan of device commands that dispatching it makes.
use crate::draw_order::{draws_on, sort_by_view, sorted_by_view};
use crate::graphics::{
    IndexBufferHandle, IndexFormat, PipelineHandle, Primitive,
    ResourceHint, VertexBufferHandle, ViewHandle,
};
use crate::task_buffer::{bytes_at, in_bounds, TaskBuffer, TaskBufferPtr};
use crate::task_value::{decode_seq, TaskValue};
use vstd::prelude::*;
use vstd::string::StringSliceAdditionalSpecFns;
use vstd::utf8::*;

verus! {

/// The payload types that a frame carries to the device without looking
/// into them: render states, uniform variables, vertex layouts and
/// vertex attribute tables.
pub trait FramePayload {
    type State: TaskValue + Copy;

    type Uniform: TaskValue + Copy;

    type Layout: TaskValue + Copy;

    type Attributes: TaskValue + Copy;
}

type ViewFields = ((Option<u32>, Option<u32>), Option<i32>);

/// The initial clear values of a view. `clear_depth` holds the bit
/// pattern of an `f32`.
#[derive(Clone, Copy, Debug, PartialEq, Eq, Structural)]
pub struct ViewDescriptor {
    pub clear_color: Option<u32>,
    pub clear_depth: Option<u32>,
    pub clear_stencil: Option<i32>,
}

impl ViewDescriptor {
    pub open spec fn spec_fields(self) -> ViewFields {
        ((self.clear_color, self.clear_depth), self.clear_stencil)
    }

    pub open spec fn spec_from_fields(f: ViewFields) -> ViewDescriptor {
        ViewDescriptor { clear_color: f.0.0, clear_depth: f.0.1, clear_stencil: f.1 }
    }
}

impl TaskValue for ViewDescriptor {
    open spec fn spec_size() -> nat {
        ViewFields::spec_size()
    }

    open spec fn spec_encode(self) -> Seq<u8> {
        self.spec_fields().spec_encode()
    }

    open spec fn spec_decode(bytes: Seq<u8>) -> ViewDescriptor {
        Self::spec_from_fields(ViewFields::spec_decode(bytes))
    }

    proof fn lemma_encode_decode(v: ViewDescriptor) {
        ViewFields::lemma_encode_decode(v.spec_fields());
    }

    fn byte_size() -> (n: Option<usize>) {
        ViewFields::byte_size()
    }

    fn encode(&self, out: &mut Vec<u8>) {
        let fields: ViewFields = ((self.clear_color, self.clear_depth), self.clear_stencil);
        fields.encode(out);
    }

    fn decode(bytes: &[u8]) -> (v: ViewDescriptor) {
        let f = ViewFields::decode(bytes);
        ViewDescriptor { clear_color: f.0.0, clear_depth: f.0.1, clear_stencil: f.1 }
    }
}

/// The shaders, render state and vertex attributes of a pipeline.
pub struct PipelineDescriptor<P: FramePayload> {
    pub vs: TaskBufferPtr<str>,
    pub fs: TaskBufferPtr<str>,
    pub state: P::State,
    pub attributes: P::Attributes,
}

impl<P: FramePayload> Clone for PipelineDescriptor<P> {
    fn clone(&self) -> (r: Self)
        ensures
            r == *self,
    {
        PipelineDescriptor { vs: self.vs, fs: self.fs, state: self.state, attributes: self.attributes }
    }
}

impl<P: FramePayload> Copy for PipelineDescriptor<P> {
}

impl<P: FramePayload> PipelineDescriptor<P> {
    pub open spec fn spec_fields(self) -> (
        (TaskBufferPtr<str>, TaskBufferPtr<str>),
        (P::State, P::Attributes),
    ) {
        ((self.vs, self.fs), (self.state, self.attributes))
    }
}

impl<P: FramePayload> TaskValue for PipelineDescriptor<P> {
    open spec fn spec_size() -> nat {
        <((TaskBufferPtr<str>, TaskBufferPtr<str>), (P::State, P::Attributes))>::spec_size()
    }

    open spec fn spec_encode(self) -> Seq<u8> {
        self.spec_fields().spec_encode()
    }

    open spec fn spec_decode(bytes: Seq<u8>) -> PipelineDescriptor<P> {
        let f = <((TaskBufferPtr<str>, TaskBufferPtr<str>), (P::State, P::Attributes))>::spec_decode(
            bytes,
        );
        PipelineDescriptor { vs: f.0.0, fs: f.0.1, state: f.1.0, attributes: f.1.1 }
    }

    proof fn lemma_encode_decode(v: PipelineDescriptor<P>) {
        <((TaskBufferPtr<str>, TaskBufferPtr<str>), (P::State, P::Attributes))>::lemma_encode_decode(
            v.spec_fields(),
        );
    }

    fn byte_size() -> (n: Option<usize>) {
        <((TaskBufferPtr<str>, TaskBufferPtr<str>), (P::State, P::Attributes))>::byte_size()
    }

    fn encode(&self, out: &mut Vec<u8>) {
        let fields = ((self.vs, self.fs), (self.state, self.attributes));
        fields.encode(out);
    }

    fn decode(bytes: &[u8]) -> (v: PipelineDescriptor<P>) {
        let f = <((TaskBufferPtr<str>, TaskBufferPtr<str>), (P::State, P::Attributes))>::decode(
            bytes,
        );
        PipelineDescriptor { vs: f.0.0, fs: f.0.1, state: f.1.0, attributes: f.1.1 }
    }
}

/// The layout, usage hint, size and initial data of a vertex buffer.
pub struct VertexBufferDescriptor<P: FramePayload> {
    pub layout: P::Layout,
    pub hint: ResourceHint,
    pub size: u32,
    pub data: Option<TaskBufferPtr<[u8]>>,
}

impl<P: FramePayload> Clone for VertexBufferDescriptor<P> {
    fn clone(&self) -> (r: Self)
        ensures
            r == *self,
    {
        VertexBufferDescriptor {
            layout: self.layout,
            hint: self.hint,
            size: self.size,
            data: self.data,
        }
    }
}

impl<P: FramePayload> Copy for VertexBufferDescriptor<P> {
}

impl<P: FramePayload> VertexBufferDescriptor<P> {
    pub open spec fn spec_fields(self) -> (
        (P::Layout, ResourceHint),
        (u32, Option<TaskBufferPtr<[u8]>>),
    ) {
        ((self.layout, self.hint), (self.size, self.data))
    }
}

impl<P: FramePayload> TaskValue for VertexBufferDescriptor<P> {
    open spec fn spec_size() -> nat {
        <((P::Layout, ResourceHint), (u32, Option<TaskBufferPtr<[u8]>>))>::spec_size()
    }

    open spec fn spec_encode(self) -> Seq<u8> {
        self.spec_fields().spec_encode()
    }

    open spec fn spec_decode(bytes: Seq<u8>) -> VertexBufferDescriptor<P> {
        let f = <((P::Layout, ResourceHint), (u32, Option<TaskBufferPtr<[u8]>>))>::spec_decode(
            bytes,
        );
        VertexBufferDescriptor { layout: f.0.0, hint: f.0.1, size: f.1.0, data: f.1.1 }
    }

    proof fn lemma_encode_decode(v: VertexBufferDescriptor<P>) {
        <((P::Layout, ResourceHint), (u32, Option<TaskBufferPtr<[u8]>>))>::lemma_encode_decode(
            v.spec_fields(),
        );
    }

    fn byte_size() -> (n: Option<usize>) {
        <((P::Layout, ResourceHint), (u32, Option<TaskBufferPtr<[u8]>>))>::byte_size()
    }

    fn encode(&self, out: &mut Vec<u8>) {
        let fields = ((self.layout, self.hint), (self.size, self.data));
        fields.encode(out);
    }

    fn decode(bytes: &[u8]) -> (v: VertexBufferDescriptor<P>) {
        let f = <((P::Layout, ResourceHint), (u32, Option<TaskBufferPtr<[u8]>>))>::decode(bytes);
        VertexBufferDescriptor { layout: f.0.0, hint: f.0.1, size: f.1.0, data: f.1.1 }
    }
}

type IndexFields = ((IndexFormat, ResourceHint), (u32, Option<TaskBufferPtr<[u8]>>));

/// The index format, usage hint, size and initial data of an index buffer.
#[derive(Clone, Copy)]
pub struct IndexBufferDescriptor {
    pub format: IndexFormat,
    pub hint: ResourceHint,
    pub size: u32,
    pub data: Option<TaskBufferPtr<[u8]>>,
}

impl IndexBufferDescriptor {
    pub open spec fn spec_fields(self) -> IndexFields {
        ((self.format, self.hint), (self.size, self.data))
    }
}

impl TaskValue for IndexBufferDescriptor {
    open spec fn spec_size() -> nat {
        IndexFields::spec_size()
    }

    open spec fn spec_encode(self) -> Seq<u8> {
        self.spec_fields().spec_encode()
    }

    open spec fn spec_decode(bytes: Seq<u8>) -> IndexBufferDescriptor {
        let f = IndexFields::spec_decode(bytes);
        IndexBufferDescriptor { format: f.0.0, hint: f.0.1, size: f.1.0, data: f.1.1 }
    }

    proof fn lemma_encode_decode(v: IndexBufferDescriptor) {
        IndexFields::lemma_encode_decode(v.spec_fields());
    }

    fn byte_size() -> (n: Option<usize>) {
        IndexFields::byte_size()
    }

    fn encode(&self, out: &mut Vec<u8>) {
        let fields: IndexFields = ((self.format, self.hint), (self.size, self.data));
        fields.encode(out);
    }

    fn decode(bytes: &[u8]) -> (v: IndexBufferDescriptor) {
        let f = IndexFields::decode(bytes);
        IndexBufferDescriptor { format: f.0.0, hint: f.0.1, size: f.1.0, data: f.1.1 }
    }
}

/// A task that runs before the draw calls of a frame: creating and
/// updating views, pipelines and buffers. `UpdateViewClear` holds the
/// depth as the bit pattern of an `f32`.
pub enum PreFrameTask<P: FramePayload> {
    CreateView(ViewHandle, TaskBufferPtr<ViewDescriptor>),
    UpdateViewRect(ViewHandle, (u16, u16), (u16, u16)),
    UpdateViewScissor(ViewHandle, (u16, u16), (u16, u16)),
    UpdateViewClear(ViewHandle, Option<u32>, Option<u32>, Option<i32>),
    CreatePipeline(PipelineHandle, TaskBufferPtr<PipelineDescriptor<P>>),
    UpdatePipelineState(PipelineHandle, TaskBufferPtr<P::State>),
    UpdatePipelineUniform(PipelineHandle, TaskBufferPtr<str>, TaskBufferPtr<P::Uniform>),
    CreateVertexBuffer(VertexBufferHandle, TaskBufferPtr<VertexBufferDescriptor<P>>),
    UpdateVertexBuffer(VertexBufferHandle, u32, TaskBufferPtr<[u8]>),
    CreateIndexBuffer(IndexBufferHandle, TaskBufferPtr<IndexBufferDescriptor>),
    UpdateIndexBuffer(IndexBufferHandle, u32, TaskBufferPtr<[u8]>),
}

impl<P: FramePayload> Clone for PreFrameTask<P> {
    fn clone(&self) -> (r: Self)
        ensures
            r == *self,
    {
        match self {
            PreFrameTask::CreateView(h, p) => PreFrameTask::CreateView(*h, *p),
            PreFrameTask::UpdateViewRect(h, a, b) => PreFrameTask::UpdateViewRect(*h, *a, *b),
            PreFrameTask::UpdateViewScissor(h, a, b) => PreFrameTask::UpdateViewScissor(*h, *a, *b),
            PreFrameTask::UpdateViewClear(h, c, d, s) => PreFrameTask::UpdateViewClear(
                *h,
                *c,
                *d,
                *s,
            ),
            PreFrameTask::CreatePipeline(h, p) => PreFrameTask::CreatePipeline(*h, *p),
            PreFrameTask::UpdatePipelineState(h, p) => PreFrameTask::UpdatePipelineState(*h, *p),
            PreFrameTask::UpdatePipelineUniform(h, n, p) => PreFrameTask::UpdatePipelineUniform(
                *h,
                *n,
                *p,
            ),
            PreFrameTask::CreateVertexBuffer(h, p) => PreFrameTask::CreateVertexBuffer(*h, *p),
            PreFrameTask::UpdateVertexBuffer(h, o, p) => PreFrameTask::UpdateVertexBuffer(*h, *o, *p),
            PreFrameTask::CreateIndexBuffer(h, p) => PreFrameTask::CreateIndexBuffer(*h, *p),
            PreFrameTask::UpdateIndexBuffer(h, o, p) => PreFrameTask::UpdateIndexBuffer(*h, *o, *p),
        }
    }
}

impl<P: FramePayload> Copy for PreFrameTask<P> {
}

/// A draw call.
pub struct FrameTask<P: FramePayload> {
    pub view: ViewHandle,
    pub pipeline: PipelineHandle,
    pub vb: VertexBufferHandle,
    pub ib: Option<IndexBufferHandle>,
    pub primitive: Primitive,
    pub from: u32,
    pub len: u32,
    pub uniforms: TaskBufferPtr<[(TaskBufferPtr<str>, P::Uniform)]>,
}

impl<P: FramePayload> Clone for FrameTask<P> {
    fn clone(&self) -> (r: Self)
        ensures
            r == *self,
    {
        FrameTask {
            view: self.view,
            pipeline: self.pipeline,
            vb: self.vb,
            ib: self.ib,
            primitive: self.primitive,
            from: self.from,
            len: self.len,
            uniforms: self.uniforms,
        }
    }
}

impl<P: FramePayload> Copy for FrameTask<P> {
}

/// A task that runs after the draw calls of a frame: deleting objects.
#[derive(Clone, Copy, Debug, PartialEq, Eq, Structural)]
pub enum PostFrameTask {
    DeleteView(ViewHandle),
    DeletePipeline(PipelineHandle),
    DeleteVertexBuffer(VertexBufferHandle),
    DeleteIndexBuffer(IndexBufferHandle),
}

/// A call that the device makes when a frame is dispatched, with the
/// payloads read out of the frame's task buffer.
#[allow(inconsistent_fields)]
pub enum DeviceCommand<P: FramePayload> {
    CreateView {
        view: ViewHandle,
        clear_color: Option<u32>,
        clear_depth: Option<u32>,
        clear_stencil: Option<i32>,
    },
    UpdateViewRect { view: ViewHandle, position: (u16, u16), size: (u16, u16) },
    UpdateViewScissor { view: ViewHandle, position: (u16, u16), size: (u16, u16) },
    UpdateViewClear {
        view: ViewHandle,
        clear_color: Option<u32>,
        clear_depth: Option<u32>,
        clear_stencil: Option<i32>,
    },
    CreatePipeline {
        pipeline: PipelineHandle,
        state: P::State,
        vs: String,
        fs: String,
        attributes: P::Attributes,
    },
    UpdatePipelineState { pipeline: PipelineHandle, state: P::State },
    UpdatePipelineUniform { pipeline: PipelineHandle, name: String, variable: P::Uniform },
    CreateVertexBuffer {
        vb: VertexBufferHandle,
        layout: P::Layout,
        hint: ResourceHint,
        size: u32,
        data: Option<Vec<u8>>,
    },
    UpdateVertexBuffer { vb: VertexBufferHandle, offset: u32, data: Vec<u8> },
    CreateIndexBuffer {
        ib: IndexBufferHandle,
        format: IndexFormat,
        hint: ResourceHint,
        size: u32,
        data: Option<Vec<u8>>,
    },
    UpdateIndexBuffer { ib: IndexBufferHandle, offset: u32, data: Vec<u8> },
    BindView(ViewHandle),
    Draw {
        primitive: Primitive,
        pipeline: PipelineHandle,
        vb: VertexBufferHandle,
        ib: Option<IndexBufferHandle>,
        from: u32,
        len: u32,
        uniforms: Vec<(String, P::Uniform)>,
    },
    DeleteView(ViewHandle),
    DeletePipeline(PipelineHandle),
    DeleteVertexBuffer(VertexBufferHandle),
    DeleteIndexBuffer(IndexBufferHandle),
}

// ---------------------------------------------------------------------------
// Reading payloads out of the buffer.
/// Whether `ptr` designates a whole encoded `T` in `buf`.
pub open spec fn value_ready<T: TaskValue>(buf: Seq<u8>, ptr: TaskBufferPtr<T>) -> bool {
    in_bounds(buf, ptr) && ptr.len() == T::spec_size()
}

/// The `T` that `ptr` designates in `buf`.
pub open spec fn value_at<T: TaskValue>(buf: Seq<u8>, ptr: TaskBufferPtr<T>) -> T {
    T::spec_decode(bytes_at(buf, ptr))
}

/// Whether `ptr` designates valid UTF-8 text in `buf`.
pub open spec fn text_ready(buf: Seq<u8>, ptr: TaskBufferPtr<str>) -> bool {
    in_bounds(buf, ptr) && valid_utf8(bytes_at(buf, ptr))
}

/// The characters of the text that `ptr` designates in `buf`.
pub open spec fn text_at(buf: Seq<u8>, ptr: TaskBufferPtr<str>) -> Seq<char> {
    decode_utf8(bytes_at(buf, ptr))
}

/// Whether the optional initial data of a buffer descriptor lies in `buf`.
pub open spec fn data_ready(buf: Seq<u8>, data: Option<TaskBufferPtr<[u8]>>) -> bool {
    data matches Some(p) ==> in_bounds(buf, p)
}

/// Whether `out` holds the bytes of the optional initial data.
pub open spec fn data_matches(
    buf: Seq<u8>,
    data: Option<TaskBufferPtr<[u8]>>,
    out: Option<Vec<u8>>,
) -> bool {
    match (data, out) {
        (Some(p), Some(v)) => v@ == bytes_at(buf, p),
        (None, None) => true,
        _ => false,
    }
}

/// The size of one uniform entry: a name pointer and a variable.
pub open spec fn entry_size<P: FramePayload>() -> nat {
    <(TaskBufferPtr<str>, P::Uniform)>::spec_size()
}

/// The number of uniform entries that a draw call's list holds.
pub open spec fn entry_count<P: FramePayload>(
    ptr: TaskBufferPtr<[(TaskBufferPtr<str>, P::Uniform)]>,
) -> nat {
    ptr.len() / entry_size::<P>()
}

/// The uniform entries of a draw call's list.
pub open spec fn entries_at<P: FramePayload>(
    buf: Seq<u8>,
    ptr: TaskBufferPtr<[(TaskBufferPtr<str>, P::Uniform)]>,
) -> Seq<(TaskBufferPtr<str>, P::Uniform)> {
    decode_seq::<(TaskBufferPtr<str>, P::Uniform)>(bytes_at(buf, ptr), entry_count::<P>(ptr))
}

/// Whether a draw call's uniform list, and each name in it, can be read.
pub open spec fn uniforms_ready<P: FramePayload>(
    buf: Seq<u8>,
    ptr: TaskBufferPtr<[(TaskBufferPtr<str>, P::Uniform)]>,
) -> bool {
    &&& in_bounds(buf, ptr)
    &&& entry_size::<P>() <= usize::MAX
    &&& ptr.len() % entry_size::<P>() == 0
    &&& forall|i: int|
        0 <= i < entry_count::<P>(ptr) ==> #[trigger] text_ready(buf, entries_at::<P>(buf, ptr)[i].0)
}

/// Whether `out` holds the uniform list of a draw call, names as text.
pub open spec fn uniforms_match<P: FramePayload>(
    buf: Seq<u8>,
    ptr: TaskBufferPtr<[(TaskBufferPtr<str>, P::Uniform)]>,
    out: Seq<(String, P::Uniform)>,
) -> bool {
    let entries = entries_at::<P>(buf, ptr);
    &&& out.len() == entries.len()
    &&& forall|i: int|
        0 <= i < out.len() ==> {
            &&& (#[trigger] out[i]).0@ == text_at(buf, entries[i].0)
            &&& out[i].1 == entries[i].1
        }
}

/// Whether the payloads of a pre-frame task can be read out of `buf`.
pub open spec fn pre_task_ready<P: FramePayload>(buf: Seq<u8>, task: PreFrameTask<P>) -> bool {
    match task {
        PreFrameTask::CreateView(_, p) => value_ready(buf, p),
        PreFrameTask::CreatePipeline(_, p) => {
            &&& value_ready(buf, p)
            &&& text_ready(buf, value_at(buf, p).vs)
            &&& text_ready(buf, value_at(buf, p).fs)
        },
        PreFrameTask::UpdatePipelineState(_, p) => value_ready(buf, p),
        PreFrameTask::UpdatePipelineUniform(_, name, p) => text_ready(buf, name) && value_ready(
            buf,
            p,
        ),
        PreFrameTask::CreateVertexBuffer(_, p) => value_ready(buf, p) && data_ready(
            buf,
            value_at(buf, p).data,
        ),
        PreFrameTask::UpdateVertexBuffer(_, _, p) => in_bounds(buf, p),
        PreFrameTask::CreateIndexBuffer(_, p) => value_ready(buf, p) && data_ready(
            buf,
            value_at(buf, p).data,
        ),
        PreFrameTask::UpdateIndexBuffer(_, _, p) => in_bounds(buf, p),
        _ => true,
    }
}

/// Whether `cmd` is the device call of a pre-frame task, with its payloads
/// read out of `buf`.
pub open spec fn pre_command<P: FramePayload>(
    buf: Seq<u8>,
    task: PreFrameTask<P>,
    cmd: DeviceCommand<P>,
) -> bool {
    match task {
        PreFrameTask::CreateView(h, p) => {
            let d = value_at(buf, p);
            cmd == DeviceCommand::<P>::CreateView {
                view: h,
                clear_color: d.clear_color,
                clear_depth: d.clear_depth,
                clear_stencil: d.clear_stencil,
            }
        },
        PreFrameTask::UpdateViewRect(h, position, size) => cmd
            == DeviceCommand::<P>::UpdateViewRect { view: h, position, size },
        PreFrameTask::UpdateViewScissor(h, position, size) => cmd
            == DeviceCommand::<P>::UpdateViewScissor { view: h, position, size },
        PreFrameTask::UpdateViewClear(h, c, d, s) => cmd == DeviceCommand::<P>::UpdateViewClear {
            view: h,
            clear_color: c,
            clear_depth: d,
            clear_stencil: s,
        },
        PreFrameTask::CreatePipeline(h, p) => {
            let d = value_at(buf, p);
            &&& cmd is CreatePipeline
            &&& cmd->CreatePipeline_pipeline == h
            &&& cmd->CreatePipeline_state == d.state
            &&& cmd->CreatePipeline_vs@ == text_at(buf, d.vs)
            &&& cmd->CreatePipeline_fs@ == text_at(buf, d.fs)
            &&& cmd->CreatePipeline_attributes == d.attributes
        },
        PreFrameTask::UpdatePipelineState(h, p) => cmd == DeviceCommand::<P>::UpdatePipelineState {
            pipeline: h,
            state: value_at(buf, p),
        },
        PreFrameTask::UpdatePipelineUniform(h, name, p) => {
            &&& cmd is UpdatePipelineUniform
            &&& cmd->UpdatePipelineUniform_pipeline == h
            &&& cmd->UpdatePipelineUniform_name@ == text_at(buf, name)
            &&& cmd->UpdatePipelineUniform_variable == value_at(buf, p)
        },
        PreFrameTask::CreateVertexBuffer(h, p) => {
            let d = value_at(buf, p);
            &&& cmd is CreateVertexBuffer
            &&& cmd->CreateVertexBuffer_vb == h
            &&& cmd->CreateVertexBuffer_layout == d.layout
            &&& cmd->CreateVertexBuffer_hint == d.hint
            &&& cmd->CreateVertexBuffer_size == d.size
            &&& data_matches(buf, d.data, cmd->CreateVertexBuffer_data)
        },
        PreFrameTask::UpdateVertexBuffer(h, offset, p) => {
            &&& cmd is UpdateVertexBuffer
            &&& cmd->UpdateVertexBuffer_vb == h
            &&& cmd->UpdateVertexBuffer_offset == offset
            &&& cmd->UpdateVertexBuffer_data@ == bytes_at(buf, p)
        },
        PreFrameTask::CreateIndexBuffer(h, p) => {
            let d = value_at(buf, p);
            &&& cmd is CreateIndexBuffer
            &&& cmd->CreateIndexBuffer_ib == h
            &&& cmd->CreateIndexBuffer_format == d.format
            &&& cmd->CreateIndexBuffer_hint == d.hint
            &&& cmd->CreateIndexBuffer_size == d.size
            &&& data_matches(buf, d.data, cmd->CreateIndexBuffer_data)
        },
        PreFrameTask::UpdateIndexBuffer(h, offset, p) => {
            &&& cmd is UpdateIndexBuffer
            &&& cmd->UpdateIndexBuffer_ib == h
            &&& cmd->UpdateIndexBuffer_offset == offset
            &&& cmd->UpdateIndexBuffer_data@ == bytes_at(buf, p)
        },
    }
}

/// Whether `cmd` is the draw call of `task`, with its uniforms read out of `buf`.
pub open spec fn draw_command<P: FramePayload>(
    buf: Seq<u8>,
    task: FrameTask<P>,
    cmd: DeviceCommand<P>,
) -> bool {
    &&& cmd is Draw
    &&& cmd->Draw_primitive == task.primitive
    &&& cmd->Draw_pipeline == task.pipeline
    &&& cmd->Draw_vb == task.vb
    &&& cmd->Draw_ib == task.ib
    &&& cmd->Draw_from == task.from
    &&& cmd->Draw_len == task.len
    &&& uniforms_match::<P>(buf, task.uniforms, cmd->Draw_uniforms@)
}

/// The device call of a post-frame task.
pub open spec fn post_command<P: FramePayload>(task: PostFrameTask) -> DeviceCommand<P> {
    match task {
        PostFrameTask::DeleteView(h) => DeviceCommand::DeleteView(h),
        PostFrameTask::DeletePipeline(h) => DeviceCommand::DeletePipeline(h),
        PostFrameTask::DeleteVertexBuffer(h) => DeviceCommand::DeleteVertexBuffer(h),
        PostFrameTask::DeleteIndexBuffer(h) => DeviceCommand::DeleteIndexBuffer(h),
    }
}

/// Whether every payload that a frame's tasks point to can be read out of
/// its task buffer.
pub open spec fn frame_ready<P: FramePayload>(
    buf: Seq<u8>,
    pre: Seq<PreFrameTask<P>>,
    draws: Seq<FrameTask<P>>,
) -> bool {
    &&& forall|i: int| 0 <= i < pre.len() ==> #[trigger] pre_task_ready(buf, pre[i])
    &&& forall|j: int| 0 <= j < draws.len() ==> #[trigger] uniforms_ready::<P>(buf, draws[j].uniforms)
}

/// Whether `cmds` are the device calls of the pre-frame tasks `pre`.
pub open spec fn pre_commands<P: FramePayload>(
    buf: Seq<u8>,
    pre: Seq<PreFrameTask<P>>,
    cmds: Seq<DeviceCommand<P>>,
) -> bool {
    &&& cmds.len() == pre.len()
    &&& forall|i: int| 0 <= i < pre.len() ==> pre_command(buf, #[trigger] pre[i], cmds[i])
}

/// Whether `cmds` bind the view of, then draw, each draw call of `draws` in turn.
pub open spec fn draw_commands<P: FramePayload>(
    buf: Seq<u8>,
    draws: Seq<FrameTask<P>>,
    cmds: Seq<DeviceCommand<P>>,
) -> bool {
    &&& cmds.len() == 2 * draws.len()
    &&& forall|j: int|
        0 <= j < draws.len() ==> {
            &&& cmds[2 * j] == DeviceCommand::<P>::BindView((#[trigger] draws[j]).view)
            &&& draw_command(buf, draws[j], cmds[2 * j + 1])
        }
}

/// In the planned draw commands of a frame, each draw call is preceded by the
/// binding of its view, and its draw carries the draw call's own primitive,
/// pipeline, vertex buffer, index buffer and vertex range, and each of its
/// uniforms under its name.
pub proof fn law_draws_carry_their_draw_calls<P: FramePayload>(
    buf: Seq<u8>,
    draws: Seq<FrameTask<P>>,
    cmds: Seq<DeviceCommand<P>>,
)
    requires
        draw_commands(buf, draws, cmds),
    ensures
        cmds.len() == 2 * draws.len(),
        forall|j: int|
            #![trigger draws[j]]
            0 <= j < draws.len() ==> {
                &&& cmds[2 * j] == DeviceCommand::<P>::BindView(draws[j].view)
                &&& cmds[2 * j + 1] matches DeviceCommand::Draw {
                    primitive,
                    pipeline,
                    vb,
                    ib,
                    from,
                    len,
                    uniforms,
                }
                &&& primitive == draws[j].primitive
                &&& pipeline == draws[j].pipeline
                &&& vb == draws[j].vb
                &&& ib == draws[j].ib
                &&& from == draws[j].from
                &&& len == draws[j].len
                &&& uniforms@.len() == entries_at::<P>(buf, draws[j].uniforms).len()
                &&& forall|k: int|
                    0 <= k < uniforms@.len() ==> {
                        &&& (#[trigger] uniforms@[k]).0@ == text_at(
                            buf,
                            entries_at::<P>(buf, draws[j].uniforms)[k].0,
                        )
                        &&& uniforms@[k].1 == entries_at::<P>(buf, draws[j].uniforms)[k].1
                    }
            },
{
    assert forall|j: int|
        #![trigger draws[j]]
        0 <= j < draws.len() implies {
        &&& cmds[2 * j] == DeviceCommand::<P>::BindView(draws[j].view)
        &&& cmds[2 * j + 1] matches DeviceCommand::Draw {
            primitive,
            pipeline,
            vb,
            ib,
            from,
            len,
            uniforms,
        }
        &&& primitive == draws[j].primitive
        &&& pipeline == draws[j].pipeline
        &&& vb == draws[j].vb
        &&& ib == draws[j].ib
        &&& from == draws[j].from
        &&& len == draws[j].len
        &&& uniforms@.len() == entries_at::<P>(buf, draws[j].uniforms).len()
        &&& forall|k: int|
            0 <= k < uniforms@.len() ==> {
                &&& (#[trigger] uniforms@[k]).0@ == text_at(
                    buf,
                    entries_at::<P>(buf, draws[j].uniforms)[k].0,
                )
                &&& uniforms@[k].1 == entries_at::<P>(buf, draws[j].uniforms)[k].1
            }
    } by {
        assert(draw_command(buf, draws[j], cmds[2 * j + 1]));
    }
}

/// Each pre-frame task plans a call of its own kind, on its own object, with
/// its own arguments and the payloads it points to read back from the
/// buffer; each post-frame task plans the deletion of its own object.
pub proof fn law_tasks_plan_their_own_calls<P: FramePayload>(
    buf: Seq<u8>,
    pre: Seq<PreFrameTask<P>>,
    pre_cmds: Seq<DeviceCommand<P>>,
    post: Seq<PostFrameTask>,
    post_cmds: Seq<DeviceCommand<P>>,
)
    requires
        pre_commands(buf, pre, pre_cmds),
        post_commands(post, post_cmds),
    ensures
        pre_cmds.len() == pre.len(),
        post_cmds.len() == post.len(),
        forall|i: int|
            #![trigger pre[i]]
            0 <= i < pre.len() ==> match pre[i] {
                PreFrameTask::CreateView(h, p) => pre_cmds[i] matches DeviceCommand::CreateView {
                    view,
                    clear_color,
                    clear_depth,
                    clear_stencil,
                } && view == h && clear_color == value_at(buf, p).clear_color && clear_depth
                    == value_at(buf, p).clear_depth && clear_stencil == value_at(
                    buf,
                    p,
                ).clear_stencil,
                PreFrameTask::UpdateViewRect(h, a, b) => pre_cmds[i] matches DeviceCommand::UpdateViewRect {
                    view,
                    position,
                    size,
                } && view == h && position == a && size == b,
                PreFrameTask::UpdateViewScissor(h, a, b) => pre_cmds[i] matches DeviceCommand::UpdateViewScissor {
                    view,
                    position,
                    size,
                } && view == h && position == a && size == b,
                PreFrameTask::UpdateViewClear(h, c, d, t) => pre_cmds[i] matches DeviceCommand::UpdateViewClear {
                    view,
                    clear_color,
                    clear_depth,
                    clear_stencil,
                } && view == h && clear_color == c && clear_depth == d && clear_stencil == t,
                PreFrameTask::CreatePipeline(h, p) => pre_cmds[i] matches DeviceCommand::CreatePipeline {
                    pipeline,
                    state,
                    vs,
                    fs,
                    attributes,
                } && pipeline == h && state == value_at(buf, p).state && vs@ == text_at(
                    buf,
                    value_at(buf, p).vs,
                ) && fs@ == text_at(buf, value_at(buf, p).fs) && attributes == value_at(
                    buf,
                    p,
                ).attributes,
                PreFrameTask::UpdatePipelineState(h, p) => pre_cmds[i] matches DeviceCommand::UpdatePipelineState {
                    pipeline,
                    state,
                } && pipeline == h && state == value_at(buf, p),
                PreFrameTask::UpdatePipelineUniform(h, n, p) => pre_cmds[i] matches DeviceCommand::UpdatePipelineUniform {
                    pipeline,
                    name,
                    variable,
                } && pipeline == h && name@ == text_at(buf, n) && variable == value_at(buf, p),
                PreFrameTask::CreateVertexBuffer(h, p) => pre_cmds[i] matches DeviceCommand::CreateVertexBuffer {
                    vb,
                    layout,
                    hint,
                    size,
                    data,
                } && vb == h && layout == value_at(buf, p).layout && hint == value_at(buf, p).hint
                    && size == value_at(buf, p).size && data_matches(buf, value_at(buf, p).data, data),
                PreFrameTask::UpdateVertexBuffer(h, o, p) => pre_cmds[i] matches DeviceCommand::UpdateVertexBuffer {
                    vb,
                    offset,
                    data,
                } && vb == h && offset == o && data@ == bytes_at(buf, p),
                PreFrameTask::CreateIndexBuffer(h, p) => pre_cmds[i] matches DeviceCommand::CreateIndexBuffer {
                    ib,
                    format,
                    hint,
                    size,
                    data,
                } && ib == h && format == value_at(buf, p).format && hint == value_at(buf, p).hint
                    && size == value_at(buf, p).size && data_matches(buf, value_at(buf, p).data, data),
                PreFrameTask::UpdateIndexBuffer(h, o, p) => pre_cmds[i] matches DeviceCommand::UpdateIndexBuffer {
                    ib,
                    offset,
                    data,
                } && ib == h && offset == o && data@ == bytes_at(buf, p),
            },
        forall|k: int|
            #![trigger post[k]]
            0 <= k < post.len() ==> match post[k] {
                PostFrameTask::DeleteView(h) => post_cmds[k] == DeviceCommand::<P>::DeleteView(h),
                PostFrameTask::DeletePipeline(h) => post_cmds[k] == DeviceCommand::<P>::DeletePipeline(
                    h,
                ),
                PostFrameTask::DeleteVertexBuffer(h) => post_cmds[k]
                    == DeviceCommand::<P>::DeleteVertexBuffer(h),
                PostFrameTask::DeleteIndexBuffer(h) => post_cmds[k]
                    == DeviceCommand::<P>::DeleteIndexBuffer(h),
            },
{
    assert forall|i: int| #![trigger pre[i]] 0 <= i < pre.len() implies pre_command(
        buf,
        pre[i],
        pre_cmds[i],
    ) by {}
}

/// Whether `cmds` are the device calls of the post-frame tasks `post`.
pub open spec fn post_commands<P: FramePayload>(
    post: Seq<PostFrameTask>,
    cmds: Seq<DeviceCommand<P>>,
) -> bool {
    &&& cmds.len() == post.len()
    &&& forall|k: int| 0 <= k < post.len() ==> cmds[k] == post_command::<P>(#[trigger] post[k])
}

/// Whether the payloads of a pre-frame task can be read out of `buf`.
pub fn pre_task_is_ready<P: FramePayload>(buf: &TaskBuffer, task: PreFrameTask<P>) -> (r: bool)
    ensures
        r == pre_task_ready(buf@, task),
{
    match task {
        PreFrameTask::CreateView(_, p) => buf.holds_value(p),
        PreFrameTask::CreatePipeline(_, p) => {
            if !buf.holds_value(p) {
                return false;
            }
            let d = buf.as_ref(p);
            buf.holds_text(d.vs) && buf.holds_text(d.fs)
        },
        PreFrameTask::UpdatePipelineState(_, p) => buf.holds_value(p),
        PreFrameTask::UpdatePipelineUniform(_, name, p) => buf.holds_text(name) && buf.holds_value(
            p,
        ),
        PreFrameTask::CreateVertexBuffer(_, p) => {
            if !buf.holds_value(p) {
                return false;
            }
            match buf.as_ref(p).data {
                Some(data) => buf.contains(data),
                None => true,
            }
        },
        PreFrameTask::UpdateVertexBuffer(_, _, p) => buf.contains(p),
        PreFrameTask::CreateIndexBuffer(_, p) => {
            if !buf.holds_value(p) {
                return false;
            }
            match buf.as_ref(p).data {
                Some(data) => buf.contains(data),
                None => true,
            }
        },
        PreFrameTask::UpdateIndexBuffer(_, _, p) => buf.contains(p),
        _ => true,
    }
}

/// Whether a draw call's uniform list, and each name in it, can be read out of `buf`.
pub fn uniforms_are_ready<P: FramePayload>(
    buf: &TaskBuffer,
    ptr: TaskBufferPtr<[(TaskBufferPtr<str>, P::Uniform)]>,
) -> (r: bool)
    ensures
        r == uniforms_ready::<P>(buf@, ptr),
{
    if !buf.contains(ptr) {
        return false;
    }
    let size = match <(TaskBufferPtr<str>, P::Uniform)>::byte_size() {
        Some(size) => size,
        None => return false,
    };
    if ptr.size() as usize % size != 0 {
        return false;
    }
    let entries = buf.as_slice(ptr);
    let ghost expected = entries_at::<P>(buf@, ptr);
    let mut i: usize = 0;
    while i < entries.len()
        invariant
            entries@ == expected,
            expected == entries_at::<P>(buf@, ptr),
            i <= entries@.len(),
            forall|k: int| 0 <= k < i ==> #[trigger] text_ready(buf@, expected[k].0),
        decreases entries@.len() - i,
    {
        if !buf.holds_text(entries[i].0) {
            assert(!text_ready(buf@, entries_at::<P>(buf@, ptr)[i as int].0));
            return false;
        }
        i = i + 1;
    }
    true
}

/// Reads the text that `ptr` designates.
fn read_text(buf: &TaskBuffer, ptr: TaskBufferPtr<str>) -> (r: String)
    requires
        text_ready(buf@, ptr),
    ensures
        r@ == text_at(buf@, ptr),
{
    let text = buf.as_str(ptr);
    proof {
        encode_utf8_decode_utf8(text@);
    }
    text.to_owned()
}

/// Copies the optional initial data of a buffer descriptor.
fn read_data(buf: &TaskBuffer, data: Option<TaskBufferPtr<[u8]>>) -> (r: Option<Vec<u8>>)
    requires
        data_ready(buf@, data),
    ensures
        data_matches(buf@, data, r),
{
    match data {
        Some(p) => Some(vstd::slice::slice_to_vec(buf.as_bytes(p))),
        None => None,
    }
}

/// The device call of a pre-frame task, with its payloads read out of `buf`.
pub fn pre_task_command<P: FramePayload>(buf: &TaskBuffer, task: PreFrameTask<P>) -> (cmd:
    DeviceCommand<P>)
    requires
        pre_task_ready(buf@, task),
    ensures
        pre_command(buf@, task, cmd),
{
    match task {
        PreFrameTask::CreateView(h, p) => {
            let d = buf.as_ref(p);
            DeviceCommand::CreateView {
                view: h,
                clear_color: d.clear_color,
                clear_depth: d.clear_depth,
                clear_stencil: d.clear_stencil,
            }
        },
        PreFrameTask::UpdateViewRect(h, position, size) => DeviceCommand::UpdateViewRect {
            view: h,
            position,
            size,
        },
        PreFrameTask::UpdateViewScissor(h, position, size) => DeviceCommand::UpdateViewScissor {
            view: h,
            position,
            size,
        },
        PreFrameTask::UpdateViewClear(h, c, d, s) => DeviceCommand::UpdateViewClear {
            view: h,
            clear_color: c,
            clear_depth: d,
            clear_stencil: s,
        },
        PreFrameTask::CreatePipeline(h, p) => {
            let d = buf.as_ref(p);
            let vs = read_text(buf, d.vs);
            let fs = read_text(buf, d.fs);
            DeviceCommand::CreatePipeline {
                pipeline: h,
                state: d.state,
                vs,
                fs,
                attributes: d.attributes,
            }
        },
        PreFrameTask::UpdatePipelineState(h, p) => DeviceCommand::UpdatePipelineState {
            pipeline: h,
            state: buf.as_ref(p),
        },
        PreFrameTask::UpdatePipelineUniform(h, name, p) => {
            let name = read_text(buf, name);
            DeviceCommand::UpdatePipelineUniform { pipeline: h, name, variable: buf.as_ref(p) }
        },
        PreFrameTask::CreateVertexBuffer(h, p) => {
            let d = buf.as_ref(p);
            let data = read_data(buf, d.data);
            DeviceCommand::CreateVertexBuffer {
                vb: h,
                layout: d.layout,
                hint: d.hint,
                size: d.size,
                data,
            }
        },
        PreFrameTask::UpdateVertexBuffer(h, offset, p) => {
            let data = vstd::slice::slice_to_vec(buf.as_bytes(p));
            DeviceCommand::UpdateVertexBuffer { vb: h, offset, data }
        },
        PreFrameTask::CreateIndexBuffer(h, p) => {
            let d = buf.as_ref(p);
            let data = read_data(buf, d.data);
            DeviceCommand::CreateIndexBuffer {
                ib: h,
                format: d.format,
                hint: d.hint,
                size: d.size,
                data,
            }
        },
        PreFrameTask::UpdateIndexBuffer(h, offset, p) => {
            let data = vstd::slice::slice_to_vec(buf.as_bytes(p));
            DeviceCommand::UpdateIndexBuffer { ib: h, offset, data }
        },
    }
}

/// The draw call of `task`, with its uniforms read out of `buf`.
pub fn draw_task_command<P: FramePayload>(buf: &TaskBuffer, task: FrameTask<P>) -> (cmd:
    DeviceCommand<P>)
    requires
        uniforms_ready::<P>(buf@, task.uniforms),
    ensures
        draw_command(buf@, task, cmd),
{
    let entries = buf.as_slice(task.uniforms);
    let ghost expected = entries_at::<P>(buf@, task.uniforms);
    let mut uniforms: Vec<(String, P::Uniform)> = Vec::new();
    let mut i: usize = 0;
    while i < entries.len()
        invariant
            entries@ == expected,
            expected == entries_at::<P>(buf@, task.uniforms),
            i <= entries@.len(),
            uniforms_ready::<P>(buf@, task.uniforms),
            uniforms@.len() == i,
            forall|k: int|
                0 <= k < i ==> {
                    &&& (#[trigger] uniforms@[k]).0@ == text_at(buf@, expected[k].0)
                    &&& uniforms@[k].1 == expected[k].1
                },
        decreases entries@.len() - i,
    {
        let entry = entries[i];
        assert(text_ready(buf@, expected[i as int].0));
        let name = read_text(buf, entry.0);
        uniforms.push((name, entry.1));
        i = i + 1;
    }
    DeviceCommand::Draw {
        primitive: task.primitive,
        pipeline: task.pipeline,
        vb: task.vb,
        ib: task.ib,
        from: task.from,
        len: task.len,
        uniforms,
    }
}

/// The device call of a post-frame task.
pub fn post_task_command<P: FramePayload>(task: PostFrameTask) -> (cmd: DeviceCommand<P>)
    ensures
        cmd == post_command::<P>(task),
{
    match task {
        PostFrameTask::DeleteView(h) => DeviceCommand::DeleteView(h),
        PostFrameTask::DeletePipeline(h) => DeviceCommand::DeletePipeline(h),
        PostFrameTask::DeleteVertexBuffer(h) => DeviceCommand::DeleteVertexBuffer(h),
        PostFrameTask::DeleteIndexBuffer(h) => DeviceCommand::DeleteIndexBuffer(h),
    }
}

/// The tasks recorded for one frame, and the bytes of their payloads.
pub struct Frame<P: FramePayload> {
    pub pre: Vec<PreFrameTask<P>>,
    pub drawcalls: Vec<FrameTask<P>>,
    pub post: Vec<PostFrameTask>,
    pub buf: TaskBuffer,
}

impl<P: FramePayload> Frame<P> {
    /// Creates a new, empty frame with the given capacity.
    pub fn with_capacity(capacity: usize) -> (r: Self)
        ensures
            r.pre@ == Seq::<PreFrameTask<P>>::empty(),
            r.drawcalls@ == Seq::<FrameTask<P>>::empty(),
            r.post@ == Seq::<PostFrameTask>::empty(),
            r.buf@ == Seq::<u8>::empty(),
    {
        Frame {
            pre: Vec::with_capacity(capacity),
            post: Vec::with_capacity(capacity),
            drawcalls: Vec::with_capacity(capacity),
            buf: TaskBuffer::with_capacity(capacity),
        }
    }

    /// Removes all tasks and payloads.
    pub fn clear(&mut self)
        ensures
            final(self).pre@ == Seq::<PreFrameTask<P>>::empty(),
            final(self).drawcalls@ == Seq::<FrameTask<P>>::empty(),
            final(self).post@ == Seq::<PostFrameTask>::empty(),
            final(self).buf@ == Seq::<u8>::empty(),
    {
        self.pre.clear();
        self.drawcalls.clear();
        self.post.clear();
        self.buf.clear();
    }

    /// Whether every payload that the tasks point to can be read out of the
    /// task buffer.
    pub fn is_ready(&self) -> (r: bool)
        ensures
            r == frame_ready(self.buf@, self.pre@, self.drawcalls@),
    {
        let mut i: usize = 0;
        while i < self.pre.len()
            invariant
                i <= self.pre@.len(),
                forall|k: int| 0 <= k < i ==> #[trigger] pre_task_ready(self.buf@, self.pre@[k]),
            decreases self.pre@.len() - i,
        {
            if !pre_task_is_ready(&self.buf, self.pre[i]) {
                return false;
            }
            i = i + 1;
        }
        let mut j: usize = 0;
        while j < self.drawcalls.len()
            invariant
                j <= self.drawcalls@.len(),
                forall|k: int|
                    0 <= k < j ==> #[trigger] uniforms_ready::<P>(
                        self.buf@,
                        self.drawcalls@[k].uniforms,
                    ),
            decreases self.drawcalls@.len() - j,
        {
            if !uniforms_are_ready::<P>(&self.buf, self.drawcalls[j].uniforms) {
                return false;
            }
            j = j + 1;
        }
        true
    }

    /// Plans the device calls of this frame: the pre-frame tasks in order,
    /// then each draw call, sorted by view, as a view binding and a draw,
    /// then the post-frame tasks in order. The draw calls are left sorted.
    pub fn dispatch(&mut self) -> (cmds: Vec<DeviceCommand<P>>)
        requires
            frame_ready(old(self).buf@, old(self).pre@, old(self).drawcalls@),
        ensures
            final(self).pre@ == old(self).pre@,
            final(self).post@ == old(self).post@,
            final(self).buf@ == old(self).buf@,
            final(self).drawcalls@.len() == old(self).drawcalls@.len(),
            sorted_by_view(final(self).drawcalls@),
            forall|view: ViewHandle| #[trigger]
                draws_on(final(self).drawcalls@, view) == draws_on(old(self).drawcalls@, view),
            cmds@.len() == old(self).pre@.len() + 2 * old(self).drawcalls@.len()
                + old(self).post@.len(),
            pre_commands(old(self).buf@, old(self).pre@, cmds@.subrange(0, old(self).pre@.len() as int)),
            draw_commands(
                old(self).buf@,
                final(self).drawcalls@,
                cmds@.subrange(
                    old(self).pre@.len() as int,
                    (old(self).pre@.len() + 2 * old(self).drawcalls@.len()) as int,
                ),
            ),
            post_commands(
                old(self).post@,
                cmds@.subrange(
                    (old(self).pre@.len() + 2 * old(self).drawcalls@.len()) as int,
                    cmds@.len() as int,
                ),
            ),
    {
        let ghost buf = self.buf@;
        let mut cmds: Vec<DeviceCommand<P>> = Vec::new();
        let mut i: usize = 0;
        while i < self.pre.len()
            invariant
                self.buf@ == buf,
                self.pre@ == old(self).pre@,
                frame_ready(buf, self.pre@, old(self).drawcalls@),
                i <= self.pre@.len(),
                cmds@.len() == i,
                forall|k: int| 0 <= k < i ==> pre_command(buf, #[trigger] self.pre@[k], cmds@[k]),
            decreases self.pre@.len() - i,
        {
            let cmd = pre_task_command(&self.buf, self.pre[i]);
            cmds.push(cmd);
            i = i + 1;
        }
        let ghost pre_part = cmds@;
        let ghost unsorted = self.drawcalls@;
        sort_by_view(&mut self.drawcalls);
        assert forall|j: int| 0 <= j < self.drawcalls@.len() implies #[trigger] uniforms_ready::<P>(
            buf,
            self.drawcalls@[j].uniforms,
        ) by {
            let m = choose|m: int| 0 <= m < unsorted.len() && unsorted[m] == self.drawcalls@[j];
            assert(uniforms_ready::<P>(buf, unsorted[m].uniforms));
        }
        let n = self.pre.len();
        let mut j: usize = 0;
        while j < self.drawcalls.len()
            invariant
                self.buf@ == buf,
                n == self.pre@.len(),
                j <= self.drawcalls@.len(),
                cmds@.len() == n + 2 * j,
                cmds@.subrange(0, n as int) == pre_part,
                forall|k: int|
                    0 <= k < self.drawcalls@.len() ==> #[trigger] uniforms_ready::<P>(
                        buf,
                        self.drawcalls@[k].uniforms,
                    ),
                forall|k: int|
                    0 <= k < j ==> {
                        &&& cmds@[n + 2 * k] == DeviceCommand::<P>::BindView(
                            (#[trigger] self.drawcalls@[k]).view,
                        )
                        &&& draw_command(buf, self.drawcalls@[k], cmds@[n + 2 * k + 1])
                    },
            decreases self.drawcalls@.len() - j,
        {
            let dc = self.drawcalls[j];
            let ghost before = cmds@;
            cmds.push(DeviceCommand::BindView(dc.view));
            let cmd = draw_task_command(&self.buf, dc);
            cmds.push(cmd);
            assert(cmds@.subrange(0, n as int) =~= before.subrange(0, n as int));
            j = j + 1;
        }
        let ghost draw_part = cmds@;
        let d = self.drawcalls.len();
        let mut k: usize = 0;
        while k < self.post.len()
            invariant
                self.post@ == old(self).post@,
                k <= self.post@.len(),
                cmds@.len() == n + 2 * d + k,
                cmds@.subrange(0, n + 2 * d) == draw_part.subrange(0, n + 2 * d),
                forall|l: int|
                    0 <= l < k ==> cmds@[n + 2 * d + l] == post_command::<P>(
                        #[trigger] self.post@[l],
                    ),
            decreases self.post@.len() - k,
        {
            let ghost before = cmds@;
            cmds.push(post_task_command(self.post[k]));
            assert(cmds@.subrange(0, n + 2 * d) =~= before.subrange(0, n + 2 * d));
            k = k + 1;
        }
        proof {
            let all = cmds@;
            assert(all.subrange(0, n as int) =~= pre_part.subrange(0, n as int)) by {
                assert(all.subrange(0, n as int) =~= all.subrange(0, n + 2 * d).subrange(
                    0,
                    n as int,
                ));
                assert(draw_part.subrange(0, n as int) =~= draw_part.subrange(
                    0,
                    n + 2 * d,
                ).subrange(0, n as int));
            }
            assert(pre_part.subrange(0, n as int) =~= pre_part);
            let draws = all.subrange(n as int, n + 2 * d);
            assert forall|j: int| 0 <= j < d implies {
                &&& draws[2 * j] == DeviceCommand::<P>::BindView((#[trigger] self.drawcalls@[j]).view)
                &&& draw_command(buf, self.drawcalls@[j], draws[2 * j + 1])
            } by {
                assert(draws[2 * j] == all[n + 2 * j]);
                assert(draws[2 * j + 1] == all[n + 2 * j + 1]);
                assert(all[n + 2 * j] == all.subrange(0, n + 2 * d)[n + 2 * j]);
                assert(all[n + 2 * j + 1] == all.subrange(0, n + 2 * d)[n + 2 * j + 1]);
                assert(draw_part[n + 2 * j] == draw_part.subrange(0, n + 2 * d)[n + 2 * j]);
                assert(draw_part[n + 2 * j + 1] == draw_part.subrange(0, n + 2 * d)[n + 2 * j
                    + 1]);
            }
        }
        cmds
    }
}

} // verus!
