//! The OpenGL state cache: it remembers what the driver has been told, and
//! decides for each request which driver calls are still needed. The caller
//! makes the calls the decision names and reports back what the driver
//! returned (generated objects, queried locations).
use crate::graphics::{
    BlendFactor, Comparison, CullFace, Equation, FrontFaceOrder, Resource, VertexFormat,
};
use vstd::hash_map::{HashMapWithView, StringHashMap};
use vstd::prelude::*;

verus! {

broadcast use vstd::std_specs::hash::group_hash_axioms;

/// A blend setting: the equation and the source and destination factors.
pub type Blend = (Equation, BlendFactor, BlendFactor);

/// The driver state that the cache remembers.
pub struct VisitorView {
    pub cull_face: CullFace,
    pub front_face_order: FrontFaceOrder,
    pub depth_test: Comparison,
    pub depth_write: bool,
    pub color_blend: Option<Blend>,
    pub color_write: (bool, bool, bool, bool),
    pub viewport: Option<((u16, u16), (u16, u16))>,
    pub vertex_buffer: Option<u32>,
    pub index_buffer: Option<u32>,
    pub program: Option<u32>,
    pub vao: Option<u32>,
    pub uniform_locations: Map<u32, Map<Seq<char>, i32>>,
    pub attribute_locations: Map<u32, Map<Seq<char>, i32>>,
    pub vertex_arrays: Map<u32, Map<u32, u32>>,
}

/// The errors that the cache itself reports.
#[derive(Clone, Copy, Debug, PartialEq, Eq, Structural)]
pub enum ErrorKind {
    /// No active program, no bound vertex buffer, or an unknown program.
    InvalidHandle,
}

/// What to do about face culling.
#[derive(Clone, Copy, Debug, PartialEq, Eq, Structural)]
pub enum CullAction {
    /// Disable culling.
    Disable,
    /// Enable culling of the given faces (never `CullFace::Nothing`).
    Enable(CullFace),
}

/// What to do about the depth test.
#[derive(Clone, Copy, Debug, PartialEq, Eq, Structural)]
pub enum DepthAction {
    /// Disable the depth test.
    Disable,
    /// Enable the depth test with the given comparison (never `Comparison::Always`).
    Enable(Comparison),
}

/// What to do about color blending.
#[derive(Clone, Copy, Debug, PartialEq, Eq, Structural)]
pub enum BlendAction {
    /// Disable blending.
    Disable,
    /// Set the blend function and equation, enabling blending first when
    /// `enable` holds.
    Apply { enable: bool, equation: Equation, src: BlendFactor, dst: BlendFactor },
}

/// What binding a vertex attribute layout needs.
#[derive(Clone, Copy, Debug, PartialEq, Eq, Structural)]
pub enum LayoutStep {
    /// The vertex array object of the active program and buffer is bound.
    Bound,
    /// Bind this cached vertex array object.
    BindCached(u32),
    /// Generate and bind a vertex array object, set up the attributes of
    /// `program` on `buffer`, then record it.
    Generate { program: u32, buffer: u32 },
}

/// Where a uniform or attribute location comes from.
#[derive(Clone, Copy, Debug, PartialEq, Eq, Structural)]
pub enum Lookup {
    /// The cached location.
    Cached(i32),
    /// Not cached: query the driver, then record the answer.
    Query,
}

/// The format and component count that a shader expects of a vertex attribute.
#[derive(Clone, Copy, Debug, PartialEq, Eq, Structural)]
pub struct AttributeDesc {
    pub format: VertexFormat,
    pub size: u8,
}

/// How a vertex buffer lays out one attribute.
#[derive(Clone, Copy, Debug, PartialEq, Eq, Structural)]
pub struct VertexElement {
    pub format: VertexFormat,
    pub size: u8,
    pub normalized: bool,
}

/// Why a vertex buffer cannot feed the attributes a shader expects; the
/// number is the attribute's position in the shader's list.
#[derive(Clone, Copy, Debug, PartialEq, Eq, Structural)]
pub enum AttributeError {
    /// The vertex buffer has no such attribute.
    Missing(usize),
    /// The vertex buffer has the attribute in another format or size.
    Incompatible(usize),
}

/// The position an attribute error refers to.
pub open spec fn error_position(e: AttributeError) -> int {
    match e {
        AttributeError::Missing(i) => i as int,
        AttributeError::Incompatible(i) => i as int,
    }
}

/// What is wrong, if anything, with attribute `i`, which the shader wants
/// as `wanted` and the vertex buffer has as `found`.
pub open spec fn attribute_fault(i: int, wanted: AttributeDesc, found: Option<VertexElement>) -> Option<
    AttributeError,
> {
    match found {
        None => Some(AttributeError::Missing(i as usize)),
        Some(e) => if e.format != wanted.format || e.size != wanted.size {
            Some(AttributeError::Incompatible(i as usize))
        } else {
            None
        },
    }
}

/// Checks, in order, that the vertex buffer has each attribute the shader
/// wants (`found[i]` is what the buffer has under the name of `wanted[i]`)
/// in the wanted format and size; gives the first fault.
pub fn check_attribute_layout(wanted: &[AttributeDesc], found: &[Option<VertexElement>]) -> (r:
    Result<(), AttributeError>)
    requires
        wanted@.len() == found@.len(),
    ensures
        r is Ok <==> forall|i: int|
            0 <= i < wanted@.len() ==> #[trigger] attribute_fault(i, wanted@[i], found@[i]) is None,
        r matches Err(e) ==> {
            let k = error_position(e);
            &&& 0 <= k < wanted@.len()
            &&& attribute_fault(k, wanted@[k], found@[k]) == Some(e)
            &&& forall|j: int|
                0 <= j < k ==> #[trigger] attribute_fault(j, wanted@[j], found@[j]) is None
        },
{
    let mut i: usize = 0;
    while i < wanted.len()
        invariant
            wanted@.len() == found@.len(),
            i <= wanted@.len(),
            forall|j: int| 0 <= j < i ==> #[trigger] attribute_fault(j, wanted@[j], found@[j]) is None,
        decreases wanted@.len() - i,
    {
        match found[i] {
            None => {
                assert(attribute_fault(i as int, wanted@[i as int], found@[i as int]) is Some);
                return Err(AttributeError::Missing(i));
            },
            Some(e) => {
                if e.format != wanted[i].format || e.size != wanted[i].size {
                    assert(attribute_fault(i as int, wanted@[i as int], found@[i as int]) is Some);
                    return Err(AttributeError::Incompatible(i));
                }
            },
        }
        i = i + 1;
    }
    Ok(())
}

// ---------------------------------------------------------------------------
// The decisions, as functions of the remembered state.
/// The initial state, as a fresh OpenGL context has it: no culling,
/// counter-clockwise front faces, no depth test, depth writes on, no
/// blending, all color writes on, no viewport known yet, nothing bound and
/// nothing cached.
pub open spec fn initial_view() -> VisitorView {
    VisitorView {
        cull_face: CullFace::Nothing,
        front_face_order: FrontFaceOrder::CounterClockwise,
        depth_test: Comparison::Always,
        depth_write: true,
        color_blend: None,
        color_write: (true, true, true, true),
        viewport: None,
        vertex_buffer: None,
        index_buffer: None,
        program: None,
        vao: None,
        uniform_locations: Map::empty(),
        attribute_locations: Map::empty(),
        vertex_arrays: Map::empty(),
    }
}

/// The buffer bound to the target of `res`.
pub open spec fn bound_buffer(s: VisitorView, res: Resource) -> Option<u32> {
    match res {
        Resource::Vertex => s.vertex_buffer,
        Resource::Index => s.index_buffer,
    }
}

/// Binding buffer `id` to the target of `res`: a call unless it is bound.
pub open spec fn bind_buffer_step(s: VisitorView, res: Resource, id: u32) -> (VisitorView, bool) {
    if bound_buffer(s, res) == Some(id) {
        (s, false)
    } else {
        match res {
            Resource::Vertex => (VisitorView { vertex_buffer: Some(id), ..s }, true),
            Resource::Index => (VisitorView { index_buffer: Some(id), ..s }, true),
        }
    }
}

/// Using program `id`: a call unless it is in use.
pub open spec fn bind_program_step(s: VisitorView, id: u32) -> (VisitorView, bool) {
    if s.program == Some(id) {
        (s, false)
    } else {
        (VisitorView { program: Some(id), ..s }, true)
    }
}

/// The vertex array object cached for `program` and `buffer`.
pub open spec fn cached_vertex_array(s: VisitorView, program: u32, buffer: u32) -> Option<u32> {
    if s.vertex_arrays.contains_key(program) && s.vertex_arrays[program].contains_key(buffer) {
        Some(s.vertex_arrays[program][buffer])
    } else {
        None
    }
}

/// Binding the attribute layout of the active program on the bound vertex
/// buffer.
pub open spec fn layout_step(s: VisitorView) -> (VisitorView, Result<LayoutStep, ErrorKind>) {
    match (s.program, s.vertex_buffer) {
        (Some(pid), Some(vid)) => match cached_vertex_array(s, pid, vid) {
            Some(vao) => if s.vao == Some(vao) {
                (s, Ok(LayoutStep::Bound))
            } else {
                (VisitorView { vao: Some(vao), ..s }, Ok(LayoutStep::BindCached(vao)))
            },
            None => (s, Ok(LayoutStep::Generate { program: pid, buffer: vid })),
        },
        _ => (s, Err(ErrorKind::InvalidHandle)),
    }
}

/// A vertex array object `vao` has been generated and bound.
pub open spec fn vertex_array_generated_step(s: VisitorView, vao: u32) -> VisitorView {
    VisitorView { vao: Some(vao), ..s }
}

/// Vertex array object `vao` is set up for `program` on `buffer`.
pub open spec fn record_vertex_array_step(
    s: VisitorView,
    program: u32,
    buffer: u32,
    vao: u32,
) -> VisitorView {
    let arrays = if s.vertex_arrays.contains_key(program) {
        s.vertex_arrays[program]
    } else {
        Map::empty()
    };
    VisitorView { vertex_arrays: s.vertex_arrays.insert(program, arrays.insert(buffer, vao)), ..s }
}

/// Looking a name up in the location cache of program `id`.
pub open spec fn lookup_step(
    locations: Map<u32, Map<Seq<char>, i32>>,
    id: u32,
    name: Seq<char>,
) -> Result<Lookup, ErrorKind> {
    if !locations.contains_key(id) {
        Err(ErrorKind::InvalidHandle)
    } else if locations[id].contains_key(name) {
        Ok(Lookup::Cached(locations[id][name]))
    } else {
        Ok(Lookup::Query)
    }
}

/// Recording a queried location in the cache of a known program.
pub open spec fn record_location(
    locations: Map<u32, Map<Seq<char>, i32>>,
    id: u32,
    name: Seq<char>,
    location: i32,
) -> Map<u32, Map<Seq<char>, i32>> {
    if locations.contains_key(id) {
        locations.insert(id, locations[id].insert(name, location))
    } else {
        locations
    }
}

/// Setting the viewport: a call unless it is the current one; none is
/// known before the first.
pub open spec fn viewport_step(s: VisitorView, position: (u16, u16), size: (u16, u16)) -> (
    VisitorView,
    bool,
) {
    if s.viewport == Some((position, size)) {
        (s, false)
    } else {
        (VisitorView { viewport: Some((position, size)), ..s }, true)
    }
}

/// Setting the culled faces.
pub open spec fn cull_face_step(s: VisitorView, face: CullFace) -> (VisitorView, Option<
    CullAction,
>) {
    if s.cull_face == face {
        (s, None)
    } else if face == CullFace::Nothing {
        (VisitorView { cull_face: face, ..s }, Some(CullAction::Disable))
    } else {
        (VisitorView { cull_face: face, ..s }, Some(CullAction::Enable(face)))
    }
}

/// Setting the front face winding.
pub open spec fn front_face_step(s: VisitorView, front: FrontFaceOrder) -> (VisitorView, Option<
    FrontFaceOrder,
>) {
    if s.front_face_order == front {
        (s, None)
    } else {
        (VisitorView { front_face_order: front, ..s }, Some(front))
    }
}

/// Setting the depth comparison.
pub open spec fn depth_test_step(s: VisitorView, comparison: Comparison) -> (VisitorView, Option<
    DepthAction,
>) {
    if s.depth_test == comparison {
        (s, None)
    } else if comparison == Comparison::Always {
        (VisitorView { depth_test: comparison, ..s }, Some(DepthAction::Disable))
    } else {
        (VisitorView { depth_test: comparison, ..s }, Some(DepthAction::Enable(comparison)))
    }
}

/// Setting depth writes: the new depth mask, unless it is the current one.
pub open spec fn depth_write_step(s: VisitorView, enable: bool) -> (VisitorView, Option<bool>) {
    if s.depth_write == enable {
        (s, None)
    } else {
        (VisitorView { depth_write: enable, ..s }, Some(enable))
    }
}

/// Setting the blend mode.
pub open spec fn color_blend_step(s: VisitorView, blend: Option<Blend>) -> (VisitorView, Option<
    BlendAction,
>) {
    if s.color_blend == blend {
        (s, None)
    } else {
        let action = match blend {
            Some((equation, src, dst)) => BlendAction::Apply {
                enable: s.color_blend is None,
                equation,
                src,
                dst,
            },
            None => BlendAction::Disable,
        };
        (VisitorView { color_blend: blend, ..s }, Some(action))
    }
}

/// Setting the color write mask: a call unless it is the current one.
pub open spec fn color_write_step(s: VisitorView, mask: (bool, bool, bool, bool)) -> (
    VisitorView,
    bool,
) {
    if s.color_write == mask {
        (s, false)
    } else {
        (VisitorView { color_write: mask, ..s }, true)
    }
}

/// A program has been created: its location caches start empty.
pub open spec fn program_created_step(s: VisitorView, id: u32) -> VisitorView {
    VisitorView {
        uniform_locations: s.uniform_locations.insert(id, Map::empty()),
        attribute_locations: s.attribute_locations.insert(id, Map::empty()),
        ..s
    }
}

/// Empties the cache of program `id`, if it has one.
pub open spec fn forget_locations(locations: Map<u32, Map<Seq<char>, i32>>, id: u32) -> Map<
    u32,
    Map<Seq<char>, i32>,
> {
    if locations.contains_key(id) {
        locations.insert(id, Map::empty())
    } else {
        locations
    }
}

/// A program is deleted: it is no longer in use, and its caches are emptied.
pub open spec fn delete_program_step(s: VisitorView, id: u32) -> VisitorView {
    VisitorView {
        program: if s.program == Some(id) {
            None
        } else {
            s.program
        },
        uniform_locations: forget_locations(s.uniform_locations, id),
        attribute_locations: forget_locations(s.attribute_locations, id),
        ..s
    }
}

// ---------------------------------------------------------------------------
// Laws of the decisions.
/// A binding request decides a call exactly when a different buffer or
/// program (or none) is bound, and afterwards the requested one is bound.
pub proof fn law_binding_calls_exactly_on_change(s: VisitorView, res: Resource, id: u32)
    ensures
        bind_buffer_step(s, res, id).1 <==> bound_buffer(s, res) != Some(id),
        bound_buffer(bind_buffer_step(s, res, id).0, res) == Some(id),
        bind_program_step(s, id).1 <==> s.program != Some(id),
        bind_program_step(s, id).0.program == Some(id),
{
}

/// A state request decides a call exactly when it differs from the
/// remembered state, and the call it decides applies exactly the request:
/// the requested viewport; culling of the requested face, or disabling
/// culling for `Nothing`; the requested winding; the requested comparison,
/// or disabling the test for `Always`; the requested depth mask; the
/// requested color mask; and the requested blend function and equation,
/// enabling blending only when it was off, or disabling it for `None`.
/// Afterwards the remembered state is the requested one.
pub proof fn law_state_calls_exactly_on_change(
    s: VisitorView,
    position: (u16, u16),
    size: (u16, u16),
    face: CullFace,
    front: FrontFaceOrder,
    comparison: Comparison,
    enable: bool,
    blend: Option<Blend>,
    mask: (bool, bool, bool, bool),
)
    ensures
        viewport_step(s, position, size).1 <==> s.viewport != Some((position, size)),
        viewport_step(s, position, size).0.viewport == Some((position, size)),
        cull_face_step(s, face).1 is None <==> s.cull_face == face,
        s.cull_face != face && face != CullFace::Nothing ==> cull_face_step(s, face).1 == Some(
            CullAction::Enable(face),
        ),
        s.cull_face != face && face == CullFace::Nothing ==> cull_face_step(s, face).1 == Some(
            CullAction::Disable,
        ),
        cull_face_step(s, face).0.cull_face == face,
        front_face_step(s, front).1 == (if s.front_face_order == front {
            None
        } else {
            Some(front)
        }),
        front_face_step(s, front).0.front_face_order == front,
        depth_test_step(s, comparison).1 is None <==> s.depth_test == comparison,
        s.depth_test != comparison && comparison != Comparison::Always ==> depth_test_step(
            s,
            comparison,
        ).1 == Some(DepthAction::Enable(comparison)),
        s.depth_test != comparison && comparison == Comparison::Always ==> depth_test_step(
            s,
            comparison,
        ).1 == Some(DepthAction::Disable),
        depth_test_step(s, comparison).0.depth_test == comparison,
        depth_write_step(s, enable).1 == (if s.depth_write == enable {
            None
        } else {
            Some(enable)
        }),
        depth_write_step(s, enable).0.depth_write == enable,
        color_write_step(s, mask).1 <==> s.color_write != mask,
        color_write_step(s, mask).0.color_write == mask,
        color_blend_step(s, blend).1 is None <==> s.color_blend == blend,
        s.color_blend != blend ==> match blend {
            Some((equation, src, dst)) => color_blend_step(s, blend).1 == Some(
                BlendAction::Apply { enable: s.color_blend is None, equation, src, dst },
            ),
            None => color_blend_step(s, blend).1 == Some(BlendAction::Disable),
        },
        color_blend_step(s, blend).0.color_blend == blend,
{
}

/// Binding an attribute layout fails exactly when no program is in use or no
/// vertex buffer is bound. Otherwise, with an array recorded for that
/// program and buffer, it binds that array unless it is bound already; with
/// none recorded, it asks for one for exactly that program and buffer and
/// changes nothing yet.
pub proof fn law_layout_decision(s: VisitorView, pid: u32, vid: u32)
    ensures
        layout_step(s).1 is Err <==> (s.program is None || s.vertex_buffer is None),
        layout_step(s).1 is Err ==> layout_step(s).0 == s,
        s.program == Some(pid) && s.vertex_buffer == Some(vid) ==> {
            if s.vertex_arrays.contains_key(pid) && s.vertex_arrays[pid].contains_key(vid) {
                let vao = s.vertex_arrays[pid][vid];
                &&& layout_step(s).0 == VisitorView { vao: Some(vao), ..s }
                &&& layout_step(s).1 == if s.vao == Some(vao) {
                    Ok::<LayoutStep, ErrorKind>(LayoutStep::Bound)
                } else {
                    Ok::<LayoutStep, ErrorKind>(LayoutStep::BindCached(vao))
                }
            } else {
                &&& layout_step(s).0 == s
                &&& layout_step(s).1 == Ok::<LayoutStep, ErrorKind>(
                    LayoutStep::Generate { program: pid, buffer: vid },
                )
            }
        },
{
}

/// A location lookup fails exactly for a program with no cache, gives the
/// cached location of a cached name, and asks for a query otherwise.
pub proof fn law_lookup_decision(locations: Map<u32, Map<Seq<char>, i32>>, id: u32, name: Seq<char>)
    ensures
        lookup_step(locations, id, name) is Err <==> !locations.contains_key(id),
        locations.contains_key(id) && locations[id].contains_key(name) ==> lookup_step(
            locations,
            id,
            name,
        ) == Ok::<Lookup, ErrorKind>(Lookup::Cached(locations[id][name])),
        locations.contains_key(id) && !locations[id].contains_key(name) ==> lookup_step(
            locations,
            id,
            name,
        ) == Ok::<Lookup, ErrorKind>(Lookup::Query),
{
}

/// Repeating a binding request right after it was made needs no call.
pub proof fn law_repeated_binding_needs_no_call(s: VisitorView, res: Resource, id: u32)
    ensures
        !bind_buffer_step(bind_buffer_step(s, res, id).0, res, id).1,
        !bind_program_step(bind_program_step(s, id).0, id).1,
        layout_step(layout_step(s).0).1 matches Ok(step) ==> !(step is BindCached),
{
}

/// Repeating a state request right after it was made needs no call, and
/// each request changes nothing but the state it sets.
pub proof fn law_repeated_state_needs_no_call(
    s: VisitorView,
    position: (u16, u16),
    size: (u16, u16),
    face: CullFace,
    front: FrontFaceOrder,
    comparison: Comparison,
    enable: bool,
    blend: Option<Blend>,
    mask: (bool, bool, bool, bool),
)
    ensures
        !viewport_step(viewport_step(s, position, size).0, position, size).1,
        cull_face_step(cull_face_step(s, face).0, face).1 is None,
        front_face_step(front_face_step(s, front).0, front).1 is None,
        depth_test_step(depth_test_step(s, comparison).0, comparison).1 is None,
        depth_write_step(depth_write_step(s, enable).0, enable).1 is None,
        color_blend_step(color_blend_step(s, blend).0, blend).1 is None,
        !color_write_step(color_write_step(s, mask).0, mask).1,
        viewport_step(s, position, size).0 == (VisitorView {
            viewport: Some((position, size)),
            ..s
        }),
        cull_face_step(s, face).0 == (VisitorView { cull_face: face, ..s }),
        front_face_step(s, front).0 == (VisitorView { front_face_order: front, ..s }),
        depth_test_step(s, comparison).0 == (VisitorView { depth_test: comparison, ..s }),
        depth_write_step(s, enable).0 == (VisitorView { depth_write: enable, ..s }),
        color_blend_step(s, blend).0 == (VisitorView { color_blend: blend, ..s }),
        color_write_step(s, mask).0 == (VisitorView { color_write: mask, ..s }),
{
}

/// On a fresh cache, the first request for culling, for depth writes off,
/// for color writes off, and for any viewport each decides a driver call.
pub proof fn law_fresh_cache_applies_first_requests(
    face: CullFace,
    mask: (bool, bool, bool, bool),
    position: (u16, u16),
    size: (u16, u16),
)
    ensures
        face != CullFace::Nothing ==> cull_face_step(initial_view(), face).1 == Some(
            CullAction::Enable(face),
        ),
        depth_write_step(initial_view(), false).1 == Some(false),
        mask != (true, true, true, true) ==> color_write_step(initial_view(), mask).1,
        viewport_step(initial_view(), position, size).1,
{
}

/// A recorded location is what the next lookup of that name gives, and
/// other names keep their lookups.
pub proof fn law_lookup_after_record(
    locations: Map<u32, Map<Seq<char>, i32>>,
    id: u32,
    name: Seq<char>,
    location: i32,
    other: Seq<char>,
)
    requires
        locations.contains_key(id),
    ensures
        lookup_step(record_location(locations, id, name, location), id, name) == Ok::<
            Lookup,
            ErrorKind,
        >(Lookup::Cached(location)),
        other != name ==> lookup_step(record_location(locations, id, name, location), id, other)
            == lookup_step(locations, id, other),
{
}

/// After a program is created or deleted, no location of it is cached:
/// every lookup of it queries the driver, and a deleted program is not in use.
pub proof fn law_no_stale_locations(s: VisitorView, id: u32, name: Seq<char>)
    ensures
        lookup_step(program_created_step(s, id).uniform_locations, id, name) == Ok::<
            Lookup,
            ErrorKind,
        >(Lookup::Query),
        !(lookup_step(delete_program_step(s, id).uniform_locations, id, name) matches Ok(
            Lookup::Cached(_),
        )),
        delete_program_step(s, id).program != Some(id),
{
}

/// Once the vertex array set up for the active program and bound vertex
/// buffer is recorded, binding the layout again needs no call.
pub proof fn law_layout_after_record(s: VisitorView, vao: u32)
    requires
        layout_step(s).1 matches Ok(LayoutStep::Generate { .. }),
    ensures
        ({
            let recorded = record_vertex_array_step(
                vertex_array_generated_step(s, vao),
                s.program->Some_0,
                s.vertex_buffer->Some_0,
                vao,
            );
            layout_step(recorded) == (recorded, Ok::<LayoutStep, ErrorKind>(LayoutStep::Bound))
        }),
{
}

// ---------------------------------------------------------------------------
// The cache.
/// The OpenGL state cache.
pub struct OpenGLVisitor {
    cull_face: CullFace,
    front_face_order: FrontFaceOrder,
    depth_test: Comparison,
    depth_write: bool,
    color_blend: Option<Blend>,
    color_write: (bool, bool, bool, bool),
    viewport: Option<((u16, u16), (u16, u16))>,
    active_vertex_buffer: Option<u32>,
    active_index_buffer: Option<u32>,
    active_program: Option<u32>,
    active_vao: Option<u32>,
    program_attribute_locations: HashMapWithView<u32, StringHashMap<i32>>,
    program_uniform_locations: HashMapWithView<u32, StringHashMap<i32>>,
    vertex_array_objects: HashMapWithView<u32, HashMapWithView<u32, u32>>,
}

/// The views of the location caches.
pub open spec fn locations_view(m: Map<u32, StringHashMap<i32>>) -> Map<u32, Map<Seq<char>, i32>> {
    Map::new(|k: u32| m.contains_key(k), |k: u32| m[k]@)
}

/// The views of the vertex array caches.
pub open spec fn arrays_view(m: Map<u32, HashMapWithView<u32, u32>>) -> Map<u32, Map<u32, u32>> {
    Map::new(|k: u32| m.contains_key(k), |k: u32| m[k]@)
}

impl View for OpenGLVisitor {
    type V = VisitorView;

    closed spec fn view(&self) -> VisitorView {
        VisitorView {
            cull_face: self.cull_face,
            front_face_order: self.front_face_order,
            depth_test: self.depth_test,
            depth_write: self.depth_write,
            color_blend: self.color_blend,
            color_write: self.color_write,
            viewport: self.viewport,
            vertex_buffer: self.active_vertex_buffer,
            index_buffer: self.active_index_buffer,
            program: self.active_program,
            vao: self.active_vao,
            uniform_locations: locations_view(self.program_uniform_locations@),
            attribute_locations: locations_view(self.program_attribute_locations@),
            vertex_arrays: arrays_view(self.vertex_array_objects@),
        }
    }
}

impl OpenGLVisitor {
    /// Creates a cache in the initial state.
    pub fn new() -> (r: OpenGLVisitor)
        ensures
            r@ == initial_view(),
    {
        let r = OpenGLVisitor {
            cull_face: CullFace::Nothing,
            front_face_order: FrontFaceOrder::CounterClockwise,
            depth_test: Comparison::Always,
            depth_write: true,
            color_blend: None,
            color_write: (true, true, true, true),
            viewport: None,
            active_vertex_buffer: None,
            active_index_buffer: None,
            active_program: None,
            active_vao: None,
            program_attribute_locations: HashMapWithView::new(),
            program_uniform_locations: HashMapWithView::new(),
            vertex_array_objects: HashMapWithView::new(),
        };
        assert(r@.uniform_locations =~= Map::empty());
        assert(r@.attribute_locations =~= Map::empty());
        assert(r@.vertex_arrays =~= Map::empty());
        r
    }

    /// Decides whether binding buffer `id` to the target of `res` needs a
    /// `glBindBuffer` call, and remembers the binding.
    pub fn bind_buffer(&mut self, res: Resource, id: u32) -> (call: bool)
        ensures
            (final(self)@, call) == bind_buffer_step(old(self)@, res, id),
    {
        match res {
            Resource::Vertex => {
                if self.active_vertex_buffer == Some(id) {
                    return false;
                }
                self.active_vertex_buffer = Some(id);
            },
            Resource::Index => {
                if self.active_index_buffer == Some(id) {
                    return false;
                }
                self.active_index_buffer = Some(id);
            },
        }
        true
    }

    /// Decides whether using program `id` needs a `glUseProgram` call, and
    /// remembers it.
    pub fn bind_program(&mut self, id: u32) -> (call: bool)
        ensures
            (final(self)@, call) == bind_program_step(old(self)@, id),
    {
        if self.active_program == Some(id) {
            return false;
        }
        self.active_program = Some(id);
        true
    }

    /// Decides how to bind the vertex attribute layout of the active program
    /// on the bound vertex buffer, and remembers a cached array it binds.
    pub fn bind_attribute_layout(&mut self) -> (step: Result<LayoutStep, ErrorKind>)
        ensures
            (final(self)@, step) == layout_step(old(self)@),
    {
        let pid = match self.active_program {
            Some(pid) => pid,
            None => return Err(ErrorKind::InvalidHandle),
        };
        let vid = match self.active_vertex_buffer {
            Some(vid) => vid,
            None => return Err(ErrorKind::InvalidHandle),
        };
        let cached = match self.vertex_array_objects.get(&pid) {
            Some(arrays) => match arrays.get(&vid) {
                Some(vao) => Some(*vao),
                None => None,
            },
            None => None,
        };
        match cached {
            Some(vao) => {
                if self.active_vao == Some(vao) {
                    Ok(LayoutStep::Bound)
                } else {
                    self.active_vao = Some(vao);
                    Ok(LayoutStep::BindCached(vao))
                }
            },
            None => Ok(LayoutStep::Generate { program: pid, buffer: vid }),
        }
    }

    /// Remembers that vertex array object `vao` has been generated and bound.
    pub fn vertex_array_generated(&mut self, vao: u32)
        ensures
            final(self)@ == vertex_array_generated_step(old(self)@, vao),
    {
        self.active_vao = Some(vao);
    }

    /// Records the vertex array object set up for `program` on `buffer`.
    pub fn record_vertex_array(&mut self, program: u32, buffer: u32, vao: u32)
        ensures
            final(self)@ == record_vertex_array_step(old(self)@, program, buffer, vao),
    {
        let ghost before = self.vertex_array_objects@;
        let mut arrays = match self.vertex_array_objects.remove(&program) {
            Some(arrays) => arrays,
            None => HashMapWithView::new(),
        };
        arrays.insert(buffer, vao);
        self.vertex_array_objects.insert(program, arrays);
        assert(arrays_view(self.vertex_array_objects@) =~= arrays_view(before).insert(
            program,
            if before.contains_key(program) {
                before[program]@
            } else {
                Map::empty()
            }.insert(buffer, vao),
        ));
    }

    /// Decides where the location of uniform `name` of program `id` comes from.
    pub fn get_uniform_location(&self, id: u32, name: &str) -> (r: Result<Lookup, ErrorKind>)
        ensures
            r == lookup_step(self@.uniform_locations, id, name@),
    {
        lookup(&self.program_uniform_locations, id, name)
    }

    /// Records the queried location of uniform `name` of program `id`.
    pub fn record_uniform_location(&mut self, id: u32, name: &str, location: i32)
        ensures
            final(self)@ == (VisitorView {
                uniform_locations: record_location(old(self)@.uniform_locations, id, name@, location),
                ..old(self)@
            }),
    {
        record(&mut self.program_uniform_locations, id, name, location);
    }

    /// Decides where the location of attribute `name` of program `id` comes
    /// from. Attribute locations are kept in the same cache as uniform
    /// locations.
    pub fn get_attribute_location(&self, id: u32, name: &str) -> (r: Result<Lookup, ErrorKind>)
        ensures
            r == lookup_step(self@.uniform_locations, id, name@),
    {
        lookup(&self.program_uniform_locations, id, name)
    }

    /// Records the queried location of attribute `name` of program `id`, in
    /// the cache it is looked up in.
    pub fn record_attribute_location(&mut self, id: u32, name: &str, location: i32)
        ensures
            final(self)@ == (VisitorView {
                uniform_locations: record_location(old(self)@.uniform_locations, id, name@, location),
                ..old(self)@
            }),
    {
        record(&mut self.program_uniform_locations, id, name, location);
    }

    /// Decides whether the viewport needs a `glViewport` call, and remembers it.
    pub fn set_viewport(&mut self, position: (u16, u16), size: (u16, u16)) -> (call: bool)
        ensures
            (final(self)@, call) == viewport_step(old(self)@, position, size),
    {
        let same = match self.viewport {
            Some(((x, y), (w, h))) => x == position.0 && y == position.1 && w == size.0 && h
                == size.1,
            None => false,
        };
        if !same {
            self.viewport = Some((position, size));
            true
        } else {
            false
        }
    }

    /// Decides what culling `face` needs, and remembers it.
    pub fn set_cull_face(&mut self, face: CullFace) -> (action: Option<CullAction>)
        ensures
            (final(self)@, action) == cull_face_step(old(self)@, face),
    {
        if self.cull_face != face {
            self.cull_face = face;
            if face != CullFace::Nothing {
                Some(CullAction::Enable(face))
            } else {
                Some(CullAction::Disable)
            }
        } else {
            None
        }
    }

    /// Decides whether the front face winding needs a `glFrontFace` call,
    /// and remembers it.
    pub fn set_front_face_order(&mut self, front: FrontFaceOrder) -> (action: Option<
        FrontFaceOrder,
    >)
        ensures
            (final(self)@, action) == front_face_step(old(self)@, front),
    {
        if self.front_face_order != front {
            self.front_face_order = front;
            Some(front)
        } else {
            None
        }
    }

    /// Decides what the depth comparison needs, and remembers it.
    pub fn set_depth_test(&mut self, comparison: Comparison) -> (action: Option<DepthAction>)
        ensures
            (final(self)@, action) == depth_test_step(old(self)@, comparison),
    {
        if self.depth_test != comparison {
            self.depth_test = comparison;
            if comparison != Comparison::Always {
                Some(DepthAction::Enable(comparison))
            } else {
                Some(DepthAction::Disable)
            }
        } else {
            None
        }
    }

    /// Decides whether depth writes need a `glDepthMask` call, and remembers them.
    pub fn set_depth_write(&mut self, enable: bool) -> (action: Option<bool>)
        ensures
            (final(self)@, action) == depth_write_step(old(self)@, enable),
    {
        if self.depth_write != enable {
            self.depth_write = enable;
            Some(enable)
        } else {
            None
        }
    }

    /// Decides what the blend mode needs, and remembers it.
    pub fn set_color_blend(&mut self, blend: Option<Blend>) -> (action: Option<BlendAction>)
        ensures
            (final(self)@, action) == color_blend_step(old(self)@, blend),
    {
        if !same_blend(self.color_blend, blend) {
            let action = match blend {
                Some((equation, src, dst)) => BlendAction::Apply {
                    enable: self.color_blend.is_none(),
                    equation,
                    src,
                    dst,
                },
                None => BlendAction::Disable,
            };
            self.color_blend = blend;
            Some(action)
        } else {
            None
        }
    }

    /// Decides whether the color write mask needs a `glColorMask` call, and
    /// remembers it.
    pub fn set_color_write(&mut self, red: bool, green: bool, blue: bool, alpha: bool) -> (call:
        bool)
        ensures
            (final(self)@, call) == color_write_step(old(self)@, (red, green, blue, alpha)),
    {
        let cw = self.color_write;
        if cw.0 != red || cw.1 != green || cw.2 != blue || cw.3 != alpha {
            self.color_write = (red, green, blue, alpha);
            true
        } else {
            false
        }
    }

    /// Starts the location caches of a newly created program `id` empty.
    pub fn program_created(&mut self, id: u32)
        ensures
            final(self)@ == program_created_step(old(self)@, id),
    {
        reset(&mut self.program_uniform_locations, id);
        reset(&mut self.program_attribute_locations, id);
    }

    /// Forgets program `id`: it is no longer in use, and its caches are emptied.
    pub fn delete_program(&mut self, id: u32)
        ensures
            final(self)@ == delete_program_step(old(self)@, id),
    {
        if let Some(v) = self.active_program {
            if v == id {
                self.active_program = None;
            }
        }
        forget(&mut self.program_uniform_locations, id);
        forget(&mut self.program_attribute_locations, id);
    }
}

/// Whether two blend settings are equal.
fn same_blend(a: Option<Blend>, b: Option<Blend>) -> (r: bool)
    ensures
        r == (a == b),
{
    match (a, b) {
        (None, None) => true,
        (Some(x), Some(y)) => x.0 == y.0 && same_factor(x.1, y.1) && same_factor(x.2, y.2),
        _ => false,
    }
}

/// Whether two blend factors are equal.
fn same_factor(a: BlendFactor, b: BlendFactor) -> (r: bool)
    ensures
        r == (a == b),
{
    match (a, b) {
        (BlendFactor::Zero, BlendFactor::Zero) => true,
        (BlendFactor::One, BlendFactor::One) => true,
        (BlendFactor::Value(x), BlendFactor::Value(y)) => x == y,
        (BlendFactor::OneMinusValue(x), BlendFactor::OneMinusValue(y)) => x == y,
        _ => false,
    }
}

/// Looks a name up in a location cache.
fn lookup(cache: &HashMapWithView<u32, StringHashMap<i32>>, id: u32, name: &str) -> (r: Result<
    Lookup,
    ErrorKind,
>)
    ensures
        r == lookup_step(locations_view(cache@), id, name@),
{
    match cache.get(&id) {
        Some(locations) => match locations.get(name) {
            Some(location) => Ok(Lookup::Cached(*location)),
            None => Ok(Lookup::Query),
        },
        None => Err(ErrorKind::InvalidHandle),
    }
}

/// Records a location in the cache of a known program.
fn record(cache: &mut HashMapWithView<u32, StringHashMap<i32>>, id: u32, name: &str, location: i32)
    ensures
        locations_view(final(cache)@) == record_location(locations_view(old(cache)@), id, name@, location),
{
    let ghost before = cache@;
    match cache.remove(&id) {
        Some(mut locations) => {
            locations.insert(name.to_owned(), location);
            cache.insert(id, locations);
            assert(locations_view(cache@) =~= record_location(locations_view(before), id, name@, location));
        },
        None => {
            assert(locations_view(cache@) =~= locations_view(before));
        },
    }
}

/// Starts the cache of program `id` empty.
fn reset(cache: &mut HashMapWithView<u32, StringHashMap<i32>>, id: u32)
    ensures
        locations_view(final(cache)@) == locations_view(old(cache)@).insert(id, Map::empty()),
{
    let ghost before = cache@;
    match cache.remove(&id) {
        Some(mut locations) => {
            locations.clear();
            cache.insert(id, locations);
        },
        None => {
            cache.insert(id, StringHashMap::new());
        },
    }
    assert(locations_view(cache@) =~= locations_view(before).insert(id, Map::empty()));
}

/// Empties the cache of program `id`, if it has one.
fn forget(cache: &mut HashMapWithView<u32, StringHashMap<i32>>, id: u32)
    ensures
        locations_view(final(cache)@) == forget_locations(locations_view(old(cache)@), id),
{
    let ghost before = cache@;
    match cache.remove(&id) {
        Some(mut locations) => {
            locations.clear();
            cache.insert(id, locations);
            assert(locations_view(cache@) =~= forget_locations(locations_view(before), id));
        },
        None => {
            assert(locations_view(cache@) =~= forget_locations(locations_view(before), id));
        },
    }
}

} // verus!
