//! Pipelines: a shader, its fixed-function settings, and the layout of its vertex data.
use vstd::prelude::*;

use crate::cache::VertexAttributeInternal;
use crate::context::Context;
use crate::gl::GLuint;
use crate::text::{find_nul, has_nul};
use crate::types::{
    BufferLayout, Pipeline, PipelineParams, Shader, VertexAttribute, VertexFormat, VertexStep,
};

verus! {

/// A pipeline; slot `i` of `layout` describes what feeds attribute location `i`.
pub struct PipelineInternal {
    pub layout: Vec<Option<VertexAttributeInternal>>,
    pub shader: Shader,
    pub params: PipelineParams,
}

/// The widest vertex, in bytes, that every driver takes.
pub const MAX_VERTEX_STRIDE: i32 = 255;

/// A question to the driver: where does `program` keep the attribute `name`? The answer is -1
/// where it does not use the attribute.
#[derive(Clone, Copy, Debug)]
pub struct AttributeQuery {
    pub program: GLuint,
    pub name: &'static str,
}

impl VertexFormat {
    /// How many attribute slots the format takes: a matrix is fed as four columns.
    pub open spec fn slots(self) -> nat {
        if self is Mat4 {
            4
        } else {
            1
        }
    }

    /// What one slot of the format holds.
    pub open spec fn slot_format(self) -> VertexFormat {
        if self is Mat4 {
            VertexFormat::Float4
        } else {
            self
        }
    }
}

/// Bytes that the attributes below `count` take in buffer `buffer`.
pub open spec fn packed_bytes(
    attributes: Seq<VertexAttribute>,
    buffer: usize,
    count: nat,
) -> int
    decreases count,
{
    if count == 0 {
        0
    } else {
        let before = packed_bytes(attributes, buffer, (count - 1) as nat);
        if attributes[count - 1].buffer_index == buffer {
            before + attributes[count - 1].format.bytes()
        } else {
            before
        }
    }
}

/// Slots that the attributes below `count` take.
pub open spec fn slot_count(attributes: Seq<VertexAttribute>, count: nat) -> nat
    decreases count,
{
    if count == 0 {
        0
    } else {
        slot_count(attributes, (count - 1) as nat) + attributes[count - 1].format.slots()
    }
}

/// The distance between two elements of a buffer: what its layout says, or else the bytes that
/// its attributes take.
pub open spec fn vertex_stride(
    layouts: Seq<BufferLayout>,
    attributes: Seq<VertexAttribute>,
    buffer: usize,
) -> int {
    if layouts[buffer as int].stride == 0 {
        packed_bytes(attributes, buffer, attributes.len())
    } else {
        layouts[buffer as int].stride as int
    }
}

/// How many instances share one element: 0 for data that changes with every vertex.
pub open spec fn vertex_divisor(layout: BufferLayout) -> i32 {
    if layout.step_func is PerVertex {
        0
    } else {
        layout.step_rate
    }
}

/// Slot number `column` of attribute `k`.
pub open spec fn attribute_slot(
    layouts: Seq<BufferLayout>,
    attributes: Seq<VertexAttribute>,
    locations: Seq<i32>,
    k: int,
    column: int,
) -> VertexAttributeInternal {
    let buffer = attributes[k].buffer_index;
    let format = attributes[k].format.slot_format();
    VertexAttributeInternal {
        attr_loc: (locations[k] as GLuint + column) as GLuint,
        size: format.components() as i32,
        type_: format.component_type(),
        offset: (packed_bytes(attributes, buffer, k as nat) + column * format.bytes()) as i64,
        stride: vertex_stride(layouts, attributes, buffer) as i32,
        buffer_index: buffer,
        divisor: vertex_divisor(layouts[buffer as int]),
    }
}

/// Attribute `k` is used by the program and covers `slot`.
pub open spec fn covers(
    attributes: Seq<VertexAttribute>,
    locations: Seq<i32>,
    k: int,
    slot: int,
) -> bool {
    locations[k] != -1 && (locations[k] as GLuint) <= slot < (locations[k] as GLuint)
        + attributes[k].format.slots()
}

/// The last attribute below `count` that covers `slot`.
pub open spec fn slot_owner(
    attributes: Seq<VertexAttribute>,
    locations: Seq<i32>,
    count: nat,
    slot: int,
) -> Option<int>
    decreases count,
{
    if count == 0 {
        None
    } else if covers(attributes, locations, count - 1, slot) {
        Some(count - 1)
    } else {
        slot_owner(attributes, locations, (count - 1) as nat, slot)
    }
}

/// What feeds `slot`, as far as the attributes below `count` say.
pub open spec fn slot_content(
    layouts: Seq<BufferLayout>,
    attributes: Seq<VertexAttribute>,
    locations: Seq<i32>,
    count: nat,
    slot: int,
) -> Option<VertexAttributeInternal> {
    match slot_owner(attributes, locations, count, slot) {
        Some(k) => Some(
            attribute_slot(
                layouts,
                attributes,
                locations,
                k,
                slot - (locations[k] as GLuint),
            ),
        ),
        None => None,
    }
}

/// The layout of a pipeline: one slot for each column of each attribute.
pub open spec fn vertex_layout(
    layouts: Seq<BufferLayout>,
    attributes: Seq<VertexAttribute>,
    locations: Seq<i32>,
) -> Seq<Option<VertexAttributeInternal>> {
    Seq::new(
        slot_count(attributes, attributes.len()),
        |slot: int| slot_content(layouts, attributes, locations, attributes.len(), slot),
    )
}

/// Attribute `k` has a buffer of bearable stride, a name that the driver can take, and slots
/// within the layout.
pub open spec fn attribute_fits(
    layouts: Seq<BufferLayout>,
    attributes: Seq<VertexAttribute>,
    locations: Seq<i32>,
    k: int,
) -> bool {
    let attribute = attributes[k];
    &&& attribute.buffer_index < layouts.len()
    &&& vertex_stride(layouts, attributes, attribute.buffer_index) <= MAX_VERTEX_STRIDE
    &&& !has_nul(attribute.name@)
    &&& locations[k] != -1 ==> (locations[k] as GLuint) + attribute.format.slots() <= slot_count(
        attributes,
        attributes.len(),
    ) as u32
}

/// The sizes that a layout is computed with are within the machine's range.
pub open spec fn sizes_in_range(attributes: Seq<VertexAttribute>) -> bool {
    &&& slot_count(attributes, attributes.len()) <= usize::MAX
    &&& forall|buffer: usize|
        #[trigger] packed_bytes(attributes, buffer, attributes.len()) <= i64::MAX
}

/// Attributes, buffer layouts and locations from which a pipeline can be made.
pub open spec fn attributes_valid(
    layouts: Seq<BufferLayout>,
    attributes: Seq<VertexAttribute>,
    locations: Seq<i32>,
) -> bool {
    &&& locations.len() == attributes.len()
    &&& sizes_in_range(attributes)
    &&& forall|k: int|
        0 <= k < attributes.len() ==> #[trigger] attribute_fits(layouts, attributes, locations, k)
}

/// What attributes take in a buffer only grows as more of them are counted.
pub proof fn lemma_packed_bytes_monotone(
    attributes: Seq<VertexAttribute>,
    buffer: usize,
    a: nat,
    b: nat,
)
    requires
        a <= b,
    ensures
        0 <= packed_bytes(attributes, buffer, a) <= packed_bytes(attributes, buffer, b),
    decreases b,
{
    if a < b {
        lemma_packed_bytes_monotone(attributes, buffer, a, (b - 1) as nat);
    } else if b > 0 {
        lemma_packed_bytes_monotone(attributes, buffer, (a - 1) as nat, (b - 1) as nat);
    }
}

proof fn lemma_slot_count_monotone(attributes: Seq<VertexAttribute>, a: nat, b: nat)
    requires
        a <= b,
    ensures
        slot_count(attributes, a) <= slot_count(attributes, b),
    decreases b,
{
    if a < b {
        lemma_slot_count_monotone(attributes, a, (b - 1) as nat);
    }
}

/// The stride of a buffer as far as the attributes below `count` have settled it.
spec fn stride_so_far(
    layouts: Seq<BufferLayout>,
    attributes: Seq<VertexAttribute>,
    buffer: int,
    count: nat,
) -> int
    decreases count,
{
    if count == 0 {
        0
    } else {
        let before = stride_so_far(layouts, attributes, buffer, (count - 1) as nat);
        if attributes[count - 1].buffer_index != buffer {
            before
        } else if layouts[buffer].stride == 0 {
            before + attributes[count - 1].format.bytes()
        } else {
            layouts[buffer].stride as int
        }
    }
}

proof fn lemma_stride_so_far(
    layouts: Seq<BufferLayout>,
    attributes: Seq<VertexAttribute>,
    buffer: usize,
    count: nat,
)
    ensures
        layouts[buffer as int].stride == 0 ==> stride_so_far(
            layouts,
            attributes,
            buffer as int,
            count,
        ) == packed_bytes(attributes, buffer, count),
        layouts[buffer as int].stride != 0 ==> stride_so_far(
            layouts,
            attributes,
            buffer as int,
            count,
        ) == if exists|k: int| 0 <= k < count && attributes[k].buffer_index == buffer {
            layouts[buffer as int].stride as int
        } else {
            0
        },
    decreases count,
{
    if count > 0 {
        lemma_stride_so_far(layouts, attributes, buffer, (count - 1) as nat);
        if attributes[count - 1].buffer_index == buffer {
            assert(exists|k: int| 0 <= k < count && attributes[k].buffer_index == buffer);
        } else if exists|k: int| 0 <= k < count && attributes[k].buffer_index == buffer {
            let k = choose|k: int| 0 <= k < count && attributes[k].buffer_index == buffer;
            assert(0 <= k < count - 1 && attributes[k].buffer_index == buffer);
        }
    }
}

/// The stride of each buffer that an attribute uses.
fn buffer_strides(
    buffer_layout: &[BufferLayout],
    attributes: &[VertexAttribute],
    Ghost(locations): Ghost<Seq<i32>>,
) -> (strides: Vec<i32>)
    requires
        attributes_valid(buffer_layout@, attributes@, locations),
    ensures
        strides@.len() == buffer_layout@.len(),
        forall|k: int|
            0 <= k < attributes@.len() ==> strides@[(#[trigger] attributes@[k]).buffer_index as int]
                == vertex_stride(buffer_layout@, attributes@, attributes@[k].buffer_index),
{
    let ghost layouts = buffer_layout@;
    let ghost list = attributes@;
    let mut strides: Vec<i32> = Vec::new();
    for b in 0..buffer_layout.len()
        invariant
            strides@.len() == b,
            forall|i: int| 0 <= i < b ==> strides@[i] == 0,
    {
        strides.push(0);
    }
    for k in 0..attributes.len()
        invariant
            layouts == buffer_layout@,
            list == attributes@,
            attributes_valid(layouts, list, locations),
            strides@.len() == layouts.len(),
            forall|b: int|
                0 <= b < layouts.len() ==> #[trigger] strides@[b] == stride_so_far(
                    layouts,
                    list,
                    b,
                    k as nat,
                ),
    {
        let VertexAttribute { format, buffer_index, .. } = attributes[k];
        assert(attribute_fits(layouts, list, locations, k as int));
        let layout = buffer_layout[buffer_index];
        assert(strides@[buffer_index as int] == stride_so_far(
            layouts,
            list,
            buffer_index as int,
            k as nat,
        ));
        proof {
            lemma_stride_so_far(layouts, list, buffer_index, k as nat);
            lemma_packed_bytes_monotone(list, buffer_index, k as nat, (k + 1) as nat);
            lemma_packed_bytes_monotone(list, buffer_index, (k + 1) as nat, list.len());
        }
        if layout.stride == 0 {
            strides[buffer_index] = strides[buffer_index] + format.byte_len();
        } else {
            strides[buffer_index] = layout.stride;
        }
    }
    proof {
        assert forall|k: int| 0 <= k < list.len() implies strides@[(
        #[trigger] list[k]).buffer_index as int] == vertex_stride(
            layouts,
            list,
            list[k].buffer_index,
        ) by {
            assert(attribute_fits(layouts, list, locations, k));
            lemma_stride_so_far(layouts, list, list[k].buffer_index, list.len());
            assert(stride_so_far(layouts, list, list[k].buffer_index as int, list.len())
                == strides@[list[k].buffer_index as int]);
        }
    }
    strides
}

/// How many slots the attributes take together.
fn count_slots(attributes: &[VertexAttribute]) -> (count: usize)
    requires
        slot_count(attributes@, attributes@.len()) <= usize::MAX,
    ensures
        count == slot_count(attributes@, attributes@.len()),
{
    let mut count: usize = 0;
    for k in 0..attributes.len()
        invariant
            slot_count(attributes@, attributes@.len()) <= usize::MAX,
            count == slot_count(attributes@, k as nat),
    {
        proof {
            lemma_slot_count_monotone(attributes@, (k + 1) as nat, attributes@.len());
        }
        count += match attributes[k].format {
            VertexFormat::Mat4 => 4,
            _ => 1,
        };
    }
    count
}

/// A layout in which the slots from `first` on hold `count` columns of one attribute, each
/// `column_bytes` after the one before.
spec fn columns_placed(
    layout: Seq<Option<VertexAttributeInternal>>,
    first: VertexAttributeInternal,
    count: int,
    column_bytes: int,
) -> Seq<Option<VertexAttributeInternal>> {
    Seq::new(
        layout.len(),
        |slot: int|
            if first.attr_loc <= slot < first.attr_loc + count {
                Some(
                    VertexAttributeInternal {
                        attr_loc: slot as GLuint,
                        offset: (first.offset + (slot - first.attr_loc) * column_bytes) as i64,
                        ..first
                    },
                )
            } else {
                layout[slot]
            },
    )
}

/// Fills the slots of one attribute: `first` describes its first column, and each further column
/// lies `column_bytes` later.
fn place_columns(
    vertex_layout: &mut Vec<Option<VertexAttributeInternal>>,
    first: VertexAttributeInternal,
    columns: usize,
    column_bytes: i32,
)
    requires
        first.attr_loc + columns <= old(vertex_layout)@.len(),
        first.attr_loc + columns <= u32::MAX,
        columns <= 4,
        0 <= column_bytes <= 64,
        first.offset + columns * column_bytes <= i64::MAX,
    ensures
        final(vertex_layout)@ == columns_placed(
            old(vertex_layout)@,
            first,
            columns as int,
            column_bytes as int,
        ),
{
    let ghost before = vertex_layout@;
    let mut offset = first.offset;
    assert(vertex_layout@ =~= columns_placed(before, first, 0, column_bytes as int));
    assert(0 * column_bytes == 0) by (nonlinear_arith);
    for i in 0..columns
        invariant
            first.attr_loc + columns <= before.len(),
            first.attr_loc + columns <= u32::MAX,
            columns <= 4,
            0 <= column_bytes <= 64,
            first.offset + columns * column_bytes <= i64::MAX,
            offset == first.offset + i * column_bytes,
            vertex_layout@ == columns_placed(before, first, i as int, column_bytes as int),
    {
        let attr_loc = first.attr_loc + i as GLuint;
        vertex_layout[attr_loc as usize] = Some(
            VertexAttributeInternal { attr_loc, offset, ..first },
        );
        proof {
            assert((i + 1) * column_bytes == i * column_bytes + column_bytes) by (nonlinear_arith);
            assert((i + 1) * column_bytes <= columns * column_bytes) by (nonlinear_arith)
                requires
                    i + 1 <= columns,
                    0 <= column_bytes,
            ;
        }
        offset += column_bytes as i64;
        assert(vertex_layout@ =~= columns_placed(before, first, i + 1, column_bytes as int));
    }
}

/// Computes the layout of a pipeline from the answers to its attribute queries.
fn build_layout(
    buffer_layout: &[BufferLayout],
    attributes: &[VertexAttribute],
    locations: &[i32],
) -> (layout: Vec<Option<VertexAttributeInternal>>)
    requires
        attributes_valid(buffer_layout@, attributes@, locations@),
    ensures
        layout@ == vertex_layout(buffer_layout@, attributes@, locations@),
{
    let ghost layouts = buffer_layout@;
    let ghost list = attributes@;
    let ghost places = locations@;
    let strides = buffer_strides(buffer_layout, attributes, Ghost(locations@));
    let attributes_len = count_slots(attributes);
    let mut offsets: Vec<i64> = Vec::new();
    for b in 0..buffer_layout.len()
        invariant
            offsets@.len() == b,
            forall|i: int| 0 <= i < b ==> offsets@[i] == 0,
    {
        offsets.push(0);
    }
    let mut vertex_layout: Vec<Option<VertexAttributeInternal>> = Vec::new();
    for slot in 0..attributes_len
        invariant
            vertex_layout@.len() == slot,
            forall|i: int| 0 <= i < slot ==> vertex_layout@[i] is None,
    {
        vertex_layout.push(None);
    }
    for k in 0..attributes.len()
        invariant
            layouts == buffer_layout@,
            list == attributes@,
            places == locations@,
            attributes_valid(layouts, list, places),
            attributes_len == slot_count(list, list.len()),
            strides@.len() == layouts.len(),
            forall|j: int|
                0 <= j < list.len() ==> strides@[(#[trigger] list[j]).buffer_index as int]
                    == vertex_stride(layouts, list, list[j].buffer_index),
            offsets@.len() == layouts.len(),
            forall|b: usize|
                b < layouts.len() ==> #[trigger] offsets@[b as int] == packed_bytes(
                    list,
                    b,
                    k as nat,
                ),
            vertex_layout@.len() == attributes_len,
            forall|slot: int|
                0 <= slot < attributes_len ==> #[trigger] vertex_layout@[slot] == slot_content(
                    layouts,
                    list,
                    places,
                    k as nat,
                    slot,
                ),
    {
        let ghost before = vertex_layout@;
        let VertexAttribute { format, buffer_index, .. } = attributes[k];
        assert(attribute_fits(layouts, list, places, k as int));
        let layout = buffer_layout[buffer_index];
        let divisor = if layout.step_func == VertexStep::PerVertex {
            0
        } else {
            layout.step_rate
        };
        let mut attributes_count: usize = 1;
        let mut slot_format = format;
        if format == VertexFormat::Mat4 {
            slot_format = VertexFormat::Float4;
            attributes_count = 4;
        }
        proof {
            lemma_packed_bytes_monotone(list, buffer_index, 0, k as nat);
            lemma_packed_bytes_monotone(list, buffer_index, (k + 1) as nat, list.len());
            assert(packed_bytes(list, buffer_index, list.len()) <= i64::MAX);
            assert(attributes_count * slot_format.bytes() == format.bytes());
            assert((attributes_len as u32) <= attributes_len) by (bit_vector);
        }
        let attr_loc = locations[k];
        if attr_loc != -1 {
            let first = VertexAttributeInternal {
                attr_loc: attr_loc as GLuint,
                size: slot_format.size(),
                type_: slot_format.type_(),
                offset: offsets[buffer_index],
                stride: strides[buffer_index],
                buffer_index,
                divisor,
            };
            assert(strides@[list[k as int].buffer_index as int] == vertex_stride(
                layouts,
                list,
                buffer_index,
            ));
            place_columns(
                &mut vertex_layout,
                first,
                attributes_count,
                slot_format.byte_len(),
            );
        }
        offsets[buffer_index] = offsets[buffer_index] + format.byte_len() as i64;
        proof {
            assert forall|slot: int| 0 <= slot < attributes_len implies
                #[trigger] vertex_layout@[slot] == slot_content(
                layouts,
                list,
                places,
                (k + 1) as nat,
                slot,
            ) by {
                assert(before[slot] == slot_content(layouts, list, places, k as nat, slot));
                assert(covers(list, places, k as int, slot) ==> slot_owner(
                    list,
                    places,
                    (k + 1) as nat,
                    slot,
                ) == Some(k as int));
            }
        }
    }
    assert(vertex_layout@ =~= self::vertex_layout(layouts, list, places));
    vertex_layout
}

proof fn lemma_packed_bytes_bound(attributes: Seq<VertexAttribute>, buffer: usize, count: nat)
    ensures
        0 <= packed_bytes(attributes, buffer, count) <= 64 * count,
    decreases count,
{
    if count > 0 {
        lemma_packed_bytes_bound(attributes, buffer, (count - 1) as nat);
    }
}

proof fn lemma_packed_bytes_unused(attributes: Seq<VertexAttribute>, buffer: usize, count: nat)
    requires
        forall|k: int| 0 <= k < count ==> attributes[k].buffer_index != buffer,
    ensures
        packed_bytes(attributes, buffer, count) == 0,
    decreases count,
{
    if count > 0 {
        lemma_packed_bytes_unused(attributes, buffer, (count - 1) as nat);
    }
}

proof fn lemma_slot_count_bound(attributes: Seq<VertexAttribute>, count: nat)
    ensures
        slot_count(attributes, count) <= 4 * count,
    decreases count,
{
    if count > 0 {
        lemma_slot_count_bound(attributes, (count - 1) as nat);
    }
}

/// Bytes that all attributes take in a buffer.
fn measure_buffer(attributes: &[VertexAttribute], buffer: usize) -> (bytes: u128)
    ensures
        bytes == packed_bytes(attributes@, buffer, attributes@.len()),
{
    let mut bytes: u128 = 0;
    for k in 0..attributes.len()
        invariant
            bytes == packed_bytes(attributes@, buffer, k as nat),
    {
        proof {
            lemma_packed_bytes_bound(attributes@, buffer, k as nat);
        }
        if attributes[k].buffer_index == buffer {
            bytes += attributes[k].format.byte_len() as u128;
        }
    }
    bytes
}

/// Slots that all attributes take.
fn measure_slots(attributes: &[VertexAttribute]) -> (count: u128)
    ensures
        count == slot_count(attributes@, attributes@.len()),
{
    let mut count: u128 = 0;
    for k in 0..attributes.len()
        invariant
            count == slot_count(attributes@, k as nat),
    {
        proof {
            lemma_slot_count_bound(attributes@, k as nat);
        }
        count += match attributes[k].format {
            VertexFormat::Mat4 => 4,
            _ => 1,
        };
    }
    count
}

/// Tells whether attribute `k` is fit for a pipeline whose attributes take `slots` slots.
fn attribute_is_fit(
    buffer_layout: &[BufferLayout],
    attributes: &[VertexAttribute],
    locations: &[i32],
    k: usize,
    slots: usize,
) -> (fit: bool)
    requires
        k < attributes@.len(),
        locations@.len() == attributes@.len(),
        slots == slot_count(attributes@, attributes@.len()),
    ensures
        fit == (attribute_fits(buffer_layout@, attributes@, locations@, k as int) && packed_bytes(
            attributes@,
            attributes@[k as int].buffer_index,
            attributes@.len(),
        ) <= i64::MAX),
{
    let attribute = attributes[k];
    if attribute.buffer_index >= buffer_layout.len() {
        return false;
    }
    let stride = buffer_layout[attribute.buffer_index].stride;
    let bytes = measure_buffer(attributes, attribute.buffer_index);
    if bytes > i64::MAX as u128 {
        return false;
    }
    if stride == 0 {
        if bytes > MAX_VERTEX_STRIDE as u128 {
            return false;
        }
    } else if stride > MAX_VERTEX_STRIDE {
        return false;
    }
    if find_nul(attribute.name).is_some() {
        return false;
    }
    let columns: u64 = match attribute.format {
        VertexFormat::Mat4 => 4,
        _ => 1,
    };
    let location = locations[k];
    location == -1 || location as GLuint as u64 + columns <= slots as u32 as u64
}

impl Pipeline {
    /// Tells whether a pipeline can be made from the given attributes.
    pub fn attributes_are_valid(
        buffer_layout: &[BufferLayout],
        attributes: &[VertexAttribute],
        locations: &[i32],
    ) -> (valid: bool)
        ensures
            valid == attributes_valid(buffer_layout@, attributes@, locations@),
    {
        let ghost list = attributes@;
        if locations.len() != attributes.len() {
            return false;
        }
        let slots = measure_slots(attributes);
        if slots > usize::MAX as u128 {
            return false;
        }
        for k in 0..attributes.len()
            invariant
                list == attributes@,
                locations@.len() == list.len(),
                slots == slot_count(list, list.len()),
                slots <= usize::MAX,
                forall|j: int|
                    0 <= j < k ==> #[trigger] attribute_fits(
                        buffer_layout@,
                        list,
                        locations@,
                        j,
                    ),
                forall|j: int|
                    0 <= j < k ==> packed_bytes(
                        list,
                        (#[trigger] list[j]).buffer_index,
                        list.len(),
                    ) <= i64::MAX,
        {
            if !attribute_is_fit(buffer_layout, attributes, locations, k, slots as usize) {
                return false;
            }
        }
        proof {
            assert forall|buffer: usize|
                #[trigger] packed_bytes(list, buffer, list.len()) <= i64::MAX by {
                if forall|k: int| 0 <= k < list.len() ==> list[k].buffer_index != buffer {
                    lemma_packed_bytes_unused(list, buffer, list.len());
                }
            }
        }
        true
    }

    /// The attribute locations that the driver has to be asked for, in order, before a pipeline
    /// is made.
    pub fn attribute_queries(
        ctx: &Context,
        attributes: &[VertexAttribute],
        shader: Shader,
    ) -> (queries: Vec<AttributeQuery>)
        requires
            shader.0 < ctx.shaders@.len(),
        ensures
            queries@.len() == attributes@.len(),
            forall|k: int|
                0 <= k < attributes@.len() ==> (#[trigger] queries@[k]).name == attributes@[k].name
                    && queries@[k].program == ctx.shaders@[shader.0 as int].program,
    {
        let program = ctx.shaders[shader.0].program;
        let mut queries: Vec<AttributeQuery> = Vec::new();
        for k in 0..attributes.len()
            invariant
                queries@.len() == k,
                forall|j: int|
                    0 <= j < k ==> (#[trigger] queries@[j]).name == attributes@[j].name
                        && queries@[j].program == program,
        {
            queries.push(AttributeQuery { program, name: attributes[k].name });
        }
        queries
    }

    /// Makes a pipeline with plain settings. `locations` answers the attribute queries.
    pub fn new(
        ctx: &mut Context,
        buffer_layout: &[BufferLayout],
        attributes: &[VertexAttribute],
        shader: Shader,
        locations: &[i32],
    ) -> (pipeline: Pipeline)
        requires
            shader.0 < old(ctx).shaders@.len(),
            attributes_valid(buffer_layout@, attributes@, locations@),
        ensures
            pipeline.0 == old(ctx).pipelines@.len(),
            final(ctx).pipelines@ == old(ctx).pipelines@.push(final(ctx).pipeline(pipeline)),
            final(ctx).pipeline(pipeline).layout@ == vertex_layout(
                buffer_layout@,
                attributes@,
                locations@,
            ),
            final(ctx).pipeline(pipeline).shader == shader,
            final(ctx).pipeline(pipeline).params == PipelineParams::plain(),
            *final(ctx) == (Context { pipelines: final(ctx).pipelines, ..*old(ctx) }),
            old(ctx).wf() ==> final(ctx).wf(),
    {
        Self::with_params(
            ctx,
            buffer_layout,
            attributes,
            shader,
            PipelineParams::default(),
            locations,
        )
    }

    /// Makes a pipeline. `locations` answers the attribute queries: `locations[k]` is where the
    /// program keeps attribute `k`, or -1.
    pub fn with_params(
        ctx: &mut Context,
        buffer_layout: &[BufferLayout],
        attributes: &[VertexAttribute],
        shader: Shader,
        params: PipelineParams,
        locations: &[i32],
    ) -> (pipeline: Pipeline)
        requires
            shader.0 < old(ctx).shaders@.len(),
            attributes_valid(buffer_layout@, attributes@, locations@),
        ensures
            pipeline.0 == old(ctx).pipelines@.len(),
            final(ctx).pipelines@ == old(ctx).pipelines@.push(final(ctx).pipeline(pipeline)),
            final(ctx).pipeline(pipeline).layout@ == vertex_layout(
                buffer_layout@,
                attributes@,
                locations@,
            ),
            final(ctx).pipeline(pipeline).shader == shader,
            final(ctx).pipeline(pipeline).params == params,
            *final(ctx) == (Context { pipelines: final(ctx).pipelines, ..*old(ctx) }),
            old(ctx).wf() ==> final(ctx).wf(),
    {
        let layout = build_layout(buffer_layout, attributes, locations);
        ctx.pipelines.push(PipelineInternal { layout, shader, params });
        Pipeline(ctx.pipelines.len() - 1)
    }
}

} // verus!
