//! Laws of vertex layouts: where each attribute of a pipeline lies, and what feeds each slot.
use vstd::prelude::*;

use crate::gl::GLuint;
use crate::laws::sums::{lemma_total_grows, total};
use crate::laws::values::law_nul_is_a_character;
use crate::pipeline::{
    attribute_fits, attribute_slot, attributes_valid, covers, lemma_packed_bytes_monotone,
    packed_bytes, sizes_in_range, slot_count, slot_owner, vertex_layout, vertex_stride,
    MAX_VERTEX_STRIDE,
};
use crate::types::{BufferLayout, VertexAttribute, VertexFormat, VertexStep};

verus! {

proof fn lemma_slot_owner(
    attributes: Seq<VertexAttribute>,
    locations: Seq<i32>,
    count: nat,
    slot: int,
)
    ensures
        match slot_owner(attributes, locations, count, slot) {
            Some(k) => {
                &&& 0 <= k < count
                &&& covers(attributes, locations, k, slot)
                &&& forall|j: int| k < j < count ==> !covers(attributes, locations, j, slot)
            },
            None => forall|j: int| 0 <= j < count ==> !covers(attributes, locations, j, slot),
        },
    decreases count,
{
    if count > 0 {
        lemma_slot_owner(attributes, locations, (count - 1) as nat, slot);
    }
}

/// A slot of a layout is empty exactly where no attribute that the program uses covers it. A
/// filled slot names its own location, a buffer that exists, and a stride that every driver takes.
pub proof fn law_layout_slots(
    layouts: Seq<BufferLayout>,
    attributes: Seq<VertexAttribute>,
    locations: Seq<i32>,
    slot: int,
)
    requires
        attributes_valid(layouts, attributes, locations),
        0 <= slot < vertex_layout(layouts, attributes, locations).len(),
    ensures
        vertex_layout(layouts, attributes, locations)[slot] is None <==> forall|k: int|
            0 <= k < attributes.len() ==> !covers(attributes, locations, k, slot),
        vertex_layout(layouts, attributes, locations)[slot] matches Some(fed) ==> {
            &&& fed.attr_loc == slot
            &&& fed.buffer_index < layouts.len()
            &&& fed.stride <= MAX_VERTEX_STRIDE
        },
{
    lemma_slot_owner(attributes, locations, attributes.len(), slot);
    if let Some(k) = slot_owner(attributes, locations, attributes.len(), slot) {
        assert(attribute_fits(layouts, attributes, locations, k));
        lemma_stride_exact(layouts, attributes, locations, k);
    }
}

proof fn lemma_stride_exact(
    layouts: Seq<BufferLayout>,
    attributes: Seq<VertexAttribute>,
    locations: Seq<i32>,
    k: int,
)
    requires
        attributes_valid(layouts, attributes, locations),
        0 <= k < attributes.len(),
    ensures
        i32::MIN <= vertex_stride(layouts, attributes, attributes[k].buffer_index)
            <= MAX_VERTEX_STRIDE,
{
    assert(attribute_fits(layouts, attributes, locations, k));
    lemma_packed_bytes_monotone(attributes, attributes[k].buffer_index, 0, attributes.len());
}

/// A slot is fed by the last attribute that covers it.
pub proof fn law_last_attribute_feeds(
    layouts: Seq<BufferLayout>,
    attributes: Seq<VertexAttribute>,
    locations: Seq<i32>,
    k: int,
    slot: int,
)
    requires
        attributes_valid(layouts, attributes, locations),
        0 <= k < attributes.len(),
        covers(attributes, locations, k, slot),
        forall|j: int| k < j < attributes.len() ==> !covers(attributes, locations, j, slot),
    ensures
        0 <= slot < vertex_layout(layouts, attributes, locations).len(),
        vertex_layout(layouts, attributes, locations)[slot] == Some(
            attribute_slot(
                layouts,
                attributes,
                locations,
                k,
                slot - (locations[k] as GLuint),
            ),
        ),
{
    assert(attribute_fits(layouts, attributes, locations, k));
    let slots = slot_count(attributes, attributes.len()) as usize;
    assert((slots as u32) <= slots) by (bit_vector);
    lemma_slot_owner(attributes, locations, attributes.len(), slot);
}

/// Where the driver gives every attribute slots of its own, each column of each attribute that
/// the program uses is in the layout, at the attribute's place in its buffer.
pub proof fn law_distinct_attributes_all_fed(
    layouts: Seq<BufferLayout>,
    attributes: Seq<VertexAttribute>,
    locations: Seq<i32>,
    k: int,
    column: int,
)
    requires
        attributes_valid(layouts, attributes, locations),
        forall|i: int, j: int, slot: int|
            0 <= i < j < attributes.len() && covers(attributes, locations, i, slot) ==> !covers(
                attributes,
                locations,
                j,
                slot,
            ),
        0 <= k < attributes.len(),
        locations[k] != -1,
        0 <= column < attributes[k].format.slots(),
    ensures
        ({
            let slot = (locations[k] as GLuint) + column;
            let buffer = attributes[k].buffer_index;
            &&& 0 <= slot < vertex_layout(layouts, attributes, locations).len()
            &&& vertex_layout(layouts, attributes, locations)[slot] matches Some(fed)
            &&& fed.attr_loc == slot
            &&& fed.size == attributes[k].format.slot_format().components()
            &&& fed.type_ == attributes[k].format.slot_format().component_type()
            &&& fed.buffer_index == buffer
            &&& fed.stride == vertex_stride(layouts, attributes, buffer)
            &&& fed.offset == packed_bytes(attributes, buffer, k as nat) + column
                * attributes[k].format.slot_format().bytes()
        }),
{
    let slot = (locations[k] as GLuint) + column;
    assert(covers(attributes, locations, k, slot));
    law_last_attribute_feeds(layouts, attributes, locations, k, slot);
    law_columns_within_vertex(layouts, attributes, k, column);
    lemma_stride_exact(layouts, attributes, locations, k);
    law_layout_slots(layouts, attributes, locations, slot);
    assert(attribute_fits(layouts, attributes, locations, k));
}

/// The columns of an attribute lie between the start of the attribute and its end, which lies
/// within what the attributes of the buffer take together. So where a buffer layout leaves the
/// stride open, no attribute reaches into the next vertex.
pub proof fn law_columns_within_vertex(
    layouts: Seq<BufferLayout>,
    attributes: Seq<VertexAttribute>,
    k: int,
    column: int,
)
    requires
        0 <= k < attributes.len(),
        0 <= column < attributes[k].format.slots(),
    ensures
        ({
            let buffer = attributes[k].buffer_index;
            let start = packed_bytes(attributes, buffer, k as nat);
            let width = attributes[k].format.slot_format().bytes();
            &&& 0 <= start <= start + column * width
            &&& start + column * width + width <= start + attributes[k].format.bytes()
            &&& start + attributes[k].format.bytes() <= packed_bytes(
                attributes,
                buffer,
                attributes.len(),
            )
            &&& layouts[buffer as int].stride == 0 ==> start + column * width + width
                <= vertex_stride(layouts, attributes, buffer)
        }),
{
    let buffer = attributes[k].buffer_index;
    let width = attributes[k].format.slot_format().bytes();
    lemma_packed_bytes_monotone(attributes, buffer, 0, k as nat);
    lemma_packed_bytes_monotone(attributes, buffer, (k + 1) as nat, attributes.len());
    assert(attributes[k].format.slots() * width == attributes[k].format.bytes());
    assert(0 <= column * width && column * width + width <= attributes[k].format.slots() * width)
        by (nonlinear_arith)
        requires
            0 <= column < attributes[k].format.slots(),
            0 <= width,
    ;
}

/// Attributes of one buffer lie one after the other, in their order and without gaps.
pub proof fn law_attributes_packed_in_order(attributes: Seq<VertexAttribute>, j: int, k: int)
    requires
        0 <= j < k < attributes.len(),
        attributes[j].buffer_index == attributes[k].buffer_index,
    ensures
        ({
            let buffer = attributes[j].buffer_index;
            let end = packed_bytes(attributes, buffer, j as nat) + attributes[j].format.bytes();
            &&& end <= packed_bytes(attributes, buffer, k as nat)
            &&& (forall|i: int| j < i < k ==> attributes[i].buffer_index != buffer) ==> end
                == packed_bytes(attributes, buffer, k as nat)
        }),
{
    let buffer = attributes[j].buffer_index;
    lemma_packed_bytes_monotone(attributes, buffer, (j + 1) as nat, k as nat);
    if forall|i: int| j < i < k ==> attributes[i].buffer_index != buffer {
        lemma_packed_bytes_gap(attributes, buffer, j + 1, k);
    }
}

proof fn lemma_packed_bytes_gap(
    attributes: Seq<VertexAttribute>,
    buffer: usize,
    from: int,
    to: int,
)
    requires
        0 <= from <= to,
        forall|i: int| from <= i < to ==> attributes[i].buffer_index != buffer,
    ensures
        packed_bytes(attributes, buffer, from as nat) == packed_bytes(
            attributes,
            buffer,
            to as nat,
        ),
    decreases to - from,
{
    if from < to {
        lemma_packed_bytes_gap(attributes, buffer, from, to - 1);
    }
}

/// How many slots a format takes.
pub open spec fn columns(attribute: VertexAttribute) -> int {
    if attribute.format == VertexFormat::Mat4 {
        4
    } else {
        1
    }
}

/// Bytes that the first `count` attributes take in a buffer: each attribute takes those of its
/// format in its own buffer.
pub open spec fn bytes_taken(
    attributes: Seq<VertexAttribute>,
    buffer: usize,
    count: nat,
) -> int {
    total(
        Seq::new(
            count,
            |j: int|
                if attributes[j].buffer_index == buffer {
                    attributes[j].format.bytes()
                } else {
                    0
                },
        ),
    )
}

/// Slots that all attributes take.
pub open spec fn slots_taken(attributes: Seq<VertexAttribute>) -> int {
    total(Seq::new(attributes.len(), |j: int| columns(attributes[j])))
}

proof fn lemma_bytes_taken(attributes: Seq<VertexAttribute>, buffer: usize, count: nat)
    ensures
        packed_bytes(attributes, buffer, count) == bytes_taken(attributes, buffer, count),
    decreases count,
{
    if count > 0 {
        lemma_bytes_taken(attributes, buffer, (count - 1) as nat);
        lemma_total_grows(
            count,
            |j: int|
                if attributes[j].buffer_index == buffer {
                    attributes[j].format.bytes()
                } else {
                    0
                },
        );
    }
}

proof fn lemma_slots_taken(attributes: Seq<VertexAttribute>, count: nat)
    ensures
        slot_count(attributes, count) == total(
            Seq::new(count, |j: int| columns(attributes[j])),
        ),
    decreases count,
{
    if count > 0 {
        lemma_slots_taken(attributes, (count - 1) as nat);
        lemma_total_grows(count, |j: int| columns(attributes[j]));
    }
}

/// A layout has one slot for each column of each attribute.
pub proof fn law_layout_size(
    layouts: Seq<BufferLayout>,
    attributes: Seq<VertexAttribute>,
    locations: Seq<i32>,
)
    ensures
        vertex_layout(layouts, attributes, locations).len() == slots_taken(attributes),
{
    lemma_slots_taken(attributes, attributes.len());
}

/// A used attribute that no later one overrides feeds its slot as it and its buffer layout say:
/// components and type of its format (a matrix goes column by column, each of four floats), its
/// own buffer, after everything that earlier attributes take there and its own earlier columns.
/// The stride is the one that the buffer layout gives, or what all attributes take in the buffer
/// where it gives none. The data advances with every vertex, or every `step_rate` instances.
pub proof fn law_slot_as_declared(
    layouts: Seq<BufferLayout>,
    attributes: Seq<VertexAttribute>,
    locations: Seq<i32>,
    k: int,
    column: int,
)
    requires
        attributes_valid(layouts, attributes, locations),
        0 <= k < attributes.len(),
        locations[k] != -1,
        0 <= column < columns(attributes[k]),
        forall|j: int|
            k < j < attributes.len() && #[trigger] locations[j] != -1 ==> !(locations[j] as GLuint
                <= locations[k] as GLuint + column < locations[j] as GLuint + columns(
                attributes[j],
            )),
    ensures
        ({
            let slot = locations[k] as GLuint + column;
            let format = attributes[k].format;
            let buffer = attributes[k].buffer_index;
            let declared = layouts[buffer as int];
            &&& 0 <= slot < vertex_layout(layouts, attributes, locations).len()
            &&& vertex_layout(layouts, attributes, locations)[slot] matches Some(fed)
            &&& fed.attr_loc == slot
            &&& fed.size == if format == VertexFormat::Mat4 {
                4
            } else {
                format.components()
            }
            &&& fed.type_ == format.component_type()
            &&& fed.buffer_index == buffer
            &&& fed.offset == bytes_taken(attributes, buffer, k as nat) + column * 16
            &&& declared.stride != 0 ==> fed.stride == declared.stride
            &&& declared.stride == 0 ==> fed.stride == bytes_taken(
                attributes,
                buffer,
                attributes.len(),
            )
            &&& declared.step_func == VertexStep::PerVertex ==> fed.divisor == 0
            &&& declared.step_func == VertexStep::PerInstance ==> fed.divisor
                == declared.step_rate
        }),
{
    let slot = locations[k] as GLuint + column;
    assert forall|j: int| k < j < attributes.len() implies !covers(
        attributes,
        locations,
        j,
        slot,
    ) by {
        assert(locations[j] == -1 || locations[j] != -1);
    }
    assert(covers(attributes, locations, k, slot));
    law_last_attribute_feeds(layouts, attributes, locations, k, slot);
    law_columns_within_vertex(layouts, attributes, k, column);
    lemma_stride_exact(layouts, attributes, locations, k);
    law_layout_slots(layouts, attributes, locations, slot);
    lemma_bytes_taken(attributes, attributes[k].buffer_index, k as nat);
    lemma_bytes_taken(attributes, attributes[k].buffer_index, attributes.len());
    assert(attribute_fits(layouts, attributes, locations, k));
    let buffer = attributes[k].buffer_index;
    assert(packed_bytes(attributes, buffer, attributes.len()) <= i64::MAX);
}

/// A slot is empty exactly where no used attribute reaches it.
pub proof fn law_slot_empty(
    layouts: Seq<BufferLayout>,
    attributes: Seq<VertexAttribute>,
    locations: Seq<i32>,
    slot: int,
)
    requires
        attributes_valid(layouts, attributes, locations),
        0 <= slot < vertex_layout(layouts, attributes, locations).len(),
    ensures
        vertex_layout(layouts, attributes, locations)[slot] is None <==> forall|k: int|
            0 <= k < attributes.len() && #[trigger] locations[k] != -1 ==> !(locations[k] as GLuint
                <= slot < locations[k] as GLuint + columns(attributes[k])),
{
    law_layout_slots(layouts, attributes, locations, slot);
    if vertex_layout(layouts, attributes, locations)[slot] is None {
        assert forall|k: int|
            0 <= k < attributes.len() && #[trigger] locations[k] != -1 implies !(
        locations[k] as GLuint <= slot < locations[k] as GLuint + columns(attributes[k])) by {
            assert(!covers(attributes, locations, k, slot));
        }
    } else {
        lemma_slot_owner(attributes, locations, attributes.len(), slot);
        let k = slot_owner(attributes, locations, attributes.len(), slot)->0;
        assert(covers(attributes, locations, k, slot));
        assert(locations[k] != -1);
    }
}

/// Exactly these attributes make a pipeline: one location for each, a buffer layout for each,
/// vertices of no more than 255 bytes, names without a zero character, every used slot within
/// the layout; and sizes that the machine can count.
pub proof fn law_which_attributes_are_valid(
    layouts: Seq<BufferLayout>,
    attributes: Seq<VertexAttribute>,
    locations: Seq<i32>,
)
    requires
        slots_taken(attributes) <= usize::MAX,
        forall|buffer: usize|
            #[trigger] bytes_taken(attributes, buffer, attributes.len()) <= i64::MAX,
    ensures
        attributes_valid(layouts, attributes, locations) <==> {
            &&& locations.len() == attributes.len()
            &&& forall|k: int|
                #![trigger attributes[k]]
                #![trigger locations[k]]
                0 <= k < attributes.len() ==> {
                    let buffer = attributes[k].buffer_index;
                    &&& buffer < layouts.len()
                    &&& layouts[buffer as int].stride <= 255
                    &&& layouts[buffer as int].stride == 0 ==> bytes_taken(
                        attributes,
                        buffer,
                        attributes.len(),
                    ) <= 255
                    &&& !attributes[k].name@.contains('\0')
                    &&& locations[k] == -1 || locations[k] as GLuint + columns(attributes[k])
                        <= slots_taken(attributes) as u32
                }
        },
{
    lemma_slots_taken(attributes, attributes.len());
    assert forall|buffer: usize|
        #[trigger] packed_bytes(attributes, buffer, attributes.len()) <= i64::MAX by {
        lemma_bytes_taken(attributes, buffer, attributes.len());
        assert(bytes_taken(attributes, buffer, attributes.len()) <= i64::MAX);
    }
    assert(slot_count(attributes, attributes.len()) == slots_taken(attributes));
    assert(sizes_in_range(attributes));
    assert forall|k: int| 0 <= k < attributes.len() implies (#[trigger] attribute_fits(
        layouts,
        attributes,
        locations,
        k,
    ) <==> {
        let buffer = attributes[k].buffer_index;
        &&& buffer < layouts.len()
        &&& layouts[buffer as int].stride <= 255
        &&& layouts[buffer as int].stride == 0 ==> bytes_taken(
            attributes,
            buffer,
            attributes.len(),
        ) <= 255
        &&& !attributes[k].name@.contains('\0')
        &&& locations[k] == -1 || locations[k] as GLuint + columns(attributes[k])
            <= slots_taken(attributes) as u32
    }) by {
        lemma_bytes_taken(attributes, attributes[k].buffer_index, attributes.len());
        law_nul_is_a_character(attributes[k].name@);
    }
    if attributes_valid(layouts, attributes, locations) {
        assert forall|k: int|
            #![trigger attributes[k]]
            #![trigger locations[k]]
            0 <= k < attributes.len() implies {
            let buffer = attributes[k].buffer_index;
            &&& buffer < layouts.len()
            &&& layouts[buffer as int].stride <= 255
            &&& layouts[buffer as int].stride == 0 ==> bytes_taken(
                attributes,
                buffer,
                attributes.len(),
            ) <= 255
            &&& !attributes[k].name@.contains('\0')
            &&& locations[k] == -1 || locations[k] as GLuint + columns(attributes[k])
                <= slots_taken(attributes) as u32
        } by {
            assert(attribute_fits(layouts, attributes, locations, k));
        }
    }
}

} // verus!
