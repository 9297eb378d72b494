use miniquad::cache::VertexAttributeInternal;
use miniquad::context::Context;
use miniquad::shader::ShaderInternal;
use miniquad::types::{
    BufferLayout, Pipeline, Shader, VertexAttribute, VertexFormat, VertexStep,
};

fn context() -> (Context, Shader) {
    let mut ctx = Context::new(0, 1, &mut Vec::new());
    let shader = ShaderInternal { program: 12, images: vec![], uniforms: vec![] };
    let shader = Shader::new(&mut ctx, Ok(shader)).unwrap();
    (ctx, shader)
}

fn attribute(name: &'static str, format: VertexFormat, buffer_index: usize) -> VertexAttribute {
    VertexAttribute { name, format, buffer_index }
}

fn per_instance() -> BufferLayout {
    BufferLayout { stride: 0, step_func: VertexStep::PerInstance, step_rate: 2 }
}

#[test]
fn attributes_are_packed_one_after_the_other() {
    let (mut ctx, shader) = context();
    let attributes = [
        attribute("pos", VertexFormat::Float2, 0),
        attribute("inst", VertexFormat::Float3, 1),
        attribute("uv", VertexFormat::Short2, 0),
    ];
    let layouts = [BufferLayout::default(), per_instance()];
    let locations = [1, 0, 2];
    assert!(Pipeline::attributes_are_valid(&layouts, &attributes, &locations));
    let pipeline = Pipeline::new(&mut ctx, &layouts, &attributes, shader, &locations);
    assert_eq!(pipeline, Pipeline(0));
    assert_eq!(
        ctx.pipelines[0].layout,
        vec![
            Some(VertexAttributeInternal {
                attr_loc: 0,
                size: 3,
                type_: 0x1406,
                offset: 0,
                stride: 12,
                buffer_index: 1,
                divisor: 2,
            }),
            Some(VertexAttributeInternal {
                attr_loc: 1,
                size: 2,
                type_: 0x1406,
                offset: 0,
                stride: 12,
                buffer_index: 0,
                divisor: 0,
            }),
            Some(VertexAttributeInternal {
                attr_loc: 2,
                size: 2,
                type_: 0x1403,
                offset: 8,
                stride: 12,
                buffer_index: 0,
                divisor: 0,
            }),
        ]
    );
}

#[test]
fn a_matrix_takes_four_slots() {
    let (mut ctx, shader) = context();
    let attributes = [
        attribute("pos", VertexFormat::Float3, 0),
        attribute("model", VertexFormat::Mat4, 0),
    ];
    let locations = [0, 1];
    let pipeline =
        Pipeline::new(&mut ctx, &[BufferLayout::default()], &attributes, shader, &locations);
    let layout = &ctx.pipelines[pipeline.0].layout;
    assert_eq!(layout.len(), 5);
    for column in 0..4usize {
        let slot = layout[1 + column].unwrap();
        assert_eq!(slot.attr_loc as usize, 1 + column);
        assert_eq!(slot.size, 4);
        assert_eq!(slot.offset, 12 + 16 * column as i64);
        assert_eq!(slot.stride, 76);
    }
}

#[test]
fn an_unused_attribute_leaves_its_slot_empty() {
    let (mut ctx, shader) = context();
    let attributes = [
        attribute("unused", VertexFormat::Float4, 0),
        attribute("pos", VertexFormat::Byte4, 0),
    ];
    let pipeline =
        Pipeline::new(&mut ctx, &[BufferLayout::default()], &attributes, shader, &[-1, 0]);
    let layout = &ctx.pipelines[pipeline.0].layout;
    assert_eq!(layout.len(), 2);
    // The unused attribute still takes its bytes.
    let pos = layout[0].unwrap();
    assert_eq!((pos.offset, pos.stride, pos.type_), (16, 20, 0x1401));
    assert!(layout[1].is_none());
}

#[test]
fn the_last_attribute_wins_a_shared_slot() {
    let (mut ctx, shader) = context();
    let attributes = [
        attribute("a", VertexFormat::Float1, 0),
        attribute("b", VertexFormat::Float2, 0),
    ];
    let pipeline =
        Pipeline::new(&mut ctx, &[BufferLayout::default()], &attributes, shader, &[0, 0]);
    let layout = &ctx.pipelines[pipeline.0].layout;
    assert_eq!(layout[0].unwrap().size, 2);
    assert_eq!(layout[0].unwrap().offset, 4);
    assert!(layout[1].is_none());
}

#[test]
fn a_given_stride_is_kept() {
    let (mut ctx, shader) = context();
    let layouts = [BufferLayout { stride: 32, ..BufferLayout::default() }];
    let attributes = [attribute("pos", VertexFormat::Float2, 0)];
    let pipeline = Pipeline::new(&mut ctx, &layouts, &attributes, shader, &[0]);
    assert_eq!(ctx.pipelines[pipeline.0].layout[0].unwrap().stride, 32);
    assert_eq!(ctx.pipelines[pipeline.0].layout[0].unwrap().divisor, 0);
}

#[test]
fn bad_attributes_are_told_apart() {
    let layouts = [BufferLayout::default()];
    let pos = attribute("pos", VertexFormat::Float2, 0);
    assert!(Pipeline::attributes_are_valid(&layouts, &[pos], &[0]));
    assert!(Pipeline::attributes_are_valid(&layouts, &[], &[]));
    // No such buffer.
    let stray = attribute("pos", VertexFormat::Float2, 1);
    assert!(!Pipeline::attributes_are_valid(&layouts, &[stray], &[0]));
    // A slot outside of the layout.
    assert!(!Pipeline::attributes_are_valid(&layouts, &[pos], &[1]));
    assert!(!Pipeline::attributes_are_valid(&layouts, &[pos], &[-2]));
    let model = attribute("model", VertexFormat::Mat4, 0);
    assert!(!Pipeline::attributes_are_valid(&layouts, &[model], &[1]));
    // A name that the driver cannot take.
    let torn = attribute("po\0s", VertexFormat::Float2, 0);
    assert!(!Pipeline::attributes_are_valid(&layouts, &[torn], &[0]));
    // Not one answer for each attribute.
    assert!(!Pipeline::attributes_are_valid(&layouts, &[pos], &[]));
    // A stride that some drivers do not take.
    let wide = [BufferLayout { stride: 256, ..BufferLayout::default() }];
    assert!(!Pipeline::attributes_are_valid(&wide, &[pos], &[0]));
    let four = [model, model, model, model];
    assert!(!Pipeline::attributes_are_valid(&layouts, &four, &[0, 4, 8, 12]));
    let widest = [BufferLayout { stride: 255, ..BufferLayout::default() }];
    assert!(Pipeline::attributes_are_valid(&widest, &four, &[0, 4, 8, 12]));
}

#[test]
fn attribute_queries_go_in_order() {
    let (ctx, shader) = context();
    let attributes = [
        attribute("pos", VertexFormat::Float2, 0),
        attribute("uv", VertexFormat::Float2, 0),
    ];
    let queries = Pipeline::attribute_queries(&ctx, &attributes, shader);
    assert_eq!(queries.len(), 2);
    assert_eq!((queries[0].program, queries[0].name), (12, "pos"));
    assert_eq!((queries[1].program, queries[1].name), (12, "uv"));
}
