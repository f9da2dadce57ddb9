use cac::gen_vec::GenVec;
use cac::handle;
use cac::vertex_layout::{
    AttributeKind, BufferAttributes, Components, Stride, VertexAttribute, VertexLayout,
};
use cac::Error;

fn buffer_handle() -> cac::BufferHandle {
    let mut pool: GenVec<handle::Buffer, u8> = GenVec::new();
    pool.insert(0)
}

#[test]
fn interleaved_position_and_color_take_28_bytes() {
    let mut layout = VertexLayout::new();
    layout.push_attributes([
        VertexAttribute::with_f32(0, Components::Vec3, 0),
        VertexAttribute::with_f32(1, Components::Vec4, 12),
    ]);

    assert_eq!(layout.attributes.len(), 1);
    assert_eq!(layout.attributes[0].stride(), 3 * 4 + 4 * 4);
    assert_eq!(layout.attributes[0].stride(), 28);
    assert_eq!(layout.attributes[0].checked_stride(), Some(28));
}

#[test]
fn explicit_stride_is_returned_as_given() {
    let set = BufferAttributes {
        attributes: vec![VertexAttribute::with_f32(0, Components::Vec2, 0)],
        buffer: None,
        stride: Stride::Bytes(64),
        offset: 0,
    };
    assert_eq!(set.stride(), 64);
    assert_eq!(set.checked_stride(), Some(64));
}

#[test]
fn stride_follows_the_attributes() {
    let mut set = BufferAttributes::default();
    assert_eq!(set.stride(), 0);
    set.attributes
        .push(VertexAttribute::with_f32(0, Components::Scalar, 0));
    assert_eq!(set.stride(), 4);
    set.attributes.push(VertexAttribute {
        location: 1,
        components: Components::Vec4,
        kind: AttributeKind::U8,
        normalized: true,
        local_offset: 4,
    });
    assert_eq!(set.stride(), 8);
    set.attributes.pop();
    assert_eq!(set.stride(), 4);
}

#[test]
fn components_and_sizes() {
    assert_eq!(Components::Scalar.count(), 1);
    assert_eq!(Components::Vec2.count(), 2);
    assert_eq!(Components::Vec3.count(), 3);
    assert_eq!(Components::Vec4.count(), 4);
    assert_eq!(AttributeKind::F32.size(), 4);
    assert_eq!(AttributeKind::U8.size(), 1);
}

#[test]
fn with_f32_fills_the_attribute() {
    let attribute = VertexAttribute::with_f32(3, Components::Vec2, 16);
    assert_eq!(attribute.location, 3);
    assert_eq!(attribute.components, Components::Vec2);
    assert_eq!(attribute.kind, AttributeKind::F32);
    assert!(!attribute.normalized);
    assert_eq!(attribute.local_offset, 16);
}

#[test]
fn pushed_sets_start_without_buffer() {
    let mut layout = VertexLayout::new();
    assert!(layout.attributes.is_empty());
    layout.push_attributes([VertexAttribute::with_f32(0, Components::Vec3, 0)]);
    layout.push_attributes([]);
    assert_eq!(layout.attributes.len(), 2);
    assert_eq!(layout.attributes[0].attributes.len(), 1);
    assert!(layout.attributes[0].buffer.is_none());
    assert!(layout.attributes[0].stride == Stride::Interleaved);
    assert_eq!(layout.attributes[0].offset, 0);
    assert_eq!(layout.attributes[1].attributes.len(), 0);
    assert!(Stride::default() == Stride::Interleaved);
}

#[test]
fn set_buffer_changes_the_set_it_names() {
    let mut layout = VertexLayout::new();
    layout.push_attributes([VertexAttribute::with_f32(0, Components::Vec3, 0)]);
    layout.push_attributes([VertexAttribute::with_f32(1, Components::Vec2, 0)]);
    let handle = buffer_handle();

    assert!(layout
        .set_buffer(1, handle, Stride::Bytes(32), 8)
        .is_ok());

    assert!(layout.attributes[0].buffer.is_none());
    assert!(layout.attributes[1].buffer == Some(handle));
    assert!(layout.attributes[1].stride == Stride::Bytes(32));
    assert_eq!(layout.attributes[1].offset, 8);
    assert_eq!(layout.attributes[1].attributes.len(), 1);
    assert_eq!(layout.attributes[1].stride(), 32);
}

#[test]
fn set_buffer_refuses_an_index_without_set() {
    let mut layout = VertexLayout::new();
    layout.push_attributes([VertexAttribute::with_f32(0, Components::Vec3, 0)]);
    let result = layout.set_buffer(1, buffer_handle(), Stride::Interleaved, 0);
    assert!(matches!(result, Err(Error::ResourceNotFound)));
    assert!(layout.attributes[0].buffer.is_none());
}
