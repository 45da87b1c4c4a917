use oes_vertex_array_object::attrib_buffers::{AttribBinding, AttribDescriptor, BufferHandle};
use oes_vertex_array_object::context::RenderingContext;
use oes_vertex_array_object::extension::OESVertexArrayObject;
use oes_vertex_array_object::protocol::{BufferId, VertexArrayId, WebGLCommand};

fn plain(buffer: Option<BufferHandle>) -> AttribBinding {
    AttribBinding {
        descriptor: AttribDescriptor {
            enabled_as_array: false,
            size: 1,
            normalized: true,
            stride: 0,
            offset: 0,
        },
        buffer,
    }
}

#[test]
fn deleting_nothing_does_nothing() {
    let mut ctx = RenderingContext::new();
    let ext = OESVertexArrayObject::new();
    let v = ext
        .CreateVertexArrayOES(&mut ctx, Ok(VertexArrayId(1)))
        .unwrap();
    ext.BindVertexArrayOES(&mut ctx, Some(v));
    ctx.take_commands();
    ext.DeleteVertexArrayOES(&mut ctx, None);
    assert!(ctx.pending_commands().is_empty());
    assert!(ctx.raised_errors().is_empty());
    assert_eq!(ctx.bound_vertex_array(), Some(v));
    assert!(!ctx.vertex_array(v).is_deleted());
}

#[test]
fn deleting_an_unbound_object_issues_one_command() {
    let mut ctx = RenderingContext::new();
    let ext = OESVertexArrayObject::new();
    let v = ext
        .CreateVertexArrayOES(&mut ctx, Ok(VertexArrayId(6)))
        .unwrap();
    ext.DeleteVertexArrayOES(&mut ctx, Some(v));
    assert_eq!(
        ctx.take_commands(),
        vec![WebGLCommand::DeleteVertexArray(VertexArrayId(6))]
    );
    assert!(ctx.vertex_array(v).is_deleted());
    assert!(ctx.raised_errors().is_empty());
}

#[test]
fn deleting_another_object_leaves_the_bound_one_bound() {
    let mut ctx = RenderingContext::new();
    let ext = OESVertexArrayObject::new();
    let bound = ext
        .CreateVertexArrayOES(&mut ctx, Ok(VertexArrayId(1)))
        .unwrap();
    let other = ext
        .CreateVertexArrayOES(&mut ctx, Ok(VertexArrayId(2)))
        .unwrap();
    ext.BindVertexArrayOES(&mut ctx, Some(bound));
    ctx.take_commands();
    ext.DeleteVertexArrayOES(&mut ctx, Some(other));
    assert_eq!(ctx.bound_vertex_array(), Some(bound));
    assert_eq!(
        ctx.take_commands(),
        vec![WebGLCommand::DeleteVertexArray(VertexArrayId(2))]
    );
    assert!(!ctx.vertex_array(bound).is_deleted());
}

#[test]
fn deleting_the_bound_object_unbinds_it_first() {
    let mut ctx = RenderingContext::new();
    let ext = OESVertexArrayObject::new();
    let v = ext
        .CreateVertexArrayOES(&mut ctx, Ok(VertexArrayId(9)))
        .unwrap();
    ext.BindVertexArrayOES(&mut ctx, Some(v));
    ctx.take_commands();

    ext.DeleteVertexArrayOES(&mut ctx, Some(v));

    assert_eq!(ctx.bound_vertex_array(), None);
    assert_eq!(
        ctx.take_commands(),
        vec![
            WebGLCommand::BindVertexArray(None),
            WebGLCommand::DeleteVertexArray(VertexArrayId(9)),
        ]
    );
    assert!(ctx.vertex_array(v).is_deleted());
}

#[test]
fn deleting_the_bound_object_leaves_the_current_bindings() {
    let mut ctx = RenderingContext::new();
    let ext = OESVertexArrayObject::new();
    let buffer = ctx.create_buffer(BufferId(2));
    let v = ext
        .CreateVertexArrayOES(&mut ctx, Ok(VertexArrayId(9)))
        .unwrap();
    ext.BindVertexArrayOES(&mut ctx, Some(v));
    ctx.bind_attrib_buffer(0, plain(Some(buffer)));
    ext.DeleteVertexArrayOES(&mut ctx, Some(v));
    assert_eq!(ctx.bound_attrib_buffers().get(0), Some(plain(Some(buffer))));
    // nothing was saved into the object, so nothing was registered
    assert!(ctx.vertex_array(v).bound_attrib_buffers().is_empty());
    assert!(!ctx.buffer(buffer).has_vao_reference(VertexArrayId(9)));
}

#[test]
fn deleting_twice_does_nothing_the_second_time() {
    let mut ctx = RenderingContext::new();
    let ext = OESVertexArrayObject::new();
    let buffer = ctx.create_buffer(BufferId(2));
    let v = ext
        .CreateVertexArrayOES(&mut ctx, Ok(VertexArrayId(9)))
        .unwrap();
    let other = ext
        .CreateVertexArrayOES(&mut ctx, Ok(VertexArrayId(10)))
        .unwrap();
    ext.BindVertexArrayOES(&mut ctx, Some(v));
    ctx.bind_attrib_buffer(0, plain(Some(buffer)));
    ext.BindVertexArrayOES(&mut ctx, Some(other));
    ext.DeleteVertexArrayOES(&mut ctx, Some(v));
    ctx.take_commands();

    ext.DeleteVertexArrayOES(&mut ctx, Some(v));

    assert!(ctx.pending_commands().is_empty());
    assert!(ctx.raised_errors().is_empty());
    assert_eq!(ctx.bound_vertex_array(), Some(other));
    assert!(ctx.vertex_array(v).is_deleted());
    assert!(ctx.vertex_array(v).ever_bound());
    assert_eq!(
        ctx.vertex_array(v).bound_attrib_buffers().get(0),
        Some(plain(Some(buffer)))
    );
    assert!(!ctx.buffer(buffer).has_vao_reference(VertexArrayId(9)));
    assert!(!ctx.vertex_array(other).is_deleted());
}

#[test]
fn deleting_removes_the_references_from_every_stored_buffer() {
    let mut ctx = RenderingContext::new();
    let ext = OESVertexArrayObject::new();
    let in_slot = ctx.create_buffer(BufferId(1));
    let in_two_slots = ctx.create_buffer(BufferId(2));
    let indices = ctx.create_buffer(BufferId(3));
    let elsewhere = ctx.create_buffer(BufferId(4));
    let v = ext
        .CreateVertexArrayOES(&mut ctx, Ok(VertexArrayId(9)))
        .unwrap();
    let other = ext
        .CreateVertexArrayOES(&mut ctx, Ok(VertexArrayId(10)))
        .unwrap();

    ext.BindVertexArrayOES(&mut ctx, Some(v));
    ctx.bind_attrib_buffer(0, plain(Some(in_slot)));
    ctx.bind_attrib_buffer(1, plain(Some(in_two_slots)));
    ctx.bind_attrib_buffer(2, plain(Some(in_two_slots)));
    ctx.set_bound_buffer_element_array(Some(indices));
    ext.BindVertexArrayOES(&mut ctx, Some(other));
    ctx.bind_attrib_buffer(0, plain(Some(in_slot)));
    ctx.bind_attrib_buffer(1, plain(Some(elsewhere)));
    ext.BindVertexArrayOES(&mut ctx, None);
    for buffer in [in_slot, in_two_slots, indices] {
        assert!(ctx.buffer(buffer).has_vao_reference(VertexArrayId(9)));
    }

    ext.DeleteVertexArrayOES(&mut ctx, Some(v));

    for buffer in [in_slot, in_two_slots, indices, elsewhere] {
        assert!(!ctx.buffer(buffer).has_vao_reference(VertexArrayId(9)));
    }
    // the other object's references stay
    assert!(ctx.buffer(in_slot).has_vao_reference(VertexArrayId(10)));
    assert!(ctx.buffer(elsewhere).has_vao_reference(VertexArrayId(10)));
}

#[test]
fn deleting_goes_by_the_name_of_the_bound_object() {
    let mut ctx = RenderingContext::new();
    let ext = OESVertexArrayObject::new();
    let bound = ext
        .CreateVertexArrayOES(&mut ctx, Ok(VertexArrayId(4)))
        .unwrap();
    let namesake = ext
        .CreateVertexArrayOES(&mut ctx, Ok(VertexArrayId(4)))
        .unwrap();
    ext.BindVertexArrayOES(&mut ctx, Some(bound));
    ctx.take_commands();
    ext.DeleteVertexArrayOES(&mut ctx, Some(namesake));
    assert_eq!(ctx.bound_vertex_array(), None);
    assert_eq!(
        ctx.take_commands(),
        vec![
            WebGLCommand::BindVertexArray(None),
            WebGLCommand::DeleteVertexArray(VertexArrayId(4)),
        ]
    );
    assert!(ctx.vertex_array(namesake).is_deleted());
    assert!(!ctx.vertex_array(bound).is_deleted());
}

#[test]
fn deleting_twice_leaves_the_reference_of_a_namesake() {
    let mut ctx = RenderingContext::new();
    let ext = OESVertexArrayObject::new();
    let buffer = ctx.create_buffer(BufferId(2));
    let first = ext
        .CreateVertexArrayOES(&mut ctx, Ok(VertexArrayId(1)))
        .unwrap();
    ext.BindVertexArrayOES(&mut ctx, Some(first));
    ctx.bind_attrib_buffer(0, plain(Some(buffer)));
    ext.BindVertexArrayOES(&mut ctx, None);
    ext.DeleteVertexArrayOES(&mut ctx, Some(first));
    assert!(!ctx.buffer(buffer).has_vao_reference(VertexArrayId(1)));

    // the renderer gives the free name to the next object
    let second = ext
        .CreateVertexArrayOES(&mut ctx, Ok(VertexArrayId(1)))
        .unwrap();
    ext.BindVertexArrayOES(&mut ctx, Some(second));
    ctx.bind_attrib_buffer(0, plain(Some(buffer)));
    ext.BindVertexArrayOES(&mut ctx, None);
    assert!(ctx.buffer(buffer).has_vao_reference(VertexArrayId(1)));
    ctx.take_commands();

    ext.DeleteVertexArrayOES(&mut ctx, Some(first));

    assert!(ctx.pending_commands().is_empty());
    assert!(ctx.buffer(buffer).has_vao_reference(VertexArrayId(1)));
    assert!(!ctx.vertex_array(second).is_deleted());
}
