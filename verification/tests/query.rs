use oes_vertex_array_object::context::RenderingContext;
use oes_vertex_array_object::extension::OESVertexArrayObject;
use oes_vertex_array_object::protocol::{BufferId, VertexArrayId};
use oes_vertex_array_object::vertex_array::VertexArrayHandle;

#[test]
fn absent_target_is_no_vertex_array() {
    let ctx = RenderingContext::new();
    let ext = OESVertexArrayObject::new();
    assert!(!ext.IsVertexArrayOES(&ctx, None));
}

#[test]
fn unknown_handle_is_no_vertex_array() {
    let mut ctx = RenderingContext::new();
    let ext = OESVertexArrayObject::new();
    ext.CreateVertexArrayOES(&mut ctx, Ok(VertexArrayId(1)));
    assert!(!ext.IsVertexArrayOES(&ctx, Some(VertexArrayHandle(1))));
    assert!(!ext.IsVertexArrayOES(&ctx, Some(VertexArrayHandle(usize::MAX))));
}

#[test]
fn never_bound_object_is_no_vertex_array() {
    let mut ctx = RenderingContext::new();
    let ext = OESVertexArrayObject::new();
    let v = ext
        .CreateVertexArrayOES(&mut ctx, Ok(VertexArrayId(1)))
        .unwrap();
    assert!(!ext.IsVertexArrayOES(&ctx, Some(v)));
}

#[test]
fn never_bound_object_stays_no_vertex_array_while_others_are_used() {
    let mut ctx = RenderingContext::new();
    let ext = OESVertexArrayObject::new();
    let v = ext
        .CreateVertexArrayOES(&mut ctx, Ok(VertexArrayId(1)))
        .unwrap();
    let other = ext
        .CreateVertexArrayOES(&mut ctx, Ok(VertexArrayId(2)))
        .unwrap();
    let buffer = ctx.create_buffer(BufferId(3));
    ext.BindVertexArrayOES(&mut ctx, Some(other));
    assert!(!ext.IsVertexArrayOES(&ctx, Some(v)));
    ctx.set_bound_buffer_element_array(Some(buffer));
    ext.BindVertexArrayOES(&mut ctx, None);
    assert!(!ext.IsVertexArrayOES(&ctx, Some(v)));
    ext.DeleteVertexArrayOES(&mut ctx, Some(other));
    assert!(!ext.IsVertexArrayOES(&ctx, Some(v)));
    assert!(!ctx.vertex_array(v).ever_bound());
}

#[test]
fn bound_object_is_a_vertex_array() {
    let mut ctx = RenderingContext::new();
    let ext = OESVertexArrayObject::new();
    let v = ext
        .CreateVertexArrayOES(&mut ctx, Ok(VertexArrayId(1)))
        .unwrap();
    ext.BindVertexArrayOES(&mut ctx, Some(v));
    assert!(ext.IsVertexArrayOES(&ctx, Some(v)));
}

#[test]
fn object_stays_a_vertex_array_after_it_is_unbound() {
    let mut ctx = RenderingContext::new();
    let ext = OESVertexArrayObject::new();
    let v = ext
        .CreateVertexArrayOES(&mut ctx, Ok(VertexArrayId(1)))
        .unwrap();
    ext.BindVertexArrayOES(&mut ctx, Some(v));
    ext.BindVertexArrayOES(&mut ctx, None);
    assert!(ext.IsVertexArrayOES(&ctx, Some(v)));
}

#[test]
fn deleted_object_is_no_vertex_array() {
    let mut ctx = RenderingContext::new();
    let ext = OESVertexArrayObject::new();
    let v = ext
        .CreateVertexArrayOES(&mut ctx, Ok(VertexArrayId(1)))
        .unwrap();
    ext.BindVertexArrayOES(&mut ctx, Some(v));
    ext.DeleteVertexArrayOES(&mut ctx, Some(v));
    assert!(!ext.IsVertexArrayOES(&ctx, Some(v)));
    assert!(ctx.vertex_array(v).ever_bound());
}

#[test]
fn deleted_and_never_bound_object_is_no_vertex_array() {
    let mut ctx = RenderingContext::new();
    let ext = OESVertexArrayObject::new();
    let v = ext
        .CreateVertexArrayOES(&mut ctx, Ok(VertexArrayId(1)))
        .unwrap();
    ext.DeleteVertexArrayOES(&mut ctx, Some(v));
    assert!(!ext.IsVertexArrayOES(&ctx, Some(v)));
}
