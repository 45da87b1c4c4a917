use oes_vertex_array_object::context::RenderingContext;
use oes_vertex_array_object::extension::OESVertexArrayObject;
use oes_vertex_array_object::protocol::{AllocationFailure, VertexArrayId};
use oes_vertex_array_object::vertex_array::VertexArrayHandle;

#[test]
fn created_object_is_empty_and_unflagged() {
    let mut ctx = RenderingContext::new();
    let ext = OESVertexArrayObject::new();
    let v = ext
        .CreateVertexArrayOES(&mut ctx, Ok(VertexArrayId(5)))
        .unwrap();
    let object = ctx.vertex_array(v);
    assert_eq!(object.id(), VertexArrayId(5));
    assert!(!object.is_deleted());
    assert!(!object.ever_bound());
    assert!(object.bound_attrib_buffers().is_empty());
    assert_eq!(object.bound_buffer_element_array(), None);
    assert!(object.held_buffers().is_empty());
}

#[test]
fn creation_touches_nothing_else() {
    let mut ctx = RenderingContext::new();
    let ext = OESVertexArrayObject::new();
    let v = ext
        .CreateVertexArrayOES(&mut ctx, Ok(VertexArrayId(5)))
        .unwrap();
    assert_eq!(ctx.bound_vertex_array(), None);
    assert!(ctx.pending_commands().is_empty());
    assert!(ctx.raised_errors().is_empty());
    assert!(ctx.bound_attrib_buffers().is_empty());
    assert!(ctx.has_vertex_array(v));
}

#[test]
fn failed_allocation_creates_nothing() {
    let mut ctx = RenderingContext::new();
    let ext = OESVertexArrayObject::new();
    let v = ext.CreateVertexArrayOES(&mut ctx, Err(AllocationFailure));
    assert_eq!(v, None);
    assert!(!ctx.has_vertex_array(VertexArrayHandle(0)));
    assert!(ctx.pending_commands().is_empty());
    assert!(ctx.raised_errors().is_empty());
}

#[test]
fn handles_follow_the_order_of_creation() {
    let mut ctx = RenderingContext::new();
    let ext = OESVertexArrayObject::new();
    let a = ext.CreateVertexArrayOES(&mut ctx, Ok(VertexArrayId(10)));
    let failed = ext.CreateVertexArrayOES(&mut ctx, Err(AllocationFailure));
    let b = ext.CreateVertexArrayOES(&mut ctx, Ok(VertexArrayId(11)));
    assert_eq!(a, Some(VertexArrayHandle(0)));
    assert_eq!(failed, None);
    assert_eq!(b, Some(VertexArrayHandle(1)));
    assert_eq!(ctx.vertex_array(VertexArrayHandle(0)).id(), VertexArrayId(10));
    assert_eq!(ctx.vertex_array(VertexArrayHandle(1)).id(), VertexArrayId(11));
    assert!(!ctx.has_vertex_array(VertexArrayHandle(2)));
}

#[test]
fn a_deleted_object_keeps_its_handle() {
    let mut ctx = RenderingContext::new();
    let ext = OESVertexArrayObject::new();
    let a = ext
        .CreateVertexArrayOES(&mut ctx, Ok(VertexArrayId(1)))
        .unwrap();
    ext.DeleteVertexArrayOES(&mut ctx, Some(a));
    let b = ext
        .CreateVertexArrayOES(&mut ctx, Ok(VertexArrayId(1)))
        .unwrap();
    assert_ne!(a, b);
    assert!(ctx.vertex_array(a).is_deleted());
    assert!(!ctx.vertex_array(b).is_deleted());
}
