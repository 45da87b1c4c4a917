use oes_vertex_array_object::attrib_buffers::{AttribBinding, AttribDescriptor, BufferHandle};
use oes_vertex_array_object::context::RenderingContext;
use oes_vertex_array_object::extension::OESVertexArrayObject;
use oes_vertex_array_object::protocol::{BufferId, VertexArrayId, WebGLCommand};

fn float_quad(buffer: Option<BufferHandle>) -> AttribBinding {
    AttribBinding {
        descriptor: AttribDescriptor {
            enabled_as_array: true,
            size: 4,
            normalized: false,
            stride: 0,
            offset: 0,
        },
        buffer,
    }
}

#[test]
fn create_bind_attach_unbind_rebind() {
    let mut ctx = RenderingContext::new();
    let ext = OESVertexArrayObject::new();
    let b42 = ctx.create_buffer(BufferId(42));

    let v = ext
        .CreateVertexArrayOES(&mut ctx, Ok(VertexArrayId(1)))
        .unwrap();
    assert_eq!(ctx.vertex_array(v).id(), VertexArrayId(1));
    assert!(ctx.pending_commands().is_empty());

    ext.BindVertexArrayOES(&mut ctx, Some(v));
    assert_eq!(
        ctx.take_commands(),
        vec![WebGLCommand::BindVertexArray(Some(VertexArrayId(1)))]
    );
    assert!(ctx.vertex_array(v).ever_bound());
    assert_eq!(ctx.bound_vertex_array(), Some(v));

    ctx.bind_attrib_buffer(0, float_quad(Some(b42)));
    assert!(!ctx.buffer(b42).has_vao_reference(VertexArrayId(1)));

    ext.BindVertexArrayOES(&mut ctx, None);
    assert_eq!(ctx.take_commands(), vec![WebGLCommand::BindVertexArray(None)]);
    assert!(ctx.buffer(b42).has_vao_reference(VertexArrayId(1)));
    assert_eq!(ctx.bound_vertex_array(), None);
    assert_eq!(ctx.bound_attrib_buffers().get(0), None);
    assert_eq!(
        ctx.vertex_array(v).bound_attrib_buffers().get(0),
        Some(float_quad(Some(b42)))
    );

    ext.BindVertexArrayOES(&mut ctx, Some(v));
    assert_eq!(
        ctx.bound_attrib_buffers().get(0),
        Some(float_quad(Some(b42)))
    );
    assert_eq!(
        ctx.take_commands(),
        vec![WebGLCommand::BindVertexArray(Some(VertexArrayId(1)))]
    );
    assert!(ctx.raised_errors().is_empty());
}

#[test]
fn commands_keep_the_order_of_issue() {
    let mut ctx = RenderingContext::new();
    let ext = OESVertexArrayObject::new();
    let a = ext
        .CreateVertexArrayOES(&mut ctx, Ok(VertexArrayId(7)))
        .unwrap();
    let b = ext
        .CreateVertexArrayOES(&mut ctx, Ok(VertexArrayId(9)))
        .unwrap();
    ext.BindVertexArrayOES(&mut ctx, Some(a));
    ext.BindVertexArrayOES(&mut ctx, Some(b));
    ext.DeleteVertexArrayOES(&mut ctx, Some(a));
    ext.DeleteVertexArrayOES(&mut ctx, Some(b));
    ext.BindVertexArrayOES(&mut ctx, None);
    assert_eq!(
        ctx.take_commands(),
        vec![
            WebGLCommand::BindVertexArray(Some(VertexArrayId(7))),
            WebGLCommand::BindVertexArray(Some(VertexArrayId(9))),
            WebGLCommand::DeleteVertexArray(VertexArrayId(7)),
            WebGLCommand::BindVertexArray(None),
            WebGLCommand::DeleteVertexArray(VertexArrayId(9)),
            WebGLCommand::BindVertexArray(None),
        ]
    );
    assert!(ctx.pending_commands().is_empty());
}
