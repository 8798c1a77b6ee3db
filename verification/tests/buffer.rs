use simple2d::circle_program::Vertex;
use simple2d::vbo::AllocCmd;
use simple2d::vbo::Buffer;
use simple2d::vbo::BufferError;
use simple2d::vbo::UploadCmd;

fn vert(x: f32, y: f32, alpha: f32) -> Vertex {
    Vertex { x: x.to_bits(), y: y.to_bits(), alpha: alpha.to_bits() }
}

#[test]
fn create_vbo_fills_host_and_gpu() {
    let fill = vert(1.5, -2.0, 0.5);
    let (b, cmd) = Buffer::create_vbo(9, 4, fill);
    assert_eq!(cmd, AllocCmd { vbo: 9, elem_count: 4 });
    assert_eq!(b.get_id(), 9);
    assert_eq!(b.get_num_verticies(), 4);
    assert_eq!(b.get_gpu_len(), 4);
}

#[test]
fn resize_then_matching_update_succeeds() {
    let (mut b, _) = Buffer::create_vbo(3, 2, Vertex::default());
    let alloc = b.re_generate_buffer(5, Vertex::default());
    assert_eq!(alloc, AllocCmd { vbo: 3, elem_count: 5 });
    assert_eq!(b.get_num_verticies(), 5);
    let up = b.update();
    assert_eq!(up, Ok(UploadCmd { vbo: 3, elem_count: 5 }));
    assert_eq!(b.get_num_verticies(), 5);
}

#[test]
fn update_with_diverged_length_is_rejected() {
    let (mut b, _) = Buffer::create_vbo(3, 5, Vertex::default());
    b.get_verts_mut().push(vert(1.0, 2.0, 1.0));
    let up = b.update();
    assert_eq!(up, Err(BufferError::LengthMismatch { host_len: 6, gpu_len: 5 }));
    b.get_verts_mut().truncate(2);
    let up = b.update();
    assert_eq!(up, Err(BufferError::LengthMismatch { host_len: 2, gpu_len: 5 }));
}

#[test]
fn regenerate_keeps_prefix_and_fills_tail() {
    let (mut b, _) = Buffer::create_vbo(1, 2, vert(1.0, 1.0, 1.0));
    b.get_verts_mut()[1] = vert(4.0, 5.0, 6.0);
    b.re_generate_buffer(4, vert(9.0, 9.0, 9.0));
    let verts = b.get_verts_mut().clone();
    assert_eq!(verts[0], vert(1.0, 1.0, 1.0));
    assert_eq!(verts[1], vert(4.0, 5.0, 6.0));
    assert_eq!(verts[2], vert(9.0, 9.0, 9.0));
    assert_eq!(verts[3], vert(9.0, 9.0, 9.0));
}

#[test]
fn regenerate_truncates_when_shrinking() {
    let (mut b, _) = Buffer::create_vbo(1, 4, vert(2.0, 2.0, 2.0));
    b.re_generate_buffer(1, Vertex::default());
    assert_eq!(b.get_num_verticies(), 1);
    assert_eq!(b.get_gpu_len(), 1);
    assert_eq!(b.get_verts_mut()[0], vert(2.0, 2.0, 2.0));
    let up = b.update();
    assert_eq!(up, Ok(UploadCmd { vbo: 1, elem_count: 1 }));
}

#[test]
fn writing_in_place_keeps_update_valid() {
    let (mut b, _) = Buffer::create_vbo(2, 3, Vertex::default());
    let verts = b.get_verts_mut();
    verts[0] = vert(0.5, 0.25, 1.0);
    verts[2] = vert(-1.0, 3.0, 0.0);
    let up = b.update();
    assert_eq!(up, Ok(UploadCmd { vbo: 2, elem_count: 3 }));
}

#[test]
fn delete_releases_the_buffer_object() {
    let (b, _) = Buffer::create_vbo(12, 3, Vertex::default());
    let del = b.delete();
    assert_eq!(del.vbo, 12);
}

#[test]
fn default_vertex_is_all_zero() {
    let v = Vertex::default();
    assert_eq!(v, vert(0.0, 0.0, 0.0));
}
