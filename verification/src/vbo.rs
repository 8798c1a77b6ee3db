//! A vertex buffer: an ordered sequence of vertices mirrored between a host
//! copy and a GPU buffer object.
//!
//! The buffer tracks how many elements its GPU allocation holds. The host
//! copy and the allocation agree after every (re)allocation; an upload is
//! rejected when they have drifted apart, instead of writing out of bounds.

use vstd::prelude::*;

verus! {

/// A GPU allocation: create (or replace) the data store of buffer object
/// `vbo` with room for `elem_count` vertices, and copy the host vertices
/// into it.
#[derive(Clone, Copy, Debug, PartialEq, Eq, Structural)]
pub struct AllocCmd {
    pub vbo: u32,
    pub elem_count: usize,
}

/// A GPU upload: copy the first `elem_count` host vertices into the existing
/// data store of buffer object `vbo`, starting at its first byte.
#[derive(Clone, Copy, Debug, PartialEq, Eq, Structural)]
pub struct UploadCmd {
    pub vbo: u32,
    pub elem_count: usize,
}

/// A GPU release: delete buffer object `vbo`. Consuming the buffer yields
/// exactly one of these, so the object is released exactly once and cannot
/// be used afterwards.
#[derive(Clone, Copy, Debug, PartialEq, Eq, Structural)]
pub struct DeleteBufferCmd {
    pub vbo: u32,
}

/// The error of an upload whose host copy no longer matches the GPU
/// allocation: copying `host_len` elements into room for `gpu_len` would
/// write out of bounds (or leave stale data behind).
#[derive(Clone, Copy, Debug, PartialEq, Eq, Structural)]
pub enum BufferError {
    LengthMismatch { host_len: usize, gpu_len: usize },
}

/// A vertex buffer: the host copy of the vertices, the id of the GPU buffer
/// object, and the element count of the GPU allocation.
#[derive(Clone, Debug)]
pub struct Buffer<V> {
    vbo: u32,
    buffer: Vec<V>,
    gpu_len: usize,
}

impl<V> View for Buffer<V> {
    type V = Seq<V>;

    closed spec fn view(&self) -> Seq<V> {
        self.buffer@
    }
}

/// `s` resized to `n` elements: truncated, or extended with `fill`.
pub open spec fn resized<V>(s: Seq<V>, n: nat, fill: V) -> Seq<V> {
    if n <= s.len() {
        s.subrange(0, n as int)
    } else {
        s + Seq::new((n - s.len()) as nat, |i: int| fill)
    }
}

/// Law: a resize to `n` leaves exactly `n` elements, whatever the old
/// contents were: the old prefix up to `n`, then copies of `fill`. In
/// particular the host copy and the GPU allocation agree again after any
/// resize, so an upload that directly follows a resize is always accepted.
pub proof fn lemma_resized_len<V>(s: Seq<V>, n: nat, fill: V)
    ensures
        resized(s, n, fill).len() == n,
        forall|i: int| 0 <= i < n && i < s.len() ==> resized(s, n, fill)[i] == s[i],
        forall|i: int| s.len() <= i < n ==> resized(s, n, fill)[i] == fill,
{
}

impl<V> Buffer<V> {
    /// The id of the GPU buffer object.
    pub closed spec fn spec_id(&self) -> u32 {
        self.vbo
    }

    /// How many elements the GPU allocation holds.
    pub closed spec fn gpu_elems(&self) -> nat {
        self.gpu_len as nat
    }

    pub fn get_id(&self) -> (r: u32)
        ensures
            r == self.spec_id(),
    {
        self.vbo
    }

    /// The length of the host copy.
    pub fn get_num_verticies(&self) -> (r: usize)
        ensures
            r == self@.len(),
    {
        self.buffer.len()
    }

    /// The element count of the GPU allocation.
    pub fn get_gpu_len(&self) -> (r: usize)
        ensures
            r == self.gpu_elems(),
    {
        self.gpu_len
    }

    /// The host copy, to be written in place. Growing or shrinking it makes
    /// the next `update` fail until `re_generate_buffer` is called.
    pub fn get_verts_mut(&mut self) -> (r: &mut Vec<V>)
        ensures
            (*r)@ == old(self)@,
            final(self)@ == (*final(r))@,
            final(self).spec_id() == old(self).spec_id(),
            final(self).gpu_elems() == old(self).gpu_elems(),
    {
        &mut self.buffer
    }

    /// The upload of the host copy into the GPU allocation. It succeeds if
    /// and only if the two still have the same length; nothing is changed
    /// either way.
    pub fn update(&mut self) -> (r: Result<UploadCmd, BufferError>)
        ensures
            *final(self) == *old(self),
            r is Ok <==> old(self)@.len() == old(self).gpu_elems(),
            r matches Ok(cmd) ==> cmd == (UploadCmd {
                vbo: old(self).spec_id(),
                elem_count: old(self)@.len() as usize,
            }),
            r matches Err(e) ==> e == (BufferError::LengthMismatch {
                host_len: old(self)@.len() as usize,
                gpu_len: old(self).gpu_elems() as usize,
            }),
    {
        if self.buffer.len() == self.gpu_len {
            Ok(UploadCmd { vbo: self.vbo, elem_count: self.buffer.len() })
        } else {
            Err(BufferError::LengthMismatch {
                host_len: self.buffer.len(),
                gpu_len: self.gpu_len,
            })
        }
    }

    /// Consumes the buffer and yields the release of its GPU object.
    pub fn delete(self) -> (cmd: DeleteBufferCmd)
        ensures
            cmd.vbo == self.spec_id(),
    {
        DeleteBufferCmd { vbo: self.vbo }
    }
}

impl<V: Copy> Buffer<V> {
    /// A fresh buffer over GPU buffer object `vbo`: `num_verticies` copies
    /// of `fill` on the host, and a GPU allocation of the same size (the
    /// returned command creates it).
    pub fn create_vbo(vbo: u32, num_verticies: usize, fill: V) -> (r: (Buffer<V>, AllocCmd))
        ensures
            r.0@ == Seq::new(num_verticies as nat, (|i: int| fill)),
            r.0.spec_id() == vbo,
            r.0.gpu_elems() == num_verticies,
            r.1 == (AllocCmd { vbo, elem_count: num_verticies }),
    {
        let mut buffer: Vec<V> = Vec::new();
        while buffer.len() < num_verticies
            invariant
                buffer@.len() <= num_verticies,
                forall|i: int| 0 <= i < buffer@.len() ==> buffer@[i] == fill,
            decreases num_verticies - buffer@.len(),
        {
            buffer.push(fill);
        }
        proof {
            assert(buffer@ =~= Seq::new(num_verticies as nat, |i: int| fill));
        }
        (
            Buffer { vbo, buffer, gpu_len: num_verticies },
            AllocCmd { vbo, elem_count: num_verticies },
        )
    }

    /// Resizes the host copy to `num_verticies` elements, keeping the prefix
    /// and filling new slots with `fill`, and replaces the GPU allocation to
    /// match (the returned command carries the reallocation).
    pub fn re_generate_buffer(&mut self, num_verticies: usize, fill: V) -> (cmd: AllocCmd)
        ensures
            final(self)@ == resized(old(self)@, num_verticies as nat, fill),
            final(self).spec_id() == old(self).spec_id(),
            final(self).gpu_elems() == num_verticies,
            cmd == (AllocCmd { vbo: old(self).spec_id(), elem_count: num_verticies }),
    {
        if num_verticies <= self.buffer.len() {
            self.buffer.truncate(num_verticies);
            proof {
                assert(self.buffer@ =~= resized(old(self)@, num_verticies as nat, fill));
            }
        } else {
            let ghost orig = self.buffer@;
            while self.buffer.len() < num_verticies
                invariant
                    self.vbo == old(self).vbo,
                    orig.len() <= self.buffer@.len() <= num_verticies,
                    self.buffer@.subrange(0, orig.len() as int) == orig,
                    forall|i: int| orig.len() <= i < self.buffer@.len() ==> self.buffer@[i] == fill,
                decreases num_verticies - self.buffer@.len(),
            {
                self.buffer.push(fill);
                proof {
                    assert(self.buffer@.subrange(0, orig.len() as int) =~= orig);
                }
            }
            proof {
                assert(self.buffer@ =~= resized(orig, num_verticies as nat, fill));
            }
        }
        self.gpu_len = num_verticies;
        AllocCmd { vbo: self.vbo, elem_count: num_verticies }
    }
}

} // verus!
