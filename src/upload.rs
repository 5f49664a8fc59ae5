use vstd::prelude::*;

verus! {

/// One region of a buffer-to-buffer copy.
#[derive(Debug, Copy, Clone, PartialEq, Eq, Structural)]
pub struct BufferCopy {
    pub src_offset: u64,
    pub dst_offset: u64,
    pub size: u64,
}

/// `dst` after the region `c` of `src` was copied into it.
pub open spec fn copy_region(src: Seq<u8>, dst: Seq<u8>, c: BufferCopy) -> Seq<u8> {
    Seq::new(
        dst.len(),
        |i: int|
            if c.dst_offset <= i < c.dst_offset + c.size {
                src[c.src_offset + (i - c.dst_offset)]
            } else {
                dst[i]
            },
    )
}

/// The region `c` lies within a source of `src_len` bytes and a destination
/// of `dst_len` bytes.
pub open spec fn copy_fits(c: BufferCopy, src_len: int, dst_len: int) -> bool {
    c.src_offset + c.size <= src_len && c.dst_offset + c.size <= dst_len
}

/// How a mesh is laid out in its host-visible staging buffer: the vertex
/// bytes first, the index bytes right after them.
#[derive(Debug, Copy, Clone, PartialEq, Eq, Structural)]
pub struct StagingLayout {
    pub vertex_size: u64,
    pub index_size: u64,
}

impl StagingLayout {
    /// The staging buffer's size fits in 64 bits.
    pub open spec fn valid(self) -> bool {
        self.vertex_size + self.index_size <= u64::MAX
    }

    /// Lays out `vertex_size` vertex bytes and `index_size` index bytes, if
    /// their sum fits in 64 bits.
    pub fn new(vertex_size: u64, index_size: u64) -> (r: Option<StagingLayout>)
        ensures
            r is Some <==> vertex_size + index_size <= u64::MAX,
            r is Some ==> r->Some_0 == (StagingLayout { vertex_size, index_size }),
    {
        if vertex_size <= u64::MAX - index_size {
            Some(StagingLayout { vertex_size, index_size })
        } else {
            None
        }
    }

    /// The size of the staging buffer.
    pub fn total_size(&self) -> (r: u64)
        requires
            self.valid(),
        ensures
            r == self.vertex_size + self.index_size,
    {
        self.vertex_size + self.index_size
    }

    /// The copy from the staging buffer into the device-local vertex buffer.
    pub fn vertex_upload(&self) -> (r: BufferCopy)
        ensures
            r == (BufferCopy { src_offset: 0, dst_offset: 0, size: self.vertex_size }),
    {
        BufferCopy { src_offset: 0, dst_offset: 0, size: self.vertex_size }
    }

    /// The copy from the staging buffer into the device-local index buffer.
    pub fn index_upload(&self) -> (r: BufferCopy)
        ensures
            r == (BufferCopy { src_offset: self.vertex_size, dst_offset: 0, size: self.index_size }),
    {
        BufferCopy { src_offset: self.vertex_size, dst_offset: 0, size: self.index_size }
    }

    /// The copy that reads the device-local vertex buffer back into a
    /// staging buffer of this layout.
    pub fn vertex_readback(&self) -> (r: BufferCopy)
        ensures
            r == (BufferCopy { src_offset: 0, dst_offset: 0, size: self.vertex_size }),
    {
        BufferCopy { src_offset: 0, dst_offset: 0, size: self.vertex_size }
    }

    /// The copy that reads the device-local index buffer back into a staging
    /// buffer of this layout.
    pub fn index_readback(&self) -> (r: BufferCopy)
        ensures
            r == (BufferCopy { src_offset: 0, dst_offset: self.vertex_size, size: self.index_size }),
    {
        BufferCopy { src_offset: 0, dst_offset: self.vertex_size, size: self.index_size }
    }
}

/// The staging buffer's contents: the vertex bytes, then the index bytes.
pub fn pack_staging(vertex_bytes: &Vec<u8>, index_bytes: &Vec<u8>) -> (r: Vec<u8>)
    requires
        vertex_bytes@.len() + index_bytes@.len() <= usize::MAX,
    ensures
        r@ == vertex_bytes@ + index_bytes@,
{
    let mut out: Vec<u8> = Vec::with_capacity(vertex_bytes.len() + index_bytes.len());
    let mut i: usize = 0;
    while i < vertex_bytes.len()
        invariant
            i <= vertex_bytes@.len(),
            out@ == vertex_bytes@.subrange(0, i as int),
        decreases vertex_bytes@.len() - i,
    {
        out.push(vertex_bytes[i]);
        i = i + 1;
        assert(out@ =~= vertex_bytes@.subrange(0, i as int));
    }
    let mut j: usize = 0;
    while j < index_bytes.len()
        invariant
            j <= index_bytes@.len(),
            out@ == vertex_bytes@ + index_bytes@.subrange(0, j as int),
        decreases index_bytes@.len() - j,
    {
        out.push(index_bytes[j]);
        j = j + 1;
        assert(out@ =~= vertex_bytes@ + index_bytes@.subrange(0, j as int));
    }
    assert(index_bytes@.subrange(0, index_bytes@.len() as int) =~= index_bytes@);
    out
}

/// Copies region `c` of `src` into `dst`, as the device does for a
/// buffer-to-buffer copy.
pub fn apply_copy(src: &Vec<u8>, dst: &mut Vec<u8>, c: BufferCopy)
    requires
        copy_fits(c, src@.len() as int, old(dst)@.len() as int),
    ensures
        final(dst)@ == copy_region(src@, old(dst)@, c),
{
    let src_len = src.len();
    let dst_len = dst.len();
    assert(c.size <= src_len && c.src_offset <= src_len && c.dst_offset <= dst_len);
    let n = c.size as usize;
    let so = c.src_offset as usize;
    let d0 = c.dst_offset as usize;
    let mut k: usize = 0;
    while k < n
        invariant
            n == c.size,
            so == c.src_offset,
            d0 == c.dst_offset,
            k <= n,
            src_len == src@.len(),
            dst_len == old(dst)@.len(),
            copy_fits(c, src@.len() as int, old(dst)@.len() as int),
            dst@.len() == old(dst)@.len(),
            forall|i: int| 0 <= i < dst@.len() ==> #[trigger] dst@[i] == (
                if d0 <= i < d0 + k { src@[so + (i - d0)] } else { old(dst)@[i] }
            ),
        decreases n - k,
    {
        dst.set(d0 + k, src[so + k]);
        k = k + 1;
    }
    assert(dst@ =~= copy_region(src@, old(dst)@, c));
}

/// Splits a staging buffer of `layout` into its vertex bytes and its index bytes.
pub fn split_staging(staging: &Vec<u8>, layout: StagingLayout) -> (r: (Vec<u8>, Vec<u8>))
    requires
        layout.valid(),
        staging@.len() == layout.vertex_size + layout.index_size,
    ensures
        r.0@ == staging@.subrange(0, layout.vertex_size as int),
        r.1@ == staging@.subrange(layout.vertex_size as int, staging@.len() as int),
{
    let staging_len = staging.len();
    assert(layout.vertex_size <= staging_len);
    let v = layout.vertex_size as usize;
    let mut head: Vec<u8> = Vec::new();
    let mut tail: Vec<u8> = Vec::new();
    let mut i: usize = 0;
    while i < staging.len()
        invariant
            v == layout.vertex_size,
            v <= staging@.len(),
            i <= staging@.len(),
            i <= v ==> head@ == staging@.subrange(0, i as int) && tail@.len() == 0,
            i > v ==> head@ == staging@.subrange(0, v as int)
                && tail@ == staging@.subrange(v as int, i as int),
        decreases staging@.len() - i,
    {
        if i < v {
            head.push(staging[i]);
        } else {
            tail.push(staging[i]);
        }
        i = i + 1;
        assert(i <= v ==> head@ =~= staging@.subrange(0, i as int));
        assert(i > v ==> tail@ =~= staging@.subrange(v as int, i as int));
    }
    if staging.len() == v {
        assert(tail@ =~= staging@.subrange(v as int, staging@.len() as int));
    }
    (head, tail)
}

/// Uploading a mesh through the staging buffer and reading the device-local
/// buffers back through a second staging buffer gives back the exact vertex
/// and index bytes, whatever the buffers held before.
pub proof fn lemma_upload_round_trip(
    vertex_bytes: Seq<u8>,
    index_bytes: Seq<u8>,
    vertex_buffer: Seq<u8>,
    index_buffer: Seq<u8>,
    readback: Seq<u8>,
)
    requires
        vertex_bytes.len() + index_bytes.len() <= u64::MAX,
        vertex_buffer.len() == vertex_bytes.len(),
        index_buffer.len() == index_bytes.len(),
        readback.len() == vertex_bytes.len() + index_bytes.len(),
    ensures
        ({
            let layout = StagingLayout { vertex_size: vertex_bytes.len() as u64, index_size: index_bytes.len() as u64 };
            let up = vertex_upload_of(layout);
            let ui = index_upload_of(layout);
            let rv = vertex_readback_of(layout);
            let ri = index_readback_of(layout);
            let staging = vertex_bytes + index_bytes;
            let vb = copy_region(staging, vertex_buffer, up);
            let ib = copy_region(staging, index_buffer, ui);
            let back = copy_region(ib, copy_region(vb, readback, rv), ri);
            &&& copy_fits(up, staging.len() as int, vertex_buffer.len() as int)
            &&& copy_fits(ui, staging.len() as int, index_buffer.len() as int)
            &&& copy_fits(rv, vb.len() as int, readback.len() as int)
            &&& copy_fits(ri, ib.len() as int, readback.len() as int)
            &&& vb == vertex_bytes
            &&& ib == index_bytes
            &&& back == staging
            &&& back.subrange(0, vertex_bytes.len() as int) == vertex_bytes
            &&& back.subrange(vertex_bytes.len() as int, back.len() as int) == index_bytes
        }),
{
    let layout = StagingLayout { vertex_size: vertex_bytes.len() as u64, index_size: index_bytes.len() as u64 };
    let staging = vertex_bytes + index_bytes;
    let vb = copy_region(staging, vertex_buffer, vertex_upload_of(layout));
    let ib = copy_region(staging, index_buffer, index_upload_of(layout));
    assert(vb =~= vertex_bytes);
    assert(ib =~= index_bytes);
    let back = copy_region(ib, copy_region(vb, readback, vertex_readback_of(layout)), index_readback_of(layout));
    assert(back =~= staging);
    assert(back.subrange(0, vertex_bytes.len() as int) =~= vertex_bytes);
    assert(back.subrange(vertex_bytes.len() as int, back.len() as int) =~= index_bytes);
}

/// The copy into the vertex buffer, as a value.
pub open spec fn vertex_upload_of(l: StagingLayout) -> BufferCopy {
    BufferCopy { src_offset: 0, dst_offset: 0, size: l.vertex_size }
}

/// The copy into the index buffer, as a value.
pub open spec fn index_upload_of(l: StagingLayout) -> BufferCopy {
    BufferCopy { src_offset: l.vertex_size, dst_offset: 0, size: l.index_size }
}

/// The read-back copy of the vertex buffer, as a value.
pub open spec fn vertex_readback_of(l: StagingLayout) -> BufferCopy {
    BufferCopy { src_offset: 0, dst_offset: 0, size: l.vertex_size }
}

/// The read-back copy of the index buffer, as a value.
pub open spec fn index_readback_of(l: StagingLayout) -> BufferCopy {
    BufferCopy { src_offset: 0, dst_offset: l.vertex_size, size: l.index_size }
}

} // verus!
