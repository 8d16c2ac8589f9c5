//! Planar-to-interleaved pixel repacking: three same-sized byte planes
//! become one packed buffer of consecutive 3-byte groups, one group per
//! pixel, in plane order, row-major. A pure re-layout: no value is
//! transformed.

use vstd::prelude::*;

verus! {

/// The packed buffer that three equal-length planes interleave into:
/// byte `3*i + c` of the result is byte `i` of plane `c`.
pub open spec fn pack_bytes(r: Seq<u8>, g: Seq<u8>, b: Seq<u8>) -> Seq<u8>
    recommends
        g.len() == r.len(),
        b.len() == r.len(),
{
    Seq::new(
        3 * r.len(),
        |j: int|
            if j % 3 == 0 {
                r[j / 3]
            } else if j % 3 == 1 {
                g[j / 3]
            } else {
                b[j / 3]
            },
    )
}

/// Plane `c` read back out of a packed buffer: every third byte,
/// starting at offset `c`.
pub open spec fn unpack_plane(packed: Seq<u8>, c: int) -> Seq<u8>
    recommends
        0 <= c < 3,
{
    Seq::new(packed.len() / 3, |i: int| packed[3 * i + c])
}

/// Byte group `i` of the packed buffer holds exactly the three planes'
/// bytes at pixel `i`.
pub proof fn lemma_pack_bytes_index(r: Seq<u8>, g: Seq<u8>, b: Seq<u8>, i: int)
    requires
        g.len() == r.len(),
        b.len() == r.len(),
        0 <= i < r.len(),
    ensures
        pack_bytes(r, g, b)[3 * i] == r[i],
        pack_bytes(r, g, b)[3 * i + 1] == g[i],
        pack_bytes(r, g, b)[3 * i + 2] == b[i],
{
    assert((3 * i) % 3 == 0 && (3 * i) / 3 == i && (3 * i + 1) % 3 == 1 && (3 * i + 1) / 3 == i && (
    3 * i + 2) % 3 == 2 && (3 * i + 2) / 3 == i) by (nonlinear_arith)
        requires
            0 <= i,
    ;
}

/// The re-layout is lossless: each plane is recovered exactly from the
/// packed buffer, so no two distinct plane triples pack to the same bytes.
pub proof fn lemma_pack_lossless(r: Seq<u8>, g: Seq<u8>, b: Seq<u8>)
    requires
        g.len() == r.len(),
        b.len() == r.len(),
    ensures
        unpack_plane(pack_bytes(r, g, b), 0) == r,
        unpack_plane(pack_bytes(r, g, b), 1) == g,
        unpack_plane(pack_bytes(r, g, b), 2) == b,
{
    let p = pack_bytes(r, g, b);
    assert(p.len() / 3 == r.len());
    assert forall|i: int| 0 <= i < r.len() implies unpack_plane(p, 0)[i] == r[i] && unpack_plane(
        p,
        1,
    )[i] == g[i] && unpack_plane(p, 2)[i] == b[i] by {
        lemma_pack_bytes_index(r, g, b, i);
    }
    assert(unpack_plane(p, 0) =~= r);
    assert(unpack_plane(p, 1) =~= g);
    assert(unpack_plane(p, 2) =~= b);
}

/// Interleaves the three planes of one frame into a packed pixel buffer
/// of `3 * width * height` bytes, 3-byte group `i` holding
/// `(r[i], g[i], b[i])`.
pub fn pack_rgb(r: &[u8], g: &[u8], b: &[u8], width: u32, height: u32) -> (packed: Vec<u8>)
    requires
        r@.len() == width * height,
        g@.len() == width * height,
        b@.len() == width * height,
        3 * (width as nat) * (height as nat) <= usize::MAX,
    ensures
        packed@.len() == 3 * (width as nat) * (height as nat),
        packed@ == pack_bytes(r@, g@, b@),
        forall|i: int|
            0 <= i < width * height ==> #[trigger] packed@[3 * i] == r@[i]
                && packed@[3 * i + 1] == g@[i] && packed@[3 * i + 2] == b@[i],
{
    let n: usize = r.len();
    assert(3 * (width as nat) * (height as nat) == 3 * (n as nat)) by (nonlinear_arith)
        requires
            n == width * height,
    ;
    let ghost target = pack_bytes(r@, g@, b@);
    let mut packed: Vec<u8> = Vec::new();
    let mut i: usize = 0;
    while i < n
        invariant
            i <= n,
            n == r@.len(),
            n == g@.len(),
            n == b@.len(),
            3 * (n as nat) <= usize::MAX,
            target == pack_bytes(r@, g@, b@),
            target.len() == 3 * n,
            packed@ == target.take(3 * (i as int)),
        decreases n - i,
    {
        proof {
            lemma_pack_bytes_index(r@, g@, b@, i as int);
        }
        packed.push(r[i]);
        packed.push(g[i]);
        packed.push(b[i]);
        proof {
            assert(packed@ =~= target.take(3 * (i as int) + 3));
        }
        i = i + 1;
    }
    proof {
        assert(packed@ =~= target);
        assert forall|k: int| 0 <= k < width * height implies #[trigger] packed@[3 * k] == r@[k]
            && packed@[3 * k + 1] == g@[k] && packed@[3 * k + 2] == b@[k] by {
            lemma_pack_bytes_index(r@, g@, b@, k);
        }
    }
    packed
}

} // verus!
