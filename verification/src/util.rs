use vstd::prelude::*;

verus! {

/// The four bytes of a 32-bit word in little-endian order.
pub open spec fn le_bytes(x: u32) -> Seq<u8> {
    seq![
        (x & 0xff) as u8,
        ((x >> 8) & 0xff) as u8,
        ((x >> 16) & 0xff) as u8,
        ((x >> 24) & 0xff) as u8,
    ]
}

/// The byte sequence a contiguous array of 32-bit words occupies in
/// memory on a little-endian target: each word contributes its four
/// bytes, in element order.
pub open spec fn raw_data_spec(s: Seq<u32>) -> Seq<u8>
    decreases s.len(),
{
    if s.len() == 0 {
        Seq::empty()
    } else {
        raw_data_spec(s.drop_last()) + le_bytes(s.last())
    }
}

/// The raw form of a word array is four bytes per element.
pub proof fn lemma_raw_data_len(s: Seq<u32>)
    ensures
        raw_data_spec(s).len() == 4 * s.len(),
    decreases s.len(),
{
    if s.len() > 0 {
        lemma_raw_data_len(s.drop_last());
    }
}

/// Reinterprets an array of 32-bit words (for instance the bit patterns
/// of single-precision vertex data) as the byte sequence it occupies in
/// memory, element order and little-endian byte layout preserved.
pub fn to_raw_data(data: &Vec<u32>) -> (r: Vec<u8>)
    ensures
        r@ == raw_data_spec(data@),
        r@.len() == 4 * data@.len(),
{
    let mut r: Vec<u8> = Vec::new();
    let mut i: usize = 0;
    while i < data.len()
        invariant
            i <= data@.len(),
            r@ == raw_data_spec(data@.subrange(0, i as int)),
            r@.len() == 4 * i,
        decreases data@.len() - i,
    {
        let x: u32 = data[i];
        assert(x & 0xff <= 0xff) by (bit_vector);
        assert((x >> 8) & 0xff <= 0xff) by (bit_vector);
        assert((x >> 16) & 0xff <= 0xff) by (bit_vector);
        assert((x >> 24) & 0xff <= 0xff) by (bit_vector);
        r.push((x & 0xff) as u8);
        r.push(((x >> 8) & 0xff) as u8);
        r.push(((x >> 16) & 0xff) as u8);
        r.push(((x >> 24) & 0xff) as u8);
        i = i + 1;
        proof {
            let pre = data@.subrange(0, i - 1);
            let cur = data@.subrange(0, i as int);
            assert(cur.drop_last() =~= pre);
            assert(cur.last() == data@[i - 1]);
            assert(r@ =~= raw_data_spec(pre) + le_bytes(data@[i - 1]));
        }
    }
    proof {
        assert(data@.subrange(0, data@.len() as int) =~= data@);
        lemma_raw_data_len(data@);
    }
    r
}

/// The bit patterns of the fixed triangle vertex array: three vertices,
/// each two single-precision position coordinates followed by three
/// single-precision color channels.
pub open spec fn triangle_vertex_bits_spec() -> Seq<u32> {
    seq![
        0x3F000000u32, 0xBF000000u32, 0x3F800000u32, 0x00000000u32, 0x00000000u32,
        0xBF000000u32, 0xBF000000u32, 0x00000000u32, 0x3F800000u32, 0x00000000u32,
        0x00000000u32, 0x3F000000u32, 0x00000000u32, 0x00000000u32, 0x3F800000u32,
    ]
}

/// The fixed triangle vertex data, as the bit patterns of its fifteen
/// single-precision values: per vertex, positions (x, y) then colors
/// (r, g, b). Uploaded once to the vertex buffer and never mutated.
pub fn triangle_vertex_bits() -> (v: Vec<u32>)
    ensures
        v@ == triangle_vertex_bits_spec(),
        v@.len() == 15,
{
    let v: Vec<u32> = vec![
        0x3F000000u32, 0xBF000000u32, 0x3F800000u32, 0x00000000u32, 0x00000000u32,
        0xBF000000u32, 0xBF000000u32, 0x00000000u32, 0x3F800000u32, 0x00000000u32,
        0x00000000u32, 0x3F000000u32, 0x00000000u32, 0x00000000u32, 0x3F800000u32,
    ];
    proof {
        assert(v@ =~= triangle_vertex_bits_spec());
    }
    v
}

/// The raw form of the triangle vertex array is exactly sixty bytes:
/// three vertices of five words of four bytes each.
pub proof fn lemma_triangle_raw_len()
    ensures
        raw_data_spec(triangle_vertex_bits_spec()).len() == 60,
{
    lemma_raw_data_len(triangle_vertex_bits_spec());
}

} // verus!
