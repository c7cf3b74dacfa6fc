use vstd::prelude::*;

verus! {

/// Number of quad records the storage buffer is allocated for.
pub const MAX_QUADS: usize = 100;

/// Size in bytes of one quad record in the storage buffer: seven 32-bit
/// words (two for position, two for size, three for color), tightly packed.
pub const QUAD_BYTES: usize = 28;

/// Size in bytes of the whole storage buffer: `MAX_QUADS` records.
pub const BUFFER_BYTES: usize = 2800;

/// One axis-aligned colored rectangle, as the shader reads it.
///
/// Each field holds the IEEE-754 bit pattern of a 32-bit float: `pos_x` /
/// `pos_y` are the anchor corner in normalized device coordinates, `size_x` /
/// `size_y` the extent in the same space, and `color_r` / `color_g` /
/// `color_b` the linear RGB fill. Keeping the bit patterns rather than the
/// floats makes the record a plain value whose byte image the library can
/// state and prove exactly; the shader reinterprets the same 32-bit words as
/// floats.
#[derive(Clone, Copy, PartialEq, Eq, Structural, Debug)]
pub struct Quad {
    pub pos_x: u32,
    pub pos_y: u32,
    pub size_x: u32,
    pub size_y: u32,
    pub color_r: u32,
    pub color_g: u32,
    pub color_b: u32,
}

/// The all-zero quad record the storage buffer is initialized with.
pub open spec fn zero_quad() -> Quad {
    Quad {
        pos_x: 0,
        pos_y: 0,
        size_x: 0,
        size_y: 0,
        color_r: 0,
        color_g: 0,
        color_b: 0,
    }
}

/// The four little-endian bytes of one 32-bit word.
pub open spec fn le_bytes(x: u32) -> Seq<u8> {
    seq![
        (x & 0xff) as u8,
        ((x >> 8) & 0xff) as u8,
        ((x >> 16) & 0xff) as u8,
        ((x >> 24) & 0xff) as u8,
    ]
}

/// The 32-bit word read back from four little-endian bytes.
pub open spec fn word_from_le(b0: u8, b1: u8, b2: u8, b3: u8) -> u32 {
    ((b0 as u32) | ((b1 as u32) << 8) | ((b2 as u32) << 16) | ((b3 as u32) << 24)) as u32
}

/// The byte image of one quad record: its seven words in field order, each
/// little-endian, with no padding.
pub open spec fn quad_le_bytes(q: Quad) -> Seq<u8> {
    le_bytes(q.pos_x) + le_bytes(q.pos_y) + le_bytes(q.size_x) + le_bytes(q.size_y)
        + le_bytes(q.color_r) + le_bytes(q.color_g) + le_bytes(q.color_b)
}

/// The quad read back from a 28-byte record image.
pub open spec fn quad_from_le_bytes(b: Seq<u8>) -> Quad
    recommends
        b.len() == QUAD_BYTES,
{
    Quad {
        pos_x: word_from_le(b[0], b[1], b[2], b[3]),
        pos_y: word_from_le(b[4], b[5], b[6], b[7]),
        size_x: word_from_le(b[8], b[9], b[10], b[11]),
        size_y: word_from_le(b[12], b[13], b[14], b[15]),
        color_r: word_from_le(b[16], b[17], b[18], b[19]),
        color_g: word_from_le(b[20], b[21], b[22], b[23]),
        color_b: word_from_le(b[24], b[25], b[26], b[27]),
    }
}

/// Splitting a word into its little-endian bytes and reassembling them gives
/// the word back.
pub proof fn lemma_word_round_trip(x: u32)
    ensures
        word_from_le(le_bytes(x)[0], le_bytes(x)[1], le_bytes(x)[2], le_bytes(x)[3]) == x,
{
    assert((((x & 0xff) as u8 as u32) | ((((x >> 8) & 0xff) as u8 as u32) << 8) | ((((x >> 16)
        & 0xff) as u8 as u32) << 16) | ((((x >> 24) & 0xff) as u8 as u32) << 24)) as u32
        == x) by (bit_vector);
}

/// A quad record written as its byte image and read back is unchanged: the
/// packed layout loses no field.
pub proof fn lemma_quad_round_trip(q: Quad)
    ensures
        quad_from_le_bytes(quad_le_bytes(q)) == q,
{
    lemma_word_round_trip(q.pos_x);
    lemma_word_round_trip(q.pos_y);
    lemma_word_round_trip(q.size_x);
    lemma_word_round_trip(q.size_y);
    lemma_word_round_trip(q.color_r);
    lemma_word_round_trip(q.color_g);
    lemma_word_round_trip(q.color_b);
}

/// The byte image of the leading quads of a scene, in order, tightly packed.
pub open spec fn quads_le_bytes(qs: Seq<Quad>) -> Seq<u8>
    decreases qs.len(),
{
    if qs.len() == 0 {
        Seq::empty()
    } else {
        quads_le_bytes(qs.drop_last()) + quad_le_bytes(qs.last())
    }
}

/// The byte image of a scene is exactly `QUAD_BYTES` per quad.
pub proof fn lemma_quads_le_bytes_len(qs: Seq<Quad>)
    ensures
        quads_le_bytes(qs).len() == qs.len() * QUAD_BYTES,
    decreases qs.len(),
{
    if qs.len() > 0 {
        lemma_quads_le_bytes_len(qs.drop_last());
    }
}

/// Within the byte image of a scene, the record of quad `i` occupies
/// exactly the bytes from `i * QUAD_BYTES` up to `(i + 1) * QUAD_BYTES`:
/// records sit back to back, in order, from offset 0.
pub proof fn lemma_record_slot(qs: Seq<Quad>, i: int)
    requires
        0 <= i < qs.len(),
    ensures
        quads_le_bytes(qs).subrange(i * QUAD_BYTES, (i + 1) * QUAD_BYTES) == quad_le_bytes(
            qs[i],
        ),
    decreases qs.len(),
{
    lemma_quads_le_bytes_len(qs);
    lemma_quads_le_bytes_len(qs.drop_last());
    if i == qs.len() - 1 {
        assert(quads_le_bytes(qs).subrange(i * QUAD_BYTES, (i + 1) * QUAD_BYTES)
            =~= quad_le_bytes(qs.last()));
    } else {
        lemma_record_slot(qs.drop_last(), i);
        assert(quads_le_bytes(qs).subrange(i * QUAD_BYTES, (i + 1) * QUAD_BYTES)
            =~= quads_le_bytes(qs.drop_last()).subrange(i * QUAD_BYTES, (i + 1) * QUAD_BYTES));
    }
}

/// Every quad of a scene can be read back unchanged from its own slot of
/// the scene's byte image: the packed upload loses no record.
pub proof fn lemma_scene_round_trip(qs: Seq<Quad>, i: int)
    requires
        0 <= i < qs.len(),
    ensures
        quad_from_le_bytes(
            quads_le_bytes(qs).subrange(i * QUAD_BYTES, (i + 1) * QUAD_BYTES),
        ) == qs[i],
{
    lemma_record_slot(qs, i);
    lemma_quad_round_trip(qs[i]);
}

/// How many quads of a scene of length `n` are uploaded: all of them while
/// the scene fits in the buffer, and the leading `MAX_QUADS` otherwise.
pub open spec fn uploaded_count(n: int) -> int {
    if n <= MAX_QUADS {
        n
    } else {
        MAX_QUADS as int
    }
}

/// A scene that fits in the buffer is uploaded whole: nothing is truncated
/// while the quad count stays within capacity.
pub proof fn lemma_upload_within_capacity(n: int)
    requires
        0 <= n <= MAX_QUADS,
    ensures
        uploaded_count(n) == n,
{
}

/// Appends the four little-endian bytes of `x` to `out`.
fn push_le_bytes(out: &mut Vec<u8>, x: u32)
    ensures
        final(out)@ == old(out)@ + le_bytes(x),
{
    out.push((x & 0xff) as u8);
    out.push(((x >> 8) & 0xff) as u8);
    out.push(((x >> 16) & 0xff) as u8);
    out.push(((x >> 24) & 0xff) as u8);
    proof {
        assert(out@ =~= old(out)@ + le_bytes(x));
    }
}

impl Quad {
    /// The all-zero record.
    pub fn zero() -> (q: Quad)
        ensures
            q == zero_quad(),
    {
        Quad {
            pos_x: 0,
            pos_y: 0,
            size_x: 0,
            size_y: 0,
            color_r: 0,
            color_g: 0,
            color_b: 0,
        }
    }

    /// The 28-byte image of this record, as the storage buffer receives it.
    pub fn to_bytes(&self) -> (b: Vec<u8>)
        ensures
            b@ == quad_le_bytes(*self),
            b@.len() == QUAD_BYTES,
    {
        let mut b: Vec<u8> = Vec::new();
        push_le_bytes(&mut b, self.pos_x);
        push_le_bytes(&mut b, self.pos_y);
        push_le_bytes(&mut b, self.size_x);
        push_le_bytes(&mut b, self.size_y);
        push_le_bytes(&mut b, self.color_r);
        push_le_bytes(&mut b, self.color_g);
        push_le_bytes(&mut b, self.color_b);
        proof {
            assert(b@ =~= quad_le_bytes(*self));
        }
        b
    }

    /// The record read back from a 28-byte image.
    pub fn from_bytes(b: &Vec<u8>) -> (q: Quad)
        requires
            b@.len() == QUAD_BYTES,
        ensures
            q == quad_from_le_bytes(b@),
    {
        Quad {
            pos_x: read_word(b, 0),
            pos_y: read_word(b, 4),
            size_x: read_word(b, 8),
            size_y: read_word(b, 12),
            color_r: read_word(b, 16),
            color_g: read_word(b, 20),
            color_b: read_word(b, 24),
        }
    }
}

/// Reads the little-endian 32-bit word at `off`.
fn read_word(b: &Vec<u8>, off: usize) -> (x: u32)
    requires
        off + 4 <= b@.len(),
    ensures
        x == word_from_le(b@[off as int], b@[off as int + 1], b@[off as int + 2], b@[off as int
            + 3]),
{
    let _len: usize = b.len();
    (b[off] as u32) | ((b[off + 1] as u32) << 8) | ((b[off + 2] as u32) << 16) | ((b[off + 3]
        as u32) << 24)
}

/// Packs the leading `uploaded_count` quads of a scene into the byte image
/// the storage buffer receives; quads beyond the buffer's capacity are
/// dropped rather than written past its end.
pub fn encode_quads(qs: &Vec<Quad>) -> (b: Vec<u8>)
    ensures
        b@ == quads_le_bytes(qs@.take(uploaded_count(qs@.len() as int))),
        b@.len() == uploaded_count(qs@.len() as int) * QUAD_BYTES,
        b@.len() <= BUFFER_BYTES,
{
    let n = if qs.len() <= MAX_QUADS {
        qs.len()
    } else {
        MAX_QUADS
    };
    let mut b: Vec<u8> = Vec::new();
    let mut i: usize = 0;
    proof {
        assert(qs@.take(0) =~= Seq::<Quad>::empty());
    }
    while i < n
        invariant
            i <= n,
            n == uploaded_count(qs@.len() as int),
            n <= qs@.len(),
            b@ == quads_le_bytes(qs@.take(i as int)),
            b@.len() == i * QUAD_BYTES,
        decreases n - i,
    {
        let mut qb = qs[i].to_bytes();
        b.append(&mut qb);
        i = i + 1;
        proof {
            assert(qs@.take(i as int).drop_last() =~= qs@.take(i as int - 1));
            assert(qs@.take(i as int).last() == qs@[i as int - 1]);
        }
    }
    proof {
        lemma_quads_le_bytes_len(qs@.take(uploaded_count(qs@.len() as int)));
    }
    b
}

} // verus!
