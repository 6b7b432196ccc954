//! How uniforms lie in memory: as words in the order of their fields, each
//! word in the byte order of the machine.

use crate::renderer::pipeline::VideoUniforms;
use crate::renderer::quad::{D3d11OverlayUniforms, OverlayUniforms};
use crate::renderer::wgpu::draw::{batch_uniforms, UniformBatch, UniformBatchError};
use crate::renderer::wgpu::readback::{aligned, lemma_aligned};
use vstd::arithmetic::div_mod::lemma_fundamental_div_mod_converse;
use vstd::arithmetic::mul::lemma_mul_inequality;
use vstd::prelude::*;

verus! {

/// The byte of `word` at `index`, counted from the low end or from the high
/// end.
pub open spec fn byte_of(word: u32, index: int, little_endian: bool) -> u8 {
    let place = if little_endian {
        index
    } else {
        3 - index
    };
    if place == 0 {
        (word % 0x100) as u8
    } else if place == 1 {
        ((word / 0x100) % 0x100) as u8
    } else if place == 2 {
        ((word / 0x1_0000) % 0x100) as u8
    } else {
        (word / 0x100_0000) as u8
    }
}

/// `bytes` are the bytes of `words` in one byte order.
pub open spec fn lays_out(bytes: Seq<u8>, words: Seq<u32>, little_endian: bool) -> bool {
    &&& bytes.len() == 4 * words.len()
    &&& forall|i: int, k: int|
        0 <= i < words.len() && 0 <= k < 4 ==> bytes[4 * i + k] == #[trigger] byte_of(
            words[i],
            k,
            little_endian,
        )
}

/// Calls `bytemuck::cast_slice`, which gives the memory of the words as bytes:
/// four for each word, all in the byte order of the machine. Which of the two
/// orders that is depends on the machine and is left open.
#[verifier::external_body]
fn word_bytes(words: &[u32]) -> (bytes: Vec<u8>)
    ensures
        exists|little_endian: bool| #[trigger] lays_out(bytes@, words@, little_endian),
{
    bytemuck::cast_slice::<u32, u8>(words).to_vec()
}

impl VideoUniforms {
    /// The words of the uniforms in memory.
    pub open spec fn layout(self) -> Seq<u32> {
        seq![
            self.is_p010,
            self.full_range,
            self.source_transfer,
            self.target_transfer,
            self.tone_map,
            self.edr_output,
            self.input_mode,
            self.scene_linear,
        ] + self.nits@ + self.luma_coefficients@ + self.gamut_matrix_rows@[0]@
            + self.gamut_matrix_rows@[1]@ + self.gamut_matrix_rows@[2]@
    }

    pub fn words(&self) -> (words: Vec<u32>)
        ensures
            words@ == self.layout(),
            words@.len() == 28,
    {
        let mut words: Vec<u32> = Vec::new();
        words.push(self.is_p010);
        words.push(self.full_range);
        words.push(self.source_transfer);
        words.push(self.target_transfer);
        words.push(self.tone_map);
        words.push(self.edr_output);
        words.push(self.input_mode);
        words.push(self.scene_linear);
        push_four(&mut words, &self.nits);
        push_four(&mut words, &self.luma_coefficients);
        push_four(&mut words, &self.gamut_matrix_rows[0]);
        push_four(&mut words, &self.gamut_matrix_rows[1]);
        push_four(&mut words, &self.gamut_matrix_rows[2]);
        assert(words@ =~= self.layout());
        words
    }

    /// The bytes that a shader reads.
    pub fn bytes(&self) -> (bytes: Vec<u8>)
        ensures
            exists|little_endian: bool| #[trigger] lays_out(bytes@, self.layout(), little_endian),
            bytes@.len() == 112,
    {
        let words: Vec<u32> = self.words();
        word_bytes(words.as_slice())
    }
}

impl OverlayUniforms {
    /// The words of the uniforms in memory.
    pub open spec fn layout(self) -> Seq<u32> {
        self.rect@ + self.tex_rect@ + self.viewport@ + seq![
            self.overlay_mode,
            self.output_encoding,
        ] + self.color@
    }

    pub fn words(&self) -> (words: Vec<u32>)
        ensures
            words@ == self.layout(),
            words@.len() == OVERLAY_WORDS,
    {
        let mut words: Vec<u32> = Vec::new();
        push_four(&mut words, &self.rect);
        push_four(&mut words, &self.tex_rect);
        words.push(self.viewport[0]);
        words.push(self.viewport[1]);
        words.push(self.overlay_mode);
        words.push(self.output_encoding);
        push_four(&mut words, &self.color);
        assert(words@ =~= self.layout());
        words
    }

    /// The bytes that a shader reads.
    pub fn bytes(&self) -> (bytes: Vec<u8>)
        ensures
            exists|little_endian: bool| #[trigger] lays_out(bytes@, self.layout(), little_endian),
            bytes@.len() == OVERLAY_BYTES,
    {
        let words: Vec<u32> = self.words();
        word_bytes(words.as_slice())
    }
}

impl D3d11OverlayUniforms {
    /// The words of the uniforms in memory.
    pub open spec fn layout(self) -> Seq<u32> {
        self.rect@ + self.tex_rect@ + self.viewport@ + seq![self.overlay_mode, self.reserved0]
            + self.color@ + self.ui_nits@
    }

    pub fn words(&self) -> (words: Vec<u32>)
        ensures
            words@ == self.layout(),
            words@.len() == 20,
    {
        let mut words: Vec<u32> = Vec::new();
        push_four(&mut words, &self.rect);
        push_four(&mut words, &self.tex_rect);
        words.push(self.viewport[0]);
        words.push(self.viewport[1]);
        words.push(self.overlay_mode);
        words.push(self.reserved0);
        push_four(&mut words, &self.color);
        push_four(&mut words, &self.ui_nits);
        assert(words@ =~= self.layout());
        words
    }

    /// The bytes that a shader reads.
    pub fn bytes(&self) -> (bytes: Vec<u8>)
        ensures
            exists|little_endian: bool| #[trigger] lays_out(bytes@, self.layout(), little_endian),
            bytes@.len() == 80,
    {
        let words: Vec<u32> = self.words();
        word_bytes(words.as_slice())
    }
}

fn push_four(words: &mut Vec<u32>, four: &[u32; 4])
    ensures
        final(words)@ == old(words)@ + four@,
{
    words.push(four[0]);
    words.push(four[1]);
    words.push(four[2]);
    words.push(four[3]);
    assert(words@ =~= old(words)@ + four@);
}

/// The words and bytes of one overlay quad.
pub const OVERLAY_WORDS: usize = 16;

pub const OVERLAY_BYTES: usize = 64;

/// The words of all quads, one after the other.
pub open spec fn joined(quads: Seq<OverlayUniforms>) -> Seq<u32> {
    Seq::new(
        quads.len() * OVERLAY_WORDS as nat,
        |i: int| quads[i / OVERLAY_WORDS as int].layout()[i % OVERLAY_WORDS as int],
    )
}

/// How far apart the quads of a buffer begin.
pub open spec fn batch_stride(alignment: u32) -> int {
    aligned(
        OVERLAY_BYTES as int,
        if alignment == 0 {
            1
        } else {
            alignment as int
        },
    )
}

/// Why quads that begin `stride` bytes apart cannot be laid out.
pub open spec fn batch_refused(error: UniformBatchError, stride: int, count: nat) -> bool {
    match error {
        UniformBatchError::SizeOverflow => stride * count > usize::MAX,
        UniformBatchError::OffsetOverflow { offset } => {
            &&& stride * count <= usize::MAX
            &&& offset > u32::MAX
            &&& offset as int % stride == 0
            &&& offset as int / stride < count
            &&& offset - stride <= u32::MAX
        },
    }
}

/// Lays out the quads of one draw call in a buffer, each beginning at a
/// multiple of `alignment`.
pub fn batch_overlays(quads: &Vec<OverlayUniforms>, alignment: u32) -> (batch: Result<
    UniformBatch,
    UniformBatchError,
>)
    requires
        OVERLAY_BYTES + alignment <= usize::MAX,
        OVERLAY_BYTES * quads@.len() <= usize::MAX,
    ensures
        batch matches Err(error) ==> batch_refused(error, batch_stride(alignment), quads@.len()),
        batch matches Ok(laid) ==> {
            &&& laid.stride == batch_stride(alignment)
            &&& laid.bytes@.len() == batch_stride(alignment) * quads@.len()
            &&& laid.offsets@.len() == quads@.len()
            &&& forall|i: int|
                0 <= i < quads@.len() ==> #[trigger] laid.offsets@[i] == i * batch_stride(alignment)
            &&& exists|little_endian: bool| #[trigger]
                holds_quads(laid.bytes@, quads@, batch_stride(alignment), little_endian)
        },
{
    let mut words: Vec<u32> = Vec::new();
    let mut i: usize = 0;
    while i < quads.len()
        invariant
            i <= quads@.len(),
            words@ == joined(quads@.take(i as int)),
        decreases quads@.len() - i,
    {
        let mut own: Vec<u32> = quads[i].words();
        let ghost before = words@;
        let ghost layout = own@;
        words.append(&mut own);
        proof {
            lemma_joined_push(quads@, i as int);
            assert(words@ =~= before + layout);
        }
        i = i + 1;
    }
    assert(quads@.take(i as int) =~= quads@);
    let bytes: Vec<u8> = word_bytes(words.as_slice());
    let ghost little = choose|little_endian: bool| #[trigger]
        lays_out(bytes@, words@, little_endian);
    let mut records: Vec<Vec<u8>> = Vec::new();
    let mut start: usize = 0;
    let mut record: usize = 0;
    let count: usize = quads.len();
    while record < count
        invariant
            count == quads@.len(),
            OVERLAY_BYTES * count <= usize::MAX,
            bytes@.len() == OVERLAY_BYTES * count,
            record <= count,
            start == OVERLAY_BYTES * record,
            records@.len() == record,
            forall|i: int|
                0 <= i < record ==> (#[trigger] records@[i])@ == bytes@.subrange(
                    OVERLAY_BYTES * i,
                    OVERLAY_BYTES * i + OVERLAY_BYTES,
                ),
        decreases count - record,
    {
        let mut own: Vec<u8> = Vec::new();
        let mut k: usize = 0;
        while k < OVERLAY_BYTES
            invariant
                k <= OVERLAY_BYTES,
                start + OVERLAY_BYTES <= bytes@.len(),
                bytes@.len() <= usize::MAX,
                own@ == bytes@.subrange(start as int, start + k),
            decreases OVERLAY_BYTES - k,
        {
            own.push(bytes[start + k]);
            k = k + 1;
            assert(own@ =~= bytes@.subrange(start as int, start + k));
        }
        records.push(own);
        start = start + OVERLAY_BYTES;
        record = record + 1;
    }
    let batch: Result<UniformBatch, UniformBatchError> = batch_uniforms(
        &records,
        OVERLAY_BYTES,
        alignment,
    );
    proof {
        let stride = batch_stride(alignment);
        lemma_aligned(
            OVERLAY_BYTES as int,
            if alignment == 0 {
                1
            } else {
                alignment as int
            },
        );
        if batch is Ok {
            let laid = batch->Ok_0;
            assert(stride * count >= 0) by (nonlinear_arith)
                requires
                    stride >= 0,
                    count >= 0,
            ;
            assert(laid.bytes@.len() == stride * count);
            assert forall|i: int, k: int, b: int|
                0 <= i < count && 0 <= k < OVERLAY_WORDS && 0 <= b < 4 implies laid.bytes@[i
                * stride + 4 * k + b] == #[trigger] byte_of(
                quads@[i].layout()[k],
                b,
                little,
            ) by {
                let place = i * stride + (4 * k + b);
                lemma_fundamental_div_mod_converse(place, stride, i, 4 * k + b);
                lemma_mul_inequality(i + 1, count as int, stride);
                assert((i + 1) * stride == i * stride + stride) by (nonlinear_arith);
                assert(stride * count == count * stride) by (nonlinear_arith);
                assert(0 <= i * stride) by (nonlinear_arith)
                    requires
                        i >= 0,
                        stride >= 0,
                ;
                assert(records@[i]@ == bytes@.subrange(
                    OVERLAY_BYTES * i,
                    OVERLAY_BYTES * i + OVERLAY_BYTES,
                ));
                let word = OVERLAY_WORDS * i + k;
                lemma_fundamental_div_mod_converse(word, OVERLAY_WORDS as int, i, k);
                assert(words@[word] == quads@[i].layout()[k]);
                assert(byte_of(words@[word], b, little) == bytes@[4 * word + b]);
            }
            assert(holds_quads(laid.bytes@, quads@, stride, little));
        }
    }
    batch
}

/// Every quad's words lie at a multiple of `stride`.
pub open spec fn holds_quads(
    bytes: Seq<u8>,
    quads: Seq<OverlayUniforms>,
    stride: int,
    little_endian: bool,
) -> bool {
    forall|i: int, k: int, b: int|
        0 <= i < quads.len() && 0 <= k < OVERLAY_WORDS && 0 <= b < 4 ==> bytes[i * stride + 4 * k
            + b] == #[trigger] byte_of(quads[i].layout()[k], b, little_endian)
}

proof fn lemma_joined_push(quads: Seq<OverlayUniforms>, i: int)
    requires
        0 <= i < quads.len(),
    ensures
        joined(quads.take(i + 1)) == joined(quads.take(i)) + quads[i].layout(),
{
    let longer = joined(quads.take(i + 1));
    let shorter = joined(quads.take(i));
    assert(quads[i].layout().len() == OVERLAY_WORDS);
    assert forall|k: int| 0 <= k < longer.len() implies #[trigger] longer[k] == (shorter
        + quads[i].layout())[k] by {
        if k >= shorter.len() {
            lemma_fundamental_div_mod_converse(
                k,
                OVERLAY_WORDS as int,
                i,
                k - OVERLAY_WORDS * i,
            );
        }
    }
    assert(longer =~= shorter + quads[i].layout());
}

/// The bytes of a word are its digits to the base of 256: counted from the low end
/// the first is the lowest, and counted from the high end the last is.
pub proof fn lemma_bytes_make_up_the_word(word: u32)
    ensures
        byte_of(word, 0, true) + 0x100 * byte_of(word, 1, true) + 0x1_0000 * byte_of(word, 2, true)
            + 0x100_0000 * byte_of(word, 3, true) == word,
        forall|i: int|
            0 <= i < 4 ==> #[trigger] byte_of(word, i, false) == byte_of(word, 3 - i, true),
{
    let low = word % 0x100;
    let next = (word / 0x100) % 0x100;
    let third = (word / 0x1_0000) % 0x100;
    let high = word / 0x100_0000;
    assert(high < 0x100);
    assert(low + 0x100 * next + 0x1_0000 * third + 0x100_0000 * high == word);
}

/// The uniforms of a video frame in the order in which the shaders read them: eight
/// numbers, the four levels, the luma weights, and the gamut matrix row by row.
pub proof fn lemma_video_uniforms_in_order(uniforms: VideoUniforms, i: int)
    requires
        0 <= i < 4,
    ensures
        ({
            let words = uniforms.layout();
            &&& words.len() == 28
            &&& words[0] == uniforms.is_p010
            &&& words[1] == uniforms.full_range
            &&& words[2] == uniforms.source_transfer
            &&& words[3] == uniforms.target_transfer
            &&& words[4] == uniforms.tone_map
            &&& words[5] == uniforms.edr_output
            &&& words[6] == uniforms.input_mode
            &&& words[7] == uniforms.scene_linear
            &&& words[8 + i] == uniforms.nits@[i]
            &&& words[12 + i] == uniforms.luma_coefficients@[i]
            &&& words[16 + i] == uniforms.gamut_matrix_rows@[0]@[i]
            &&& words[20 + i] == uniforms.gamut_matrix_rows@[1]@[i]
            &&& words[24 + i] == uniforms.gamut_matrix_rows@[2]@[i]
        }),
{
}

/// The uniforms of an overlay quad in the order in which the shaders read them: its
/// place, its texture's place, the viewport, its mode and encoding, and its colour.
/// On Direct3D the brightness of white follows.
pub proof fn lemma_overlay_uniforms_in_order(
    uniforms: OverlayUniforms,
    constants: D3d11OverlayUniforms,
    i: int,
)
    requires
        0 <= i < 4,
    ensures
        ({
            let words = uniforms.layout();
            &&& words.len() == 16
            &&& words[i] == uniforms.rect@[i]
            &&& words[4 + i] == uniforms.tex_rect@[i]
            &&& i < 2 ==> words[8 + i] == uniforms.viewport@[i]
            &&& words[10] == uniforms.overlay_mode
            &&& words[11] == uniforms.output_encoding
            &&& words[12 + i] == uniforms.color@[i]
        }),
        ({
            let words = constants.layout();
            &&& words.len() == 20
            &&& words[i] == constants.rect@[i]
            &&& words[4 + i] == constants.tex_rect@[i]
            &&& i < 2 ==> words[8 + i] == constants.viewport@[i]
            &&& words[10] == constants.overlay_mode
            &&& words[11] == constants.reserved0
            &&& words[12 + i] == constants.color@[i]
            &&& words[16 + i] == constants.ui_nits@[i]
        }),
{
    assert(uniforms.viewport@.len() == 2);
    assert(constants.viewport@.len() == 2);
}

/// The quads of a batch stand as far apart as the device demands: at the least
/// multiple of its alignment that has room for the 64 bytes of a quad.
pub proof fn lemma_quads_stand_apart_as_demanded(alignment: u32)
    requires
        alignment > 0,
    ensures
        64 <= batch_stride(alignment) < 64 + alignment,
        batch_stride(alignment) % (alignment as int) == 0,
{
    lemma_aligned(64, alignment as int);
}

/// A batch of quads holds the words of each quad one after the other, the first at a
/// multiple of the stride, each word in one byte order.
pub proof fn lemma_batch_holds_quad_after_quad(
    bytes: Seq<u8>,
    quads: Seq<OverlayUniforms>,
    stride: int,
    little_endian: bool,
    quad: int,
    i: int,
    b: int,
)
    requires
        holds_quads(bytes, quads, stride, little_endian),
        0 <= quad < quads.len(),
        0 <= i < 4,
        0 <= b < 4,
    ensures
        bytes[quad * stride + 4 * i + b] == byte_of(quads[quad].rect@[i], b, little_endian),
        bytes[quad * stride + 16 + 4 * i + b] == byte_of(
            quads[quad].tex_rect@[i],
            b,
            little_endian,
        ),
        bytes[quad * stride + 40 + b] == byte_of(quads[quad].overlay_mode, b, little_endian),
        bytes[quad * stride + 44 + b] == byte_of(quads[quad].output_encoding, b, little_endian),
        bytes[quad * stride + 48 + 4 * i + b] == byte_of(
            quads[quad].color@[i],
            b,
            little_endian,
        ),
{
    let words = quads[quad].layout();
    lemma_overlay_uniforms_in_order(
        quads[quad],
        D3d11OverlayUniforms {
            rect: quads[quad].rect,
            tex_rect: quads[quad].tex_rect,
            viewport: quads[quad].viewport,
            overlay_mode: 0,
            reserved0: 0,
            color: quads[quad].color,
            ui_nits: quads[quad].color,
        },
        i,
    );
    assert(bytes[quad * stride + 4 * i + b] == byte_of(words[i], b, little_endian));
    assert(bytes[quad * stride + 4 * (4 + i) + b] == byte_of(words[4 + i], b, little_endian));
    assert(bytes[quad * stride + 4 * 10 + b] == byte_of(words[10], b, little_endian));
    assert(bytes[quad * stride + 4 * 11 + b] == byte_of(words[11], b, little_endian));
    assert(bytes[quad * stride + 4 * (12 + i) + b] == byte_of(words[12 + i], b, little_endian));
}

/// A batch is refused where it is larger than memory, and else for the first quad that
/// stands beyond what an offset can say.
pub proof fn lemma_batches_are_refused_for_their_size(
    error: UniformBatchError,
    stride: int,
    count: nat,
)
    requires
        batch_refused(error, stride, count),
        stride > 0,
    ensures
        error is SizeOverflow ==> stride * count > usize::MAX,
        error matches UniformBatchError::OffsetOverflow { offset } ==> {
            &&& stride * count <= usize::MAX
            &&& offset > u32::MAX
            &&& offset as int == stride * (offset as int / stride)
            &&& offset as int / stride < count
            &&& offset - stride <= u32::MAX
        },
{
    if let UniformBatchError::OffsetOverflow { offset } = error {
        vstd::arithmetic::div_mod::lemma_fundamental_div_mod(offset as int, stride);
    }
}

/// The words can be read back from their bytes, four for each, in the order in which
/// they were laid out.
pub proof fn lemma_words_are_read_back_from_their_bytes(bytes: Seq<u8>, words: Seq<u32>, i: int)
    requires
        lays_out(bytes, words, true),
        0 <= i < words.len(),
    ensures
        bytes.len() == 4 * words.len(),
        bytes[4 * i] + 0x100 * bytes[4 * i + 1] + 0x1_0000 * bytes[4 * i + 2] + 0x100_0000
            * bytes[4 * i + 3] == words[i],
{
    lemma_bytes_make_up_the_word(words[i]);
    assert(bytes[4 * i + 0] == byte_of(words[i], 0, true));
    assert(bytes[4 * i + 1] == byte_of(words[i], 1, true));
    assert(bytes[4 * i + 2] == byte_of(words[i], 2, true));
    assert(bytes[4 * i + 3] == byte_of(words[i], 3, true));
}

} // verus!
