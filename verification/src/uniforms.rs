//! The parameters every stage reads, and the exact bytes they cross to the device as.
//!
//! Floating values are held as their IEEE-754 single-precision bit patterns:
//! packing moves them and never computes with them.

use vstd::prelude::*;
use crate::bytes::{cast_words, is_image_of, lemma_image_of_subrange, ByteOrder};
use crate::util::SizeF;

verus! {

/// The logical parameter record. It changes with every input event.
#[derive(Debug, Clone, Copy, PartialEq, Eq)]
pub struct Uniforms {
    /// Pointer position, x then y.
    pub mouse_pos: (u32, u32),
    /// Accumulated scroll distance, which stands for exposure.
    pub scroll_delta: u32,
    pub window_size: SizeF,
    pub image_size: SizeF,
    /// Camera colour space to XYZ, three rows of four.
    pub cam_2_xyz: [[u32; 4]; 3],
    /// XYZ to sRGB, three rows of three.
    pub xyz_2_srgb: [[u32; 3]; 3],
    /// Per-channel white levels.
    pub whitelevels: [u32; 4],
    /// Per-channel black levels.
    pub blacklevels: [u32; 4],
    /// The sensor's crop rectangle; whole numbers, not floating values.
    pub crops: [u32; 4],
}

/// The record as the device reads it: 208 bytes, every field at a fixed offset.
/// One is made per frame and never changed.
#[derive(Debug, Clone, Copy, PartialEq, Eq)]
pub struct Raw {
    pub cam_2_xyz: [[u32; 4]; 3],
    pub xyz_2_srgb: [[u32; 4]; 3],
    pub whitelevels: [u32; 4],
    pub blacklevels: [u32; 4],
    pub crops: [u32; 4],
    pub mouse_pos: [u32; 2],
    pub window_size: [u32; 2],
    pub image_size: [u32; 2],
    pub output_size: [u32; 2],
    pub scroll_delta: u32,
    pub _padding: [u32; 3],
    pub _pad2: [u32; 4],
}

/// The fields of [`Raw`], in the order in which they lie in memory.
#[derive(Debug, Clone, Copy, PartialEq, Eq, Structural)]
pub enum Field {
    Cam2Xyz,
    Xyz2Srgb,
    WhiteLevels,
    BlackLevels,
    Crops,
    MousePos,
    WindowSize,
    ImageSize,
    OutputSize,
    ScrollDelta,
    Padding,
    Pad2,
}

/// Size of [`Raw`] in bytes.
pub const RAW_SIZE: usize = 208;

/// Size of [`Raw`] in 32-bit words.
pub const RAW_WORDS: usize = 52;

impl Field {
    /// Byte offset of the field from the start of the record.
    pub open spec fn spec_offset(self) -> int {
        match self {
            Field::Cam2Xyz => 0,
            Field::Xyz2Srgb => 48,
            Field::WhiteLevels => 96,
            Field::BlackLevels => 112,
            Field::Crops => 128,
            Field::MousePos => 144,
            Field::WindowSize => 152,
            Field::ImageSize => 160,
            Field::OutputSize => 168,
            Field::ScrollDelta => 176,
            Field::Padding => 180,
            Field::Pad2 => 192,
        }
    }

    /// Size of the field in bytes.
    pub open spec fn spec_size(self) -> int {
        match self {
            Field::Cam2Xyz => 48,
            Field::Xyz2Srgb => 48,
            Field::WhiteLevels => 16,
            Field::BlackLevels => 16,
            Field::Crops => 16,
            Field::MousePos => 8,
            Field::WindowSize => 8,
            Field::ImageSize => 8,
            Field::OutputSize => 8,
            Field::ScrollDelta => 4,
            Field::Padding => 12,
            Field::Pad2 => 16,
        }
    }

    /// Byte offset of the field from the start of the record.
    pub fn offset(self) -> (offset: usize)
        ensures
            offset == self.spec_offset(),
    {
        match self {
            Field::Cam2Xyz => 0,
            Field::Xyz2Srgb => 48,
            Field::WhiteLevels => 96,
            Field::BlackLevels => 112,
            Field::Crops => 128,
            Field::MousePos => 144,
            Field::WindowSize => 152,
            Field::ImageSize => 160,
            Field::OutputSize => 168,
            Field::ScrollDelta => 176,
            Field::Padding => 180,
            Field::Pad2 => 192,
        }
    }

    /// Size of the field in bytes.
    pub fn size(self) -> (size: usize)
        ensures
            size == self.spec_size(),
    {
        match self {
            Field::Cam2Xyz | Field::Xyz2Srgb => 48,
            Field::WhiteLevels | Field::BlackLevels | Field::Crops | Field::Pad2 => 16,
            Field::MousePos | Field::WindowSize | Field::ImageSize | Field::OutputSize => 8,
            Field::ScrollDelta => 4,
            Field::Padding => 12,
        }
    }
}

/// A row of three padded to four with a zero.
pub open spec fn spec_pad_row(row: [u32; 3]) -> [u32; 4] {
    [row[0], row[1], row[2], 0u32]
}

/// A 3×3 matrix with each row padded to four with a zero.
pub open spec fn spec_pad_matrix(matrix: [[u32; 3]; 3]) -> [[u32; 4]; 3] {
    [spec_pad_row(matrix[0]), spec_pad_row(matrix[1]), spec_pad_row(matrix[2])]
}

/// Pads each row of a 3×3 matrix to four elements with a zero, the row
/// stride the device expects.
pub fn pad_matrix(matrix: [[u32; 3]; 3]) -> (padded: [[u32; 4]; 3])
    ensures
        padded == spec_pad_matrix(matrix),
        forall|i: int, j: int| 0 <= i < 3 && 0 <= j < 3 ==> padded[i][j] == matrix[i][j],
        forall|i: int| 0 <= i < 3 ==> padded[i][3] == 0,
{
    let padded = [
        [matrix[0][0], matrix[0][1], matrix[0][2], 0],
        [matrix[1][0], matrix[1][1], matrix[1][2], 0],
        [matrix[2][0], matrix[2][1], matrix[2][2], 0],
    ];
    assert(padded[0] =~= spec_pad_row(matrix[0]));
    assert(padded[1] =~= spec_pad_row(matrix[1]));
    assert(padded[2] =~= spec_pad_row(matrix[2]));
    assert(padded =~= spec_pad_matrix(matrix));
    padded
}

impl Uniforms {
    /// The device record of these parameters for a render target of `output_size`.
    pub open spec fn spec_to_raw(self, output_size: SizeF) -> Raw {
        Raw {
            cam_2_xyz: self.cam_2_xyz,
            xyz_2_srgb: spec_pad_matrix(self.xyz_2_srgb),
            whitelevels: self.whitelevels,
            blacklevels: self.blacklevels,
            crops: self.crops,
            mouse_pos: [self.mouse_pos.0, self.mouse_pos.1],
            window_size: [self.window_size.width, self.window_size.height],
            image_size: [self.image_size.width, self.image_size.height],
            output_size: [output_size.width, output_size.height],
            scroll_delta: self.scroll_delta,
            _padding: [0u32, 0u32, 0u32],
            _pad2: [0u32, 0u32, 0u32, 0u32],
        }
    }

    /// Packs the parameters into the device record: pairs become two-element
    /// arrays, the 3×3 matrix gets its rows padded to four, and the filler
    /// after the last field is zero.
    pub fn to_raw(self, output_size: SizeF) -> (raw: Raw)
        ensures
            raw == self.spec_to_raw(output_size),
    {
        let raw = Raw {
            cam_2_xyz: self.cam_2_xyz,
            xyz_2_srgb: pad_matrix(self.xyz_2_srgb),
            whitelevels: self.whitelevels,
            blacklevels: self.blacklevels,
            crops: self.crops,
            mouse_pos: [self.mouse_pos.0, self.mouse_pos.1],
            window_size: [self.window_size.width, self.window_size.height],
            image_size: [self.image_size.width, self.image_size.height],
            output_size: [output_size.width, output_size.height],
            scroll_delta: self.scroll_delta,
            _padding: [0, 0, 0],
            _pad2: [0, 0, 0, 0],
        };
        let ghost expected = self.spec_to_raw(output_size);
        assert(raw.mouse_pos =~= expected.mouse_pos);
        assert(raw.window_size =~= expected.window_size);
        assert(raw.image_size =~= expected.image_size);
        assert(raw.output_size =~= expected.output_size);
        assert(raw._padding =~= expected._padding);
        assert(raw._pad2 =~= expected._pad2);
        raw
    }
}

impl Raw {
    /// The words of one field, in memory order.
    pub open spec fn spec_field(&self, field: Field) -> Seq<u32> {
        match field {
            Field::Cam2Xyz => self.cam_2_xyz[0]@ + self.cam_2_xyz[1]@ + self.cam_2_xyz[2]@,
            Field::Xyz2Srgb => self.xyz_2_srgb[0]@ + self.xyz_2_srgb[1]@ + self.xyz_2_srgb[2]@,
            Field::WhiteLevels => self.whitelevels@,
            Field::BlackLevels => self.blacklevels@,
            Field::Crops => self.crops@,
            Field::MousePos => self.mouse_pos@,
            Field::WindowSize => self.window_size@,
            Field::ImageSize => self.image_size@,
            Field::OutputSize => self.output_size@,
            Field::ScrollDelta => seq![self.scroll_delta],
            Field::Padding => self._padding@,
            Field::Pad2 => self._pad2@,
        }
    }

    /// The words of the whole record: its fields one after the other.
    pub open spec fn spec_words(&self) -> Seq<u32> {
        self.spec_field(Field::Cam2Xyz) + self.spec_field(Field::Xyz2Srgb) + self.spec_field(
            Field::WhiteLevels,
        ) + self.spec_field(Field::BlackLevels) + self.spec_field(Field::Crops) + self.spec_field(
            Field::MousePos,
        ) + self.spec_field(Field::WindowSize) + self.spec_field(Field::ImageSize)
            + self.spec_field(Field::OutputSize) + self.spec_field(Field::ScrollDelta)
            + self.spec_field(Field::Padding) + self.spec_field(Field::Pad2)
    }

    /// The words of the record, in memory order.
    pub fn as_words(&self) -> (words: [u32; 52])
        ensures
            words@ == self.spec_words(),
    {
        let c = &self.cam_2_xyz;
        let x = &self.xyz_2_srgb;
        let words = [
            c[0][0], c[0][1], c[0][2], c[0][3],
            c[1][0], c[1][1], c[1][2], c[1][3],
            c[2][0], c[2][1], c[2][2], c[2][3],
            x[0][0], x[0][1], x[0][2], x[0][3],
            x[1][0], x[1][1], x[1][2], x[1][3],
            x[2][0], x[2][1], x[2][2], x[2][3],
            self.whitelevels[0], self.whitelevels[1], self.whitelevels[2], self.whitelevels[3],
            self.blacklevels[0], self.blacklevels[1], self.blacklevels[2], self.blacklevels[3],
            self.crops[0], self.crops[1], self.crops[2], self.crops[3],
            self.mouse_pos[0], self.mouse_pos[1],
            self.window_size[0], self.window_size[1],
            self.image_size[0], self.image_size[1],
            self.output_size[0], self.output_size[1],
            self.scroll_delta,
            self._padding[0], self._padding[1], self._padding[2],
            self._pad2[0], self._pad2[1], self._pad2[2], self._pad2[3],
        ];
        assert(words@ =~= self.spec_words());
        words
    }

    /// The bytes written to the uniform buffer: the memory image of the record.
    pub fn to_bytes(&self) -> (bytes: Vec<u8>)
        ensures
            is_image_of(bytes@, self.spec_words()),
            bytes@.len() == RAW_SIZE,
    {
        let words = self.as_words();
        cast_words(words.as_slice())
    }
}

/// The record is 208 bytes long, a multiple of 16; its first field starts at
/// offset 0, each further field starts where the one before it ends, and the
/// last one ends where the record ends; every field is a whole number of words.
pub proof fn lemma_fields_are_contiguous()
    ensures
        RAW_SIZE == 208,
        RAW_SIZE % 16 == 0,
        RAW_SIZE == 4 * RAW_WORDS,
        Field::Cam2Xyz.spec_offset() == 0,
        Field::Xyz2Srgb.spec_offset() == Field::Cam2Xyz.spec_offset() + Field::Cam2Xyz.spec_size(),
        Field::WhiteLevels.spec_offset() == Field::Xyz2Srgb.spec_offset()
            + Field::Xyz2Srgb.spec_size(),
        Field::BlackLevels.spec_offset() == Field::WhiteLevels.spec_offset()
            + Field::WhiteLevels.spec_size(),
        Field::Crops.spec_offset() == Field::BlackLevels.spec_offset()
            + Field::BlackLevels.spec_size(),
        Field::MousePos.spec_offset() == Field::Crops.spec_offset() + Field::Crops.spec_size(),
        Field::WindowSize.spec_offset() == Field::MousePos.spec_offset()
            + Field::MousePos.spec_size(),
        Field::ImageSize.spec_offset() == Field::WindowSize.spec_offset()
            + Field::WindowSize.spec_size(),
        Field::OutputSize.spec_offset() == Field::ImageSize.spec_offset()
            + Field::ImageSize.spec_size(),
        Field::ScrollDelta.spec_offset() == Field::OutputSize.spec_offset()
            + Field::OutputSize.spec_size(),
        Field::Padding.spec_offset() == Field::ScrollDelta.spec_offset()
            + Field::ScrollDelta.spec_size(),
        Field::Pad2.spec_offset() == Field::Padding.spec_offset() + Field::Padding.spec_size(),
        RAW_SIZE == Field::Pad2.spec_offset() + Field::Pad2.spec_size(),
        forall|field: Field| #[trigger] field.spec_offset() % 4 == 0 && field.spec_size() % 4 == 0,
{
}

/// For any record, the words of a field lie in the record at the field's
/// offset and fill the field's size.
pub proof fn lemma_field_words(raw: Raw, field: Field)
    ensures
        raw.spec_words().len() == RAW_WORDS,
        raw.spec_field(field).len() * 4 == field.spec_size(),
        raw.spec_words().subrange(
            field.spec_offset() / 4,
            (field.spec_offset() + field.spec_size()) / 4,
        ) == raw.spec_field(field),
{
    let words = raw.spec_words();
    let from = field.spec_offset() / 4;
    let to = (field.spec_offset() + field.spec_size()) / 4;
    assert(words.subrange(from, to) =~= raw.spec_field(field));
}

/// For any record, the bytes written for it hold every field at its offset:
/// the bytes from the field's offset on, for the field's size, are the memory
/// image of the field's words.
pub proof fn lemma_field_bytes(raw: Raw, bytes: Seq<u8>, field: Field)
    requires
        is_image_of(bytes, raw.spec_words()),
    ensures
        bytes.len() == RAW_SIZE,
        is_image_of(
            bytes.subrange(field.spec_offset(), field.spec_offset() + field.spec_size()),
            raw.spec_field(field),
        ),
{
    lemma_field_words(raw, field);
    let words = raw.spec_words();
    let from = field.spec_offset() / 4;
    let to = (field.spec_offset() + field.spec_size()) / 4;
    lemma_image_of_subrange(words, ByteOrder::LittleEndian, from, to);
    lemma_image_of_subrange(words, ByteOrder::BigEndian, from, to);
}

} // verus!
