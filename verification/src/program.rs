//! The loaded image and the state from which each frame's parameters are made.

use std::sync::Arc;
use vstd::prelude::*;
use crate::binding::SourceKind;
use crate::ieee::{spec_single_of, to_float, MINUS_ONE, ONE};
use crate::primitive::Primitive;
use crate::uniforms::Uniforms;
use crate::util::{Size, SizeF, Tof32};

verus! {

/// A decoded standard image: rows of red, green, blue, alpha, 8 bits each.
#[derive(Debug, PartialEq, Eq)]
pub struct DecodedImage {
    pub width: u32,
    pub height: u32,
    /// Four bytes per pixel, rows from the top, no gaps.
    pub data: Vec<u8>,
}

/// The samples of a sensor plane.
#[derive(Debug, PartialEq, Eq)]
pub enum RawImageData {
    /// 16-bit whole-number samples.
    Integer(Vec<u16>),
    /// Single-precision samples, as bit patterns.
    Float(Vec<u32>),
}

/// A sensor image with the calibration data its decoder found.
#[derive(Debug, PartialEq, Eq)]
pub struct SensorImage {
    pub width: usize,
    pub height: usize,
    /// One sample per sensor cell, rows from the top, no gaps.
    pub data: RawImageData,
    /// Camera colour space to XYZ, as single-precision bit patterns.
    pub cam_to_xyz: [[u32; 4]; 3],
    pub whitelevels: [u16; 4],
    pub blacklevels: [u16; 4],
    /// The crop rectangle of the sensor.
    pub crops: [usize; 4],
}

/// A loaded image of either kind.
#[derive(Debug, PartialEq, Eq)]
pub enum Image {
    DynamicImage(DecodedImage),
    RawImage(Box<SensorImage>),
}

/// XYZ to linear sRGB for a D65 white point, stored for the device as three
/// rows of three: (3.2406, -0.9689, 0.0557), (-1.5372, 1.8758, -0.2040),
/// (-0.4986, 0.0415, 1.0570), each as its single-precision bit pattern.
pub const XYZ_TO_SRGB: [[u32; 3]; 3] = [
    [0x404f_65fe, 0xbf78_09d5, 0x3d64_25af],
    [0xbfc4_c2f8, 0x3ff0_1a37, 0xbe50_e560],
    [0xbeff_4880, 0x3d29_fbe7, 0x3f87_4bc7],
];

/// The kind of image a file with the given extension holds: a sensor image
/// for `cr2`, a standard image for `jpg`, each in lower or in upper case, and
/// nothing that can be loaded for any other.
pub open spec fn spec_kind_of_extension(extension: Seq<char>) -> Option<SourceKind> {
    if extension == "cr2"@ || extension == "CR2"@ {
        Some(SourceKind::Raw)
    } else if extension == "jpg"@ || extension == "JPG"@ {
        Some(SourceKind::Standard)
    } else {
        None
    }
}

/// Tells from the extension of a file which kind of image it holds, if one
/// that can be loaded.
pub fn kind_of_extension(extension: &str) -> (kind: Option<SourceKind>)
    ensures
        kind == spec_kind_of_extension(extension@),
{
    let extension = extension.to_owned();
    if extension == "cr2".to_owned() || extension == "CR2".to_owned() {
        Some(SourceKind::Raw)
    } else if extension == "jpg".to_owned() || extension == "JPG".to_owned() {
        Some(SourceKind::Standard)
    } else {
        None
    }
}

/// The low 32 bits of each element.
pub fn to_u32(arr: [usize; 4]) -> (low: [u32; 4])
    ensures
        forall|i: int| 0 <= i < 4 ==> low[i] == arr[i] as int % 0x1_0000_0000,
{
    let low = [
        #[verifier::truncate]
        (arr[0] as u32),
        #[verifier::truncate]
        (arr[1] as u32),
        #[verifier::truncate]
        (arr[2] as u32),
        #[verifier::truncate]
        (arr[3] as u32),
    ];
    proof {
        lemma_low_bits(arr[0]);
        lemma_low_bits(arr[1]);
        lemma_low_bits(arr[2]);
        lemma_low_bits(arr[3]);
    }
    low
}

/// Truncation to 32 bits keeps the remainder modulo `2^32`.
proof fn lemma_low_bits(x: usize)
    ensures
        x as u32 == x as int % 0x1_0000_0000,
{
    assert(x as u32 == x as u64 % 0x1_0000_0000) by (bit_vector);
}

impl Image {
    /// Width in pixels; of a sensor image, the low 32 bits of its width.
    pub open spec fn spec_width(&self) -> u32 {
        match self {
            Image::DynamicImage(img) => img.width,
            Image::RawImage(img) => (img.width as int % 0x1_0000_0000) as u32,
        }
    }

    /// Height in pixels; of a sensor image, the low 32 bits of its height.
    pub open spec fn spec_height(&self) -> u32 {
        match self {
            Image::DynamicImage(img) => img.height,
            Image::RawImage(img) => (img.height as int % 0x1_0000_0000) as u32,
        }
    }

    /// Width in pixels, in full.
    pub open spec fn spec_raw_width(&self) -> int {
        match self {
            Image::DynamicImage(img) => img.width as int,
            Image::RawImage(img) => img.width as int,
        }
    }

    /// Height in pixels, in full.
    pub open spec fn spec_raw_height(&self) -> int {
        match self {
            Image::DynamicImage(img) => img.height as int,
            Image::RawImage(img) => img.height as int,
        }
    }

    /// True when the image holds exactly the data its dimensions call for:
    /// four bytes for each pixel of a standard image, one sample for each
    /// cell of a sensor image.
    pub open spec fn spec_is_complete(&self) -> bool {
        match self {
            Image::DynamicImage(img) => img.data@.len() == 4 * img.width * img.height,
            Image::RawImage(img) => match img.data {
                RawImageData::Integer(samples) => samples@.len() == img.width * img.height,
                RawImageData::Float(samples) => samples@.len() == img.width * img.height,
            },
        }
    }

    /// Which kind of source the image is.
    pub open spec fn spec_kind(&self) -> SourceKind {
        match self {
            Image::DynamicImage(_) => SourceKind::Standard,
            Image::RawImage(_) => SourceKind::Raw,
        }
    }

    pub fn width(&self) -> (width: u32)
        ensures
            width == self.spec_width(),
    {
        match self {
            Image::DynamicImage(img) => img.width,
            Image::RawImage(img) => {
                proof {
                    lemma_low_bits(img.width);
                }
                #[verifier::truncate]
                (img.width as u32)
            },
        }
    }

    pub fn height(&self) -> (height: u32)
        ensures
            height == self.spec_height(),
    {
        match self {
            Image::DynamicImage(img) => img.height,
            Image::RawImage(img) => {
                proof {
                    lemma_low_bits(img.height);
                }
                #[verifier::truncate]
                (img.height as u32)
            },
        }
    }

    pub fn dimensions(&self) -> (dimensions: (u32, u32))
        ensures
            dimensions == (self.spec_width(), self.spec_height()),
    {
        (self.width(), self.height())
    }

    /// Which kind of source the image is.
    pub fn kind(&self) -> (kind: SourceKind)
        ensures
            kind == self.spec_kind(),
    {
        match self {
            Image::DynamicImage(_) => SourceKind::Standard,
            Image::RawImage(_) => SourceKind::Raw,
        }
    }
}

/// The state the parameters of a frame are drawn from.
#[derive(Debug, PartialEq, Eq)]
pub struct Program {
    /// Where the image came from; it names the image.
    pub image_path: String,
    pub image: Arc<Image>,
    /// Pointer position as single-precision bit patterns, x then y.
    pub mouse_pos: (u32, u32),
    /// Accumulated scroll distance as a single-precision bit pattern.
    pub scroll_delta: u32,
    pub image_size: Size,
}

/// The colour parameters for a standard image: identity matrices, white
/// levels of one, black levels of zero, no crop.
pub open spec fn spec_standard_colour() -> (
    [[u32; 4]; 3],
    [[u32; 3]; 3],
    [u32; 4],
    [u32; 4],
    [u32; 4],
) {
    (
        [[ONE, 0u32, 0u32, 0u32], [0u32, ONE, 0u32, 0u32], [0u32, 0u32, ONE, 0u32]],
        [[ONE, 0u32, 0u32], [0u32, ONE, 0u32], [0u32, 0u32, ONE]],
        [ONE, ONE, ONE, ONE],
        [0u32, 0u32, 0u32, 0u32],
        [0u32, 0u32, 0u32, 0u32],
    )
}

impl Clone for Program {
    /// A copy that shares the image.
    fn clone(&self) -> (copy: Program)
        ensures
            copy.image_path@ == self.image_path@,
            copy.image == self.image,
            copy.mouse_pos == self.mouse_pos,
            copy.scroll_delta == self.scroll_delta,
            copy.image_size == self.image_size,
    {
        Program {
            image_path: self.image_path.clone(),
            image: self.image.clone(),
            mouse_pos: self.mouse_pos,
            scroll_delta: self.scroll_delta,
            image_size: self.image_size,
        }
    }
}

impl Default for Program {
    /// No image: an empty path, an empty 0×0 standard image, the pointer at
    /// (-1, -1) and no scroll.
    fn default() -> (program: Program)
        ensures
            program.image_path@.len() == 0,
            *program.image == Image::DynamicImage(
                DecodedImage { width: 0, height: 0, data: program.image->DynamicImage_0.data },
            ),
            program.image->DynamicImage_0.data@.len() == 0,
            program.mouse_pos == (MINUS_ONE, MINUS_ONE),
            program.scroll_delta == 0,
            program.image_size == (Size { width: 0, height: 0 }),
    {
        Program {
            image_path: String::new(),
            image: Arc::new(
                Image::DynamicImage(DecodedImage { width: 0, height: 0, data: Vec::new() }),
            ),
            mouse_pos: (MINUS_ONE, MINUS_ONE),
            scroll_delta: 0,
            image_size: Size::new(0, 0),
        }
    }
}

impl Program {
    /// Takes a decoded standard image read from `path` as the current image.
    pub fn load_image(&mut self, path: &str, image: DecodedImage)
        ensures
            final(self).image_path@ == path@,
            final(self).image_size == (Size { width: image.width, height: image.height }),
            *final(self).image == Image::DynamicImage(image),
            final(self).mouse_pos == old(self).mouse_pos,
            final(self).scroll_delta == old(self).scroll_delta,
    {
        self.image_path = path.to_owned();
        self.image_size = Size::new(image.width, image.height);
        self.image = Arc::new(Image::DynamicImage(image));
    }

    /// Takes a decoded sensor image read from `path` as the current image.
    pub fn load_cr2_image(&mut self, path: &str, image: SensorImage)
        ensures
            final(self).image_path@ == path@,
            final(self).image_size == (Size {
                width: (image.width as int % 0x1_0000_0000) as u32,
                height: (image.height as int % 0x1_0000_0000) as u32,
            }),
            *final(self).image == Image::RawImage(Box::new(image)),
            final(self).mouse_pos == old(self).mouse_pos,
            final(self).scroll_delta == old(self).scroll_delta,
    {
        proof {
            lemma_low_bits(image.width);
            lemma_low_bits(image.height);
        }
        self.image_path = path.to_owned();
        self.image_size = Size::new(
            #[verifier::truncate]
            (image.width as u32),
            #[verifier::truncate]
            (image.height as u32),
        );
        self.image = Arc::new(Image::RawImage(Box::new(image)));
    }

    /// The parameters of a frame drawn into an area of size `bounds`.
    pub open spec fn spec_uniforms(&self, bounds: SizeF) -> Uniforms {
        let colour = match *self.image {
            Image::DynamicImage(_) => spec_standard_colour(),
            Image::RawImage(raw) => (
                raw.cam_to_xyz,
                XYZ_TO_SRGB,
                [
                    spec_single_of(raw.whitelevels[0] as int) as u32,
                    spec_single_of(raw.whitelevels[1] as int) as u32,
                    spec_single_of(raw.whitelevels[2] as int) as u32,
                    spec_single_of(raw.whitelevels[3] as int) as u32,
                ],
                [
                    spec_single_of(raw.blacklevels[0] as int) as u32,
                    spec_single_of(raw.blacklevels[1] as int) as u32,
                    spec_single_of(raw.blacklevels[2] as int) as u32,
                    spec_single_of(raw.blacklevels[3] as int) as u32,
                ],
                [
                    (raw.crops[0] as int % 0x1_0000_0000) as u32,
                    (raw.crops[1] as int % 0x1_0000_0000) as u32,
                    (raw.crops[2] as int % 0x1_0000_0000) as u32,
                    (raw.crops[3] as int % 0x1_0000_0000) as u32,
                ],
            ),
        };
        Uniforms {
            mouse_pos: self.mouse_pos,
            scroll_delta: self.scroll_delta,
            window_size: bounds,
            image_size: self.image_size.spec_to_f32(),
            cam_2_xyz: colour.0,
            xyz_2_srgb: colour.1,
            whitelevels: colour.2,
            blacklevels: colour.3,
            crops: colour.4,
        }
    }

    /// The primitive of one frame drawn into an area of size `bounds`: the
    /// current parameters, with the colour data of the image if it is a
    /// sensor image and neutral values if not.
    pub fn draw(&self, bounds: SizeF) -> (primitive: Primitive)
        ensures
            primitive.uniforms == self.spec_uniforms(bounds),
            primitive.image_path@ == self.image_path@,
            primitive.image == self.image,
    {
        let image_size = self.image_size.to_f32();
        let (cam_2_xyz, xyz_2_srgb, whitelevels, blacklevels, crops) = match &*self.image {
            Image::DynamicImage(_) => (
                [[ONE, 0, 0, 0], [0, ONE, 0, 0], [0, 0, ONE, 0]],
                [[ONE, 0, 0], [0, ONE, 0], [0, 0, ONE]],
                [ONE, ONE, ONE, ONE],
                [0, 0, 0, 0],
                [0, 0, 0, 0],
            ),
            Image::RawImage(raw) => (
                raw.cam_to_xyz,
                XYZ_TO_SRGB,
                to_float(raw.whitelevels),
                to_float(raw.blacklevels),
                to_u32(raw.crops),
            ),
        };
        let uniforms = Uniforms {
            mouse_pos: self.mouse_pos,
            scroll_delta: self.scroll_delta,
            window_size: bounds,
            image_size,
            cam_2_xyz,
            xyz_2_srgb,
            whitelevels,
            blacklevels,
            crops,
        };
        proof {
            let expected = self.spec_uniforms(bounds);
            assert(uniforms.cam_2_xyz[0] =~= expected.cam_2_xyz[0]);
            assert(uniforms.cam_2_xyz[1] =~= expected.cam_2_xyz[1]);
            assert(uniforms.cam_2_xyz[2] =~= expected.cam_2_xyz[2]);
            assert(uniforms.cam_2_xyz =~= expected.cam_2_xyz);
            assert(uniforms.xyz_2_srgb[0] =~= expected.xyz_2_srgb[0]);
            assert(uniforms.xyz_2_srgb[1] =~= expected.xyz_2_srgb[1]);
            assert(uniforms.xyz_2_srgb[2] =~= expected.xyz_2_srgb[2]);
            assert(uniforms.xyz_2_srgb =~= expected.xyz_2_srgb);
            assert(uniforms.whitelevels =~= expected.whitelevels);
            assert(uniforms.blacklevels =~= expected.blacklevels);
            assert(uniforms.crops =~= expected.crops);
        }
        Primitive {
            uniforms,
            image_path: self.image_path.clone(),
            image: self.image.clone(),
        }
    }
}

} // verus!
