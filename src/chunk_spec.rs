use vstd::prelude::*;

verus! {

/// The colour type of an image header, as PNG numbers it.
#[derive(Debug, Clone, Copy, PartialEq, Eq, Structural)]
pub enum ColorType {
    /// Greyscale (0).
    GRY,
    /// Truecolour (2).
    RGB,
    /// Indexed colour (3).
    PLT,
    /// Greyscale with alpha (4).
    GRYA,
    /// Truecolour with alpha (6).
    RGBA,
}

/// The bit depths that PNG allows for a colour type.
pub open spec fn depth_allowed(c: ColorType, depth: u8) -> bool {
    match c {
        ColorType::GRY => depth == 1 || depth == 2 || depth == 4 || depth == 8 || depth == 16,
        ColorType::PLT => depth == 1 || depth == 2 || depth == 4 || depth == 8,
        _ => depth == 8 || depth == 16,
    }
}

impl ColorType {
    /// The colour type's number in an image header.
    pub open spec fn spec_code(self) -> u8 {
        match self {
            ColorType::GRY => 0,
            ColorType::RGB => 2,
            ColorType::PLT => 3,
            ColorType::GRYA => 4,
            ColorType::RGBA => 6,
        }
    }

    /// The colour type's number in an image header.
    pub fn code(self) -> (r: u8)
        ensures
            r == self.spec_code(),
    {
        match self {
            ColorType::GRY => 0,
            ColorType::RGB => 2,
            ColorType::PLT => 3,
            ColorType::GRYA => 4,
            ColorType::RGBA => 6,
        }
    }

    /// True when the palette bit (1) of the number is set.
    pub fn pallate_used(self) -> (r: bool)
        ensures
            r == (self.spec_code() & 1 == 1),
    {
        (self.code() & 0x1) == 0x1
    }

    /// True when the colour bit (2) of the number is set.
    pub fn color_used(self) -> (r: bool)
        ensures
            r == (self.spec_code() & 2 == 2),
    {
        (self.code() & 0x2) == 0x2
    }

    /// True when the alpha bit (4) of the number is set.
    pub fn alpha_used(self) -> (r: bool)
        ensures
            r == (self.spec_code() & 4 == 4),
    {
        (self.code() & 0x4) == 0x4
    }

    /// True when PNG allows `depth` bits per sample for this colour type.
    pub fn allowed_bit_depth(self, depth: u8) -> (r: bool)
        ensures
            r == depth_allowed(self, depth),
    {
        match self {
            ColorType::GRY => {
                (depth == 0x1) || (depth == 0x2) || (depth == 0x4) || (depth == 0x8) || (depth
                    == 0x10)
            },
            ColorType::RGB => (depth == 0x8) || (depth == 0x10),
            ColorType::PLT => (depth == 0x1) || (depth == 0x2) || (depth == 0x4) || (depth == 0x8),
            ColorType::GRYA => (depth == 0x8) || (depth == 0x10),
            ColorType::RGBA => (depth == 0x8) || (depth == 0x10),
        }
    }
}

/// The fields of an image header chunk.
#[allow(non_camel_case_types)]
pub struct Chunk_IHDR {
    pub width: u32,
    pub height: u32,
    pub bit_depth: u8,
    pub color_type: ColorType,
    pub compression_method: u8,
    pub filter_method: u8,
    pub interlace_method: u8,
}

impl Chunk_IHDR {
    /// The bits per sample: eight for indexed colour, whose samples are
    /// palette entries, else the header's bit depth.
    pub fn sample_depth(self) -> (r: u8)
        ensures
            r == if self.color_type == ColorType::PLT {
                8
            } else {
                self.bit_depth
            },
    {
        match self.color_type {
            ColorType::PLT => 8,
            _ => self.bit_depth,
        }
    }
}

} // verus!
