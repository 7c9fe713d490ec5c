use pngchunk::chunk_spec::{ColorType, Chunk_IHDR};
use pngchunk::{ChunkError, ChunkType};

#[test]
pub fn test_chunk_type_from_bytes() {
    let expected = [82, 117, 83, 116];
    let actual = ChunkType::try_from([82, 117, 83, 116]).unwrap();

    assert_eq!(expected, actual.bytes());
}

#[test]
pub fn test_chunk_type_from_str() {
    let expected = ChunkType::try_from([82, 117, 83, 116]).unwrap();
    let actual = ChunkType::from_str("RuSt").unwrap();
    assert_eq!(expected, actual);
}

#[test]
pub fn test_chunk_type_is_critical() {
    let chunk = ChunkType::from_str("RuSt").unwrap();
    assert!(chunk.is_critical());
}

#[test]
pub fn test_chunk_type_is_not_critical() {
    let chunk = ChunkType::from_str("ruSt").unwrap();
    assert!(!chunk.is_critical());
}

#[test]
pub fn test_chunk_type_is_public() {
    let chunk = ChunkType::from_str("RUSt").unwrap();
    assert!(chunk.is_public());
}

#[test]
pub fn test_chunk_type_is_not_public() {
    let chunk = ChunkType::from_str("RuSt").unwrap();
    assert!(!chunk.is_public());
}

#[test]
pub fn test_chunk_type_is_reserved_bit_valid() {
    let chunk = ChunkType::from_str("RuSt").unwrap();
    assert!(chunk.is_reserved_bit_valid());
}

#[test]
pub fn test_chunk_type_is_reserved_bit_invalid() {
    let chunk = ChunkType::from_str("Rust").unwrap();
    assert!(!chunk.is_reserved_bit_valid());
}

#[test]
pub fn test_chunk_type_is_safe_to_copy() {
    let chunk = ChunkType::from_str("RuSt").unwrap();
    assert!(chunk.is_safe_to_copy());
}

#[test]
pub fn test_chunk_type_is_unsafe_to_copy() {
    let chunk = ChunkType::from_str("RuST").unwrap();
    assert!(!chunk.is_safe_to_copy());
}

#[test]
pub fn test_valid_chunk_is_valid() {
    let chunk = ChunkType::from_str("RuSt").unwrap();
    assert!(chunk.is_valid());
}

#[test]
pub fn test_invalid_chunk_is_valid() {
    let chunk = ChunkType::from_str("Rust").unwrap();
    assert!(!chunk.is_valid());

    let chunk = ChunkType::from_str("Ru1t");
    assert!(chunk.is_err());
}

#[test]
pub fn test_chunk_type_string() {
    let chunk = ChunkType::from_str("RuSt").unwrap();
    assert_eq!(&chunk.to_string(), "RuSt");
}

#[test]
pub fn test_chunk_type_trait_impls() {
    let chunk_type_1: ChunkType = ChunkType::try_from([82, 117, 83, 116]).unwrap();
    let chunk_type_2: ChunkType = std::str::FromStr::from_str("RuSt").unwrap();
    let _chunk_string = chunk_type_1.to_string();
    let _are_chunks_equal = chunk_type_1 == chunk_type_2;
}

#[test]
fn rust_bytes_predicates() {
    let t = ChunkType::try_from([82, 117, 83, 116]).unwrap();
    assert!(t.is_critical());
    assert!(!t.is_public());
    assert!(t.is_reserved_bit_valid());
    assert!(t.is_safe_to_copy());
    assert_eq!(t.to_string(), "RuSt");
}

#[test]
fn text_type_skips_reserved_bit_but_bytes_do_not() {
    let t = ChunkType::from_str("Rust").unwrap();
    assert!(!t.is_valid());
    assert_eq!(ChunkType::try_from(t.bytes()), Err(ChunkError::InvalidChunkType));
}

#[test]
fn invalid_character_error() {
    assert_eq!(ChunkType::from_str("Ru1t"), Err(ChunkError::InvalidCharacter));
    assert_eq!(ChunkType::from_str("Ru\u{e9}t"), Err(ChunkError::InvalidCharacter));
    // the character check comes before the length check
    assert_eq!(ChunkType::from_str("R1"), Err(ChunkError::InvalidCharacter));
}

#[test]
fn invalid_length_error() {
    assert_eq!(ChunkType::from_str("RuS"), Err(ChunkError::InvalidLength));
    assert_eq!(ChunkType::from_str("RuStX"), Err(ChunkError::InvalidLength));
    assert_eq!(ChunkType::from_str(""), Err(ChunkError::InvalidLength));
}

#[test]
fn byte_constructor_rejects_non_letters() {
    assert_eq!(ChunkType::try_from([82, 117, 83, 49]), Err(ChunkError::InvalidChunkType));
    assert_eq!(ChunkType::try_from([64, 117, 83, 116]), Err(ChunkError::InvalidChunkType));
    assert_eq!(ChunkType::try_from([82, 117, 83, 123]), Err(ChunkError::InvalidChunkType));
}

#[test]
fn case_decides_each_predicate() {
    let lower = ChunkType::from_str("rust").unwrap();
    assert!(!lower.is_critical());
    assert!(!lower.is_public());
    assert!(!lower.is_reserved_bit_valid());
    assert!(lower.is_safe_to_copy());
    let upper = ChunkType::from_str("RUST").unwrap();
    assert!(upper.is_critical());
    assert!(upper.is_public());
    assert!(upper.is_reserved_bit_valid());
    assert!(!upper.is_safe_to_copy());
    assert!(upper.is_valid());
}

#[test]
fn color_type_bits_and_depths() {
    assert!(ColorType::PLT.pallate_used());
    assert!(ColorType::PLT.color_used());
    assert!(!ColorType::PLT.alpha_used());
    assert!(!ColorType::GRY.pallate_used());
    assert!(!ColorType::GRY.color_used());
    assert!(ColorType::GRYA.alpha_used());
    assert!(ColorType::RGBA.alpha_used() && ColorType::RGBA.color_used());
    assert!(ColorType::GRY.allowed_bit_depth(1));
    assert!(!ColorType::RGB.allowed_bit_depth(4));
    assert!(ColorType::PLT.allowed_bit_depth(8));
    assert!(!ColorType::PLT.allowed_bit_depth(16));
    assert!(ColorType::RGBA.allowed_bit_depth(16));
    let header = Chunk_IHDR {
        width: 1,
        height: 1,
        bit_depth: 4,
        color_type: ColorType::PLT,
        compression_method: 0,
        filter_method: 0,
        interlace_method: 0,
    };
    assert_eq!(header.sample_depth(), 8);
    let header = Chunk_IHDR {
        width: 1,
        height: 1,
        bit_depth: 16,
        color_type: ColorType::RGB,
        compression_method: 0,
        filter_method: 0,
        interlace_method: 0,
    };
    assert_eq!(header.sample_depth(), 16);
}
