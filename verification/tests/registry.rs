use imageflash::codec::{by_ext, Codec, Direct, BZ2, GZIP, LZ4, XZ, ZSTD};
use imageflash::FlashError;

#[test]
fn raw_group_resolves_to_direct() {
    for ext in ["ISO", "FS", "IMG", "IMA", "DD", "BIN", "RAW"] {
        assert!(matches!(by_ext(ext), Ok(Codec::Direct(_))), "{ext}");
    }
}

#[test]
fn bzip2_group_resolves() {
    for ext in ["BZ2", "BZIP2"] {
        assert!(matches!(by_ext(ext), Ok(Codec::Bz2(_))), "{ext}");
    }
}

#[test]
fn gzip_group_resolves() {
    for ext in ["GZ", "GZIP"] {
        assert!(matches!(by_ext(ext), Ok(Codec::Gzip(_))), "{ext}");
    }
}

#[test]
fn xz_group_resolves() {
    for ext in ["XZ", "LZMA", "PIXZ"] {
        assert!(matches!(by_ext(ext), Ok(Codec::Xz(_))), "{ext}");
    }
}

#[test]
fn zstd_group_resolves() {
    for ext in ["ZST", "ZSTD"] {
        assert!(matches!(by_ext(ext), Ok(Codec::Zstd(_))), "{ext}");
    }
}

#[test]
fn lz4_resolves() {
    assert!(matches!(by_ext("LZ4"), Ok(Codec::Lz4(_))));
}

#[test]
fn resolution_is_case_insensitive() {
    assert!(matches!(by_ext("iso"), Ok(Codec::Direct(_))));
    assert!(matches!(by_ext("Iso"), Ok(Codec::Direct(_))));
    assert!(matches!(by_ext("bz2"), Ok(Codec::Bz2(_))));
    assert!(matches!(by_ext("gZiP"), Ok(Codec::Gzip(_))));
    assert!(matches!(by_ext("lzma"), Ok(Codec::Xz(_))));
    assert!(matches!(by_ext("zst"), Ok(Codec::Zstd(_))));
    assert!(matches!(by_ext("lz4"), Ok(Codec::Lz4(_))));
}

#[test]
fn unknown_extension_is_a_configuration_error() {
    assert_eq!(by_ext("TXT"), Err(FlashError::UnsupportedFormat));
    assert_eq!(by_ext(""), Err(FlashError::UnsupportedFormat));
    assert_eq!(by_ext("ISO9660"), Err(FlashError::UnsupportedFormat));
    assert_eq!(by_ext("TXT").unwrap_err().kind(), imageflash::ErrorKind::Configuration);
}

#[test]
fn init_constructors_tag_their_variant() {
    assert!(matches!(Direct::init(), Codec::Direct(_)));
    assert!(matches!(BZ2::init(), Codec::Bz2(_)));
    assert!(matches!(XZ::init(), Codec::Xz(_)));
    assert!(matches!(GZIP::init(), Codec::Gzip(_)));
    assert!(matches!(ZSTD::init(), Codec::Zstd(_)));
    assert!(matches!(LZ4::init(), Codec::Lz4(_)));
}

#[test]
fn codec_labels_match() {
    assert_eq!(Direct::init().get_name(), "uncompressed");
    assert_eq!(BZ2::init().get_name(), "compressed with BZIP2");
    assert_eq!(GZIP::init().get_name(), "compressed with GZIP");
    assert_eq!(XZ::init().get_name(), "compressed with XZ/LZMA");
    assert_eq!(ZSTD::init().get_name(), "compressed with ZSTD");
    assert_eq!(LZ4::init().get_name(), "compressed with LZ4");
}
