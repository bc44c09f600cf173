//! The decompressor registry: a closed set of codec variants keyed by the
//! image file's extension, each able to decode its stream and to pre-scan
//! the decompressed content for length, digest and boot-sector signature.
//!
//! Decoding itself is done by the outside codec crates; each call sits
//! behind one trusted wrapper whose result is named, so everything around
//! the calls is verified against those names.

use vstd::prelude::*;
use vstd::slice::slice_to_vec;
use vstd::string::StrSliceExecFns;
use crate::FlashError;
use crate::checksum::{sha256, sha256_of};

use std::io::Read;

verus! {

/// What bzip2 multi-stream decoding yields on the given bytes, or nothing
/// where the stream is rejected. A function of the input alone.
pub uninterp spec fn bz2_plain(data: Seq<u8>) -> Option<Seq<u8>>;

/// What gzip multi-member decoding yields on the given bytes.
pub uninterp spec fn gzip_plain(data: Seq<u8>) -> Option<Seq<u8>>;

/// What xz/lzma decoding yields on the given bytes.
pub uninterp spec fn xz_plain(data: Seq<u8>) -> Option<Seq<u8>>;

/// What zstd decoding yields on the given bytes.
pub uninterp spec fn zstd_plain(data: Seq<u8>) -> Option<Seq<u8>>;

/// What lz4 frame decoding yields on the given bytes.
pub uninterp spec fn lz4_plain(data: Seq<u8>) -> Option<Seq<u8>>;

/// Relies on bzip2's `MultiBzDecoder`: decodes all concatenated streams;
/// the outcome is a function of the input bytes alone.
#[verifier::external_body]
fn bz2_decode(data: &[u8]) -> (r: Option<Vec<u8>>)
    ensures
        match r {
            Some(v) => bz2_plain(data@) == Some(v@),
            None => bz2_plain(data@) is None,
        },
{
    let mut d = bzip2::bufread::MultiBzDecoder::new(data);
    let mut out: Vec<u8> = Vec::new();
    match d.read_to_end(&mut out) {
        Ok(_) => Some(out),
        Err(_) => None,
    }
}

/// Relies on flate2's `MultiGzDecoder`: decodes all gzip members; the
/// outcome is a function of the input bytes alone.
#[verifier::external_body]
fn gzip_decode(data: &[u8]) -> (r: Option<Vec<u8>>)
    ensures
        match r {
            Some(v) => gzip_plain(data@) == Some(v@),
            None => gzip_plain(data@) is None,
        },
{
    let mut d = flate2::bufread::MultiGzDecoder::new(data);
    let mut out: Vec<u8> = Vec::new();
    match d.read_to_end(&mut out) {
        Ok(_) => Some(out),
        Err(_) => None,
    }
}

/// Relies on liblzma's `XzDecoder`: decodes an xz/lzma stream; the outcome
/// is a function of the input bytes alone.
#[verifier::external_body]
fn xz_decode(data: &[u8]) -> (r: Option<Vec<u8>>)
    ensures
        match r {
            Some(v) => xz_plain(data@) == Some(v@),
            None => xz_plain(data@) is None,
        },
{
    let mut d = liblzma::bufread::XzDecoder::new(data);
    let mut out: Vec<u8> = Vec::new();
    match d.read_to_end(&mut out) {
        Ok(_) => Some(out),
        Err(_) => None,
    }
}

/// Relies on zstd's streaming `Decoder`: decodes a zstd stream; the outcome
/// is a function of the input bytes alone.
#[verifier::external_body]
fn zstd_decode(data: &[u8]) -> (r: Option<Vec<u8>>)
    ensures
        match r {
            Some(v) => zstd_plain(data@) == Some(v@),
            None => zstd_plain(data@) is None,
        },
{
    let mut d = match zstd::stream::read::Decoder::with_buffer(data) {
        Ok(d) => d,
        Err(_) => return None,
    };
    let mut out: Vec<u8> = Vec::new();
    match d.read_to_end(&mut out) {
        Ok(_) => Some(out),
        Err(_) => None,
    }
}

/// Relies on lz4_flex's `FrameDecoder`: decodes an lz4 frame stream; the
/// outcome is a function of the input bytes alone.
#[verifier::external_body]
fn lz4_decode(data: &[u8]) -> (r: Option<Vec<u8>>)
    ensures
        match r {
            Some(v) => lz4_plain(data@) == Some(v@),
            None => lz4_plain(data@) is None,
        },
{
    let mut d = lz4_flex::frame::FrameDecoder::new(data);
    let mut out: Vec<u8> = Vec::new();
    match d.read_to_end(&mut out) {
        Ok(_) => Some(out),
        Err(_) => None,
    }
}

/// Raw pass-through for uncompressed images.
#[derive(Clone, Copy, Debug, PartialEq, Eq, Structural)]
pub struct Direct {}

/// bzip2 multi-stream decoding.
#[derive(Clone, Copy, Debug, PartialEq, Eq, Structural)]
pub struct BZ2 {}

/// xz/lzma decoding.
#[derive(Clone, Copy, Debug, PartialEq, Eq, Structural)]
pub struct XZ {}

/// gzip multi-member decoding.
#[derive(Clone, Copy, Debug, PartialEq, Eq, Structural)]
pub struct GZIP {}

/// zstd decoding.
#[derive(Clone, Copy, Debug, PartialEq, Eq, Structural)]
pub struct ZSTD {}

/// lz4 frame decoding.
#[derive(Clone, Copy, Debug, PartialEq, Eq, Structural)]
pub struct LZ4 {}

/// One selected codec: the closed set of decompressor variants.
#[derive(Clone, Copy, Debug, PartialEq, Eq, Structural)]
pub enum Codec {
    Direct(Direct),
    Bz2(BZ2),
    Gzip(GZIP),
    Xz(XZ),
    Zstd(ZSTD),
    Lz4(LZ4),
}

impl Direct {
    /// The raw variant, as the registry hands it out.
    pub fn init() -> (c: Codec)
        ensures
            c == Codec::Direct(Direct {  }),
    {
        Codec::Direct(Direct {  })
    }
}

impl BZ2 {
    /// The bzip2 variant, as the registry hands it out.
    pub fn init() -> (c: Codec)
        ensures
            c == Codec::Bz2(BZ2 {  }),
    {
        Codec::Bz2(BZ2 {  })
    }
}

impl XZ {
    /// The xz/lzma variant, as the registry hands it out.
    pub fn init() -> (c: Codec)
        ensures
            c == Codec::Xz(XZ {  }),
    {
        Codec::Xz(XZ {  })
    }
}

impl GZIP {
    /// The gzip variant, as the registry hands it out.
    pub fn init() -> (c: Codec)
        ensures
            c == Codec::Gzip(GZIP {  }),
    {
        Codec::Gzip(GZIP {  })
    }
}

impl ZSTD {
    /// The zstd variant, as the registry hands it out.
    pub fn init() -> (c: Codec)
        ensures
            c == Codec::Zstd(ZSTD {  }),
    {
        Codec::Zstd(ZSTD {  })
    }
}

impl LZ4 {
    /// The lz4 variant, as the registry hands it out.
    pub fn init() -> (c: Codec)
        ensures
            c == Codec::Lz4(LZ4 {  }),
    {
        Codec::Lz4(LZ4 {  })
    }
}

/// What the chosen codec's stream decodes to: the raw variant passes the
/// bytes through, every other variant is its named outside decoding.
pub open spec fn spec_decoded(c: Codec, data: Seq<u8>) -> Option<Seq<u8>> {
    match c {
        Codec::Direct(_) => Some(data),
        Codec::Bz2(_) => bz2_plain(data),
        Codec::Gzip(_) => gzip_plain(data),
        Codec::Xz(_) => xz_plain(data),
        Codec::Zstd(_) => zstd_plain(data),
        Codec::Lz4(_) => lz4_plain(data),
    }
}

/// A decompressed image carries the legacy boot-sector signature when bytes
/// 510 and 511 are 0x55, 0xAA.
pub open spec fn spec_has_signature(plain: Seq<u8>) -> bool {
    plain.len() >= 512 && plain[510] == 0x55 && plain[511] == 0xaa
}

/// What the pre-scan found: the decompressed length, its SHA-256 digest,
/// and whether the boot-sector signature was present.
#[derive(Debug)]
pub struct ScanReport {
    pub length: usize,
    pub checksum: [u8; 32],
    pub signature_ok: bool,
}

impl Codec {
    /// Opens the codec's stream over the compressed bytes and decodes it to
    /// exhaustion.
    pub fn open_bytes(&self, data: &Vec<u8>) -> (r: Result<Vec<u8>, FlashError>)
        ensures
            match r {
                Ok(v) => spec_decoded(*self, data@) == Some(v@),
                Err(e) => spec_decoded(*self, data@) is None && e == FlashError::CorruptStream,
            },
    {
        let out = match self {
            Codec::Direct(_) => Some(slice_to_vec(data.as_slice())),
            Codec::Bz2(_) => bz2_decode(data.as_slice()),
            Codec::Gzip(_) => gzip_decode(data.as_slice()),
            Codec::Xz(_) => xz_decode(data.as_slice()),
            Codec::Zstd(_) => zstd_decode(data.as_slice()),
            Codec::Lz4(_) => lz4_decode(data.as_slice()),
        };
        match out {
            Some(v) => Ok(v),
            None => Err(FlashError::CorruptStream),
        }
    }

    /// The human-readable label of the codec.
    pub fn get_name(&self) -> (s: &'static str)
        ensures
            s@ == spec_codec_name(*self),
    {
        match self {
            Codec::Direct(_) => "uncompressed",
            Codec::Bz2(_) => "compressed with BZIP2",
            Codec::Gzip(_) => "compressed with GZIP",
            Codec::Xz(_) => "compressed with XZ/LZMA",
            Codec::Zstd(_) => "compressed with ZSTD",
            Codec::Lz4(_) => "compressed with LZ4",
        }
    }

    /// The pre-scan: decodes the stream, checks the boot-sector signature
    /// over the first 512 bytes, and digests the whole decompressed content.
    /// The reported length is exactly the number of bytes the stream
    /// produces when read to exhaustion.
    pub fn get_size_sum(&self, data: &Vec<u8>) -> (r: Result<ScanReport, FlashError>)
        ensures
            spec_decoded(*self, data@) is None ==> r == Err::<ScanReport, FlashError>(
                FlashError::CorruptStream,
            ),
            (match spec_decoded(*self, data@) {
                Some(p) => p.len() < 512 ==> r == Err::<ScanReport, FlashError>(
                    FlashError::ShortImage,
                ),
                None => true,
            }),
            (match spec_decoded(*self, data@) {
                Some(p) => p.len() >= 512 ==> (r matches Ok(rep) && rep.length == p.len()
                    && rep.checksum@ == sha256_of(p) && (rep.signature_ok
                    <==> spec_has_signature(p))),
                None => true,
            }),
    {
        let plain = self.open_bytes(data)?;
        scan_bytes(&plain)
    }
}

/// The label of each codec variant.
pub open spec fn spec_codec_name(c: Codec) -> Seq<char> {
    match c {
        Codec::Direct(_) => "uncompressed"@,
        Codec::Bz2(_) => "compressed with BZIP2"@,
        Codec::Gzip(_) => "compressed with GZIP"@,
        Codec::Xz(_) => "compressed with XZ/LZMA"@,
        Codec::Zstd(_) => "compressed with ZSTD"@,
        Codec::Lz4(_) => "compressed with LZ4"@,
    }
}

/// Scans decompressed content: rejects anything shorter than one boot
/// sector, reports the exact length, the SHA-256 digest, and whether the
/// boot-sector signature is present.
pub fn scan_bytes(plain: &Vec<u8>) -> (r: Result<ScanReport, FlashError>)
    ensures
        r is Ok <==> plain@.len() >= 512,
        r is Err ==> r->Err_0 == FlashError::ShortImage,
        r matches Ok(rep) ==> rep.length == plain@.len() && rep.checksum@ == sha256_of(plain@)
            && (rep.signature_ok <==> spec_has_signature(plain@)),
{
    if plain.len() < 512 {
        return Err(FlashError::ShortImage);
    }
    let signature_ok = *vstd::slice::slice_index_get(plain.as_slice(), 510) == 0x55u8
        && *vstd::slice::slice_index_get(plain.as_slice(), 511) == 0xaau8;
    let checksum = sha256(plain.as_slice());
    Ok(ScanReport { length: plain.len(), checksum, signature_ok })
}

/// Resolves the ambiguous-format decision: a signed image goes through; an
/// unsigned one goes through only when the caller chose to continue, and is
/// otherwise rejected as badly formatted.
pub fn accept_scan(rep: &ScanReport, continue_unsigned: bool) -> (r: Result<
    (usize, [u8; 32]),
    FlashError,
>)
    ensures
        rep.signature_ok || continue_unsigned ==> (r matches Ok(p) && p.0 == rep.length && p.1
            == rep.checksum),
        !rep.signature_ok && !continue_unsigned ==> r == Err::<(usize, [u8; 32]), FlashError>(
            FlashError::BadImageFormat,
        ),
{
    if rep.signature_ok || continue_unsigned {
        Ok((rep.length, rep.checksum))
    } else {
        Err(FlashError::BadImageFormat)
    }
}

/// An ASCII lowercase letter folded to uppercase; every other character is
/// left alone.
pub open spec fn spec_upper(c: char) -> char {
    if c == 'a' { 'A' }
    else if c == 'b' { 'B' }
    else if c == 'c' { 'C' }
    else if c == 'd' { 'D' }
    else if c == 'e' { 'E' }
    else if c == 'f' { 'F' }
    else if c == 'g' { 'G' }
    else if c == 'h' { 'H' }
    else if c == 'i' { 'I' }
    else if c == 'j' { 'J' }
    else if c == 'k' { 'K' }
    else if c == 'l' { 'L' }
    else if c == 'm' { 'M' }
    else if c == 'n' { 'N' }
    else if c == 'o' { 'O' }
    else if c == 'p' { 'P' }
    else if c == 'q' { 'Q' }
    else if c == 'r' { 'R' }
    else if c == 's' { 'S' }
    else if c == 't' { 'T' }
    else if c == 'u' { 'U' }
    else if c == 'v' { 'V' }
    else if c == 'w' { 'W' }
    else if c == 'x' { 'X' }
    else if c == 'y' { 'Y' }
    else if c == 'z' { 'Z' }
    else { c }
}

/// A whole extension folded to uppercase.
pub open spec fn spec_upper_seq(s: Seq<char>) -> Seq<char> {
    s.map_values(|c: char| spec_upper(c))
}

/// Which codec an extension token selects, before case folding.
pub open spec fn spec_codec_for(ext: Seq<char>) -> Option<Codec> {
    let u = spec_upper_seq(ext);
    if u == "ISO"@ || u == "FS"@ || u == "IMG"@ || u == "IMA"@ || u == "DD"@ || u == "BIN"@
        || u == "RAW"@ {
        Some(Codec::Direct(Direct {  }))
    } else if u == "BZ2"@ || u == "BZIP2"@ {
        Some(Codec::Bz2(BZ2 {  }))
    } else if u == "GZ"@ || u == "GZIP"@ {
        Some(Codec::Gzip(GZIP {  }))
    } else if u == "XZ"@ || u == "LZMA"@ || u == "PIXZ"@ {
        Some(Codec::Xz(XZ {  }))
    } else if u == "ZST"@ || u == "ZSTD"@ {
        Some(Codec::Zstd(ZSTD {  }))
    } else if u == "LZ4"@ {
        Some(Codec::Lz4(LZ4 {  }))
    } else {
        None
    }
}

/// One character folded to uppercase, matching `spec_upper`.
fn upper_char(c: char) -> (r: char)
    ensures
        r == spec_upper(c),
{
    match c {
        'a' => 'A',
        'b' => 'B',
        'c' => 'C',
        'd' => 'D',
        'e' => 'E',
        'f' => 'F',
        'g' => 'G',
        'h' => 'H',
        'i' => 'I',
        'j' => 'J',
        'k' => 'K',
        'l' => 'L',
        'm' => 'M',
        'n' => 'N',
        'o' => 'O',
        'p' => 'P',
        'q' => 'Q',
        'r' => 'R',
        's' => 'S',
        't' => 'T',
        'u' => 'U',
        'v' => 'V',
        'w' => 'W',
        'x' => 'X',
        'y' => 'Y',
        'z' => 'Z',
        _ => c,
    }
}

/// The extension folded to uppercase, character by character.
fn to_upper_chars(ext: &str) -> (v: Vec<char>)
    ensures
        v@ == spec_upper_seq(ext@),
{
    let n = ext.unicode_len();
    let mut v: Vec<char> = Vec::new();
    let mut i: usize = 0;
    while i < n
        invariant
            i <= n,
            n == ext@.len(),
            v@.len() == i,
            forall|j: int| 0 <= j < i ==> v@[j] == spec_upper(ext@[j]),
        decreases n - i,
    {
        v.push(upper_char(ext.get_char(i)));
        i += 1;
    }
    proof {
        assert(v@ =~= spec_upper_seq(ext@));
    }
    v
}

/// Whether the collected characters spell exactly the given token.
fn chars_eq(v: &Vec<char>, token: &str) -> (r: bool)
    ensures
        r <==> v@ == token@,
{
    let n = token.unicode_len();
    if v.len() != n {
        return false;
    }
    let mut i: usize = 0;
    while i < n
        invariant
            i <= n,
            n == token@.len(),
            v@.len() == n,
            forall|j: int| 0 <= j < i ==> v@[j] == token@[j],
        decreases n - i,
    {
        if v[i] != token.get_char(i) {
            assert(v@[i as int] != token@[i as int]);
            return false;
        }
        i += 1;
    }
    proof {
        assert(v@ =~= token@);
    }
    true
}

/// Resolves a file extension, case-insensitively, to its codec; an
/// unrecognized extension is a configuration error.
pub fn by_ext(ext: &str) -> (r: Result<Codec, FlashError>)
    ensures
        (match spec_codec_for(ext@) {
            Some(c) => r == Ok::<Codec, FlashError>(c),
            None => r == Err::<Codec, FlashError>(FlashError::UnsupportedFormat),
        }),
{
    let u = to_upper_chars(ext);
    if chars_eq(&u, "ISO") || chars_eq(&u, "FS") || chars_eq(&u, "IMG") || chars_eq(&u, "IMA")
        || chars_eq(&u, "DD") || chars_eq(&u, "BIN") || chars_eq(&u, "RAW") {
        Ok(Direct::init())
    } else if chars_eq(&u, "BZ2") || chars_eq(&u, "BZIP2") {
        Ok(BZ2::init())
    } else if chars_eq(&u, "GZ") || chars_eq(&u, "GZIP") {
        Ok(GZIP::init())
    } else if chars_eq(&u, "XZ") || chars_eq(&u, "LZMA") || chars_eq(&u, "PIXZ") {
        Ok(XZ::init())
    } else if chars_eq(&u, "ZST") || chars_eq(&u, "ZSTD") {
        Ok(ZSTD::init())
    } else if chars_eq(&u, "LZ4") {
        Ok(LZ4::init())
    } else {
        Err(FlashError::UnsupportedFormat)
    }
}

} // verus!
