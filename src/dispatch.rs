use image::{DynamicImage, ImageError, ImageFormat};
use vstd::prelude::*;

verus! {

/// image's format tag, carried through to the general decoder.
#[verifier::external_type_specification]
#[verifier::external_body]
pub struct ExImageFormat(ImageFormat);

/// image's error, carried back to the caller.
#[verifier::external_type_specification]
#[verifier::external_body]
pub struct ExImageError(ImageError);

/// image's decoded image, handed back as the general decoder made it.
#[verifier::external_type_specification]
#[verifier::external_body]
pub struct ExDynamicImage(DynamicImage);

/// A container format, as far as the choice of decoder goes.
pub enum Format {
    /// The next-generation codec, decoded outside the general decoder.
    Avif,
    /// Any other format the general decoder knows.
    General(ImageFormat),
}

/// What loading a buffer comes to.
pub enum Loaded {
    /// The buffer is to be decoded by the next-generation decoder and its
    /// pixels normalized.
    NextGen,
    /// The general decoder's image, as it returned it.
    General(DynamicImage),
}

#[derive(Debug)]
pub enum LoadError {
    /// The content matched no known signature.
    UnknownFormat(ImageError),
    /// The general decoder failed on the sniffed format.
    Decode(ImageError),
}

/// The code of `c` after ASCII lowercasing.
pub open spec fn lower_code(c: char) -> int {
    if 65 <= c as int <= 90 {
        c as int + 32
    } else {
        c as int
    }
}

/// `s` lowercased as ASCII is `lower`.
pub open spec fn ascii_ci_eq(s: Seq<char>, lower: Seq<char>) -> bool {
    &&& s.len() == lower.len()
    &&& forall|i: int| 0 <= i < s.len() ==> lower_code(#[trigger] s[i]) == lower[i] as int
}

pub open spec fn avif_token() -> Seq<char> {
    seq!['a', 'v', 'i', 'f']
}

/// The extensions the general decoder maps to a format.
pub open spec fn known_extension(s: Seq<char>) -> bool {
    ||| ascii_ci_eq(s, avif_token())
    ||| ascii_ci_eq(s, seq!['j', 'p', 'g']) || ascii_ci_eq(s, seq!['j', 'p', 'e', 'g'])
    ||| ascii_ci_eq(s, seq!['p', 'n', 'g']) || ascii_ci_eq(s, seq!['g', 'i', 'f'])
    ||| ascii_ci_eq(s, seq!['w', 'e', 'b', 'p'])
    ||| ascii_ci_eq(s, seq!['t', 'i', 'f']) || ascii_ci_eq(s, seq!['t', 'i', 'f', 'f'])
    ||| ascii_ci_eq(s, seq!['t', 'g', 'a']) || ascii_ci_eq(s, seq!['d', 'd', 's'])
    ||| ascii_ci_eq(s, seq!['b', 'm', 'p']) || ascii_ci_eq(s, seq!['i', 'c', 'o'])
    ||| ascii_ci_eq(s, seq!['h', 'd', 'r']) || ascii_ci_eq(s, seq!['e', 'x', 'r'])
    ||| ascii_ci_eq(s, seq!['p', 'b', 'm']) || ascii_ci_eq(s, seq!['p', 'a', 'm'])
    ||| ascii_ci_eq(s, seq!['p', 'p', 'm']) || ascii_ci_eq(s, seq!['p', 'g', 'm'])
    ||| ascii_ci_eq(s, seq!['f', 'f']) || ascii_ci_eq(s, seq!['f', 'a', 'r', 'b', 'f', 'e', 'l', 'd'])
    ||| ascii_ci_eq(s, seq!['q', 'o', 'i'])
}

pub open spec fn starts_with(b: Seq<u8>, p: Seq<u8>) -> bool {
    p.len() <= b.len() && b.take(p.len() as int) == p
}

/// The two signatures of the next-generation container.
pub open spec fn avif_signature(b: Seq<u8>) -> bool {
    ||| starts_with(b, seq![0u8, 0, 0, 0x20, 0x66, 0x74, 0x79, 0x70, 0x61, 0x76, 0x69, 0x66])
    ||| starts_with(b, seq![0u8, 0, 0, 0x1c, 0x66, 0x74, 0x79, 0x70, 0x61, 0x76, 0x69, 0x66])
}

/// The signatures that content sniffing recognizes.
pub open spec fn known_signature(b: Seq<u8>) -> bool {
    ||| starts_with(b, seq![0x89u8, 0x50, 0x4e, 0x47, 0x0d, 0x0a, 0x1a, 0x0a])
    ||| starts_with(b, seq![0xffu8, 0xd8, 0xff])
    ||| starts_with(b, seq![0x47u8, 0x49, 0x46, 0x38, 0x39, 0x61])
    ||| starts_with(b, seq![0x47u8, 0x49, 0x46, 0x38, 0x37, 0x61])
    ||| starts_with(b, seq![0x52u8, 0x49, 0x46, 0x46])
    ||| starts_with(b, seq![0x4du8, 0x4d, 0x00, 0x2a])
    ||| starts_with(b, seq![0x49u8, 0x49, 0x2a, 0x00])
    ||| starts_with(b, seq![0x44u8, 0x44, 0x53, 0x20])
    ||| starts_with(b, seq![0x42u8, 0x4d])
    ||| starts_with(b, seq![0u8, 0, 1, 0])
    ||| starts_with(b, seq![0x23u8, 0x3f, 0x52, 0x41, 0x44, 0x49, 0x41, 0x4e, 0x43, 0x45])
    ||| (b.len() >= 2 && b[0] == 0x50 && 0x31 <= b[1] <= 0x37)
    ||| starts_with(b, seq![0x66u8, 0x61, 0x72, 0x62, 0x66, 0x65, 0x6c, 0x64])
    ||| avif_signature(b)
    ||| starts_with(b, seq![0x76u8, 0x2f, 0x31, 0x01])
    ||| starts_with(b, seq![0x71u8, 0x6f, 0x69, 0x66])
}

/// The format that image's extension table gives for `ext`.
pub uninterp spec fn extension_format(ext: Seq<char>) -> ImageFormat;

/// The format that image's signature table gives for `bin`.
pub uninterp spec fn sniffed_format(bin: Seq<u8>) -> ImageFormat;

/// Whether image's decoder succeeds on `bin` read as `format`.
pub uninterp spec fn decodes(bin: Seq<u8>, format: ImageFormat) -> bool;

/// Relies on image::ImageFormat::from_extension: it lowercases the extension
/// as ASCII and looks it up in a fixed table, where only "avif" gives Avif;
/// the result depends on the extension alone.
#[verifier::external_body]
fn format_from_extension(ext: &str) -> (r: Option<Format>)
    ensures
        r is Some <==> known_extension(ext@),
        r matches Some(Format::Avif) <==> ascii_ci_eq(ext@, avif_token()),
        r matches Some(Format::General(f)) ==> f == extension_format(ext@),
{
    match ImageFormat::from_extension(ext) {
        Some(ImageFormat::Avif) => Some(Format::Avif),
        Some(f) => Some(Format::General(f)),
        None => None,
    }
}

/// Relies on image::guess_format: the first signature of its table that the
/// buffer starts with gives the format; no match is an error. The result
/// depends on the bytes alone.
#[verifier::external_body]
fn guess_format(bin: &[u8]) -> (r: Result<Format, ImageError>)
    ensures
        r is Ok <==> known_signature(bin@),
        r matches Ok(Format::Avif) <==> avif_signature(bin@),
        r matches Ok(Format::General(f)) ==> f == sniffed_format(bin@),
{
    match image::guess_format(bin) {
        Ok(ImageFormat::Avif) => Ok(Format::Avif),
        Ok(f) => Ok(Format::General(f)),
        Err(e) => Err(e),
    }
}

/// Relies on image::load_from_memory_with_format to decode the buffer as the
/// given format; whether it succeeds depends on the bytes and format alone.
#[verifier::external_body]
fn decode_with_format(bin: &[u8], format: ImageFormat) -> (r: Result<DynamicImage, ImageError>)
    ensures
        r is Ok <==> decodes(bin@, format),
{
    image::load_from_memory_with_format(bin, format)
}

/// The hint names the next-generation format, in any ASCII case.
pub open spec fn hint_is_next_gen(ext: Option<&str>) -> bool {
    ext is Some && ascii_ci_eq(ext->0@, avif_token())
}

/// The hint names another format that the general decoder knows.
pub open spec fn hint_is_general(ext: Option<&str>) -> bool {
    ext is Some && known_extension(ext->0@) && !ascii_ci_eq(ext->0@, avif_token())
}

/// What the sniffing step returns for `bin`: an error when no signature
/// matches, the next-generation path on its signature, and otherwise the
/// general decoder's image when it decodes the sniffed format, its error when
/// it does not.
pub open spec fn sniff_outcome(bin: Seq<u8>, r: Result<Loaded, LoadError>) -> bool {
    if !known_signature(bin) {
        r matches Err(LoadError::UnknownFormat(_))
    } else if avif_signature(bin) {
        r matches Ok(Loaded::NextGen)
    } else if decodes(bin, sniffed_format(bin)) {
        r matches Ok(Loaded::General(_))
    } else {
        r matches Err(LoadError::Decode(_))
    }
}

proof fn lemma_byte_ci(c: char, x: u8, l: u8)
    requires
        c as int <= 0x7f,
        x as int == c as int,
        97 <= l <= 122,
    ensures
        (lower_code(c) == l as int) <==> (x == l || x as int == l - 32),
{
}

/// Whether `ext` is the next-generation extension, ignoring ASCII case.
pub fn is_next_gen_extension(ext: &str) -> (r: bool)
    ensures
        r == ascii_ci_eq(ext@, avif_token()),
{
    if !ext.is_ascii() {
        proof {
            if ascii_ci_eq(ext@, avif_token()) {
                assert forall|i: int| 0 <= i < ext@.len() implies '\0' <= #[trigger] ext@[i]
                    <= '\u{7f}' by {
                    assert(lower_code(ext@[i]) == avif_token()[i] as int);
                }
                assert(vstd::utf8::is_ascii_chars(ext@));
            }
        }
        return false;
    }
    let b = ext.as_bytes();
    proof {
        vstd::string::is_ascii_spec_bytes(ext);
        assert(ext@.len() == b@.len());
    }
    if b.len() != 4 {
        return false;
    }
    proof {
        assert forall|i: int| 0 <= i < 4 implies ext@[i] as int <= 0x7f && b@[i] as int
            == ext@[i] as int by {
            assert('\0' <= ext@[i] <= '\u{7f}');
        }
        lemma_byte_ci(ext@[0], b@[0], 97);
        lemma_byte_ci(ext@[1], b@[1], 118);
        lemma_byte_ci(ext@[2], b@[2], 105);
        lemma_byte_ci(ext@[3], b@[3], 102);
    }
    let r = (b[0] == 97 || b[0] == 65) && (b[1] == 118 || b[1] == 86) && (b[2] == 105 || b[2]
        == 73) && (b[3] == 102 || b[3] == 70);
    proof {
        if r {
            assert forall|i: int| 0 <= i < 4 implies lower_code(#[trigger] ext@[i])
                == avif_token()[i] as int by {}
        }
        if ascii_ci_eq(ext@, avif_token()) {
            assert(lower_code(ext@[0]) == avif_token()[0] as int);
            assert(lower_code(ext@[1]) == avif_token()[1] as int);
            assert(lower_code(ext@[2]) == avif_token()[2] as int);
            assert(lower_code(ext@[3]) == avif_token()[3] as int);
        }
    }
    r
}

/// The last step on the sniffed general format: the decoder's image is
/// returned unchanged, and its failure is the call's failure.
pub fn finish_sniffed(attempt: Result<DynamicImage, ImageError>) -> (r: Result<Loaded, LoadError>)
    ensures
        attempt is Ok ==> r == Ok::<Loaded, LoadError>(Loaded::General(attempt->Ok_0)),
        attempt is Err ==> r == Err::<Loaded, LoadError>(LoadError::Decode(attempt->Err_0)),
{
    match attempt {
        Ok(img) => Ok(Loaded::General(img)),
        Err(e) => Err(LoadError::Decode(e)),
    }
}

/// Decides by the content alone.
pub fn load_sniffed(bin: &[u8]) -> (r: Result<Loaded, LoadError>)
    ensures
        sniff_outcome(bin@, r),
{
    match guess_format(bin) {
        Err(e) => Err(LoadError::UnknownFormat(e)),
        Ok(Format::Avif) => Ok(Loaded::NextGen),
        Ok(Format::General(f)) => finish_sniffed(decode_with_format(bin, f)),
    }
}

/// After a decode by the hinted format: its image is returned unchanged; its
/// failure is dropped and the content decides.
pub fn resolve_hint_attempt(attempt: Result<DynamicImage, ImageError>, bin: &[u8]) -> (r: Result<
    Loaded,
    LoadError,
>)
    ensures
        attempt is Ok ==> r == Ok::<Loaded, LoadError>(Loaded::General(attempt->Ok_0)),
        attempt is Err ==> sniff_outcome(bin@, r),
{
    match attempt {
        Ok(img) => Ok(Loaded::General(img)),
        Err(_) => load_sniffed(bin),
    }
}

/// The hint names another known format and the decoder succeeds on it.
pub open spec fn hint_decodes(ext: Option<&str>, bin: Seq<u8>) -> bool {
    hint_is_general(ext) && decodes(bin, extension_format(ext->0@))
}

/// What loading `bin` under the hint `ext` returns: a next-generation hint
/// gives the next-generation path; a hint of another known format on which
/// the decoder succeeds gives that image; in every other case the content
/// decides.
pub open spec fn load_outcome(ext: Option<&str>, bin: Seq<u8>, r: Result<Loaded, LoadError>) -> bool {
    if hint_is_next_gen(ext) {
        r matches Ok(Loaded::NextGen)
    } else if hint_decodes(ext, bin) {
        r matches Ok(Loaded::General(_))
    } else {
        sniff_outcome(bin, r)
    }
}

/// The two results agree in kind: both the next-generation path, both a
/// general image, both an unknown format or both a decode failure.
pub open spec fn same_kind(a: Result<Loaded, LoadError>, b: Result<Loaded, LoadError>) -> bool {
    &&& (a matches Ok(Loaded::NextGen)) == (b matches Ok(Loaded::NextGen))
    &&& (a matches Ok(Loaded::General(_))) == (b matches Ok(Loaded::General(_)))
    &&& (a matches Err(LoadError::UnknownFormat(_))) == (b matches Err(
        LoadError::UnknownFormat(_),
    ))
    &&& (a matches Err(LoadError::Decode(_))) == (b matches Err(LoadError::Decode(_)))
}

/// A hint that is unknown, or whose format fails to decode, changes nothing:
/// the result is of the same kind as with no hint.
pub proof fn lemma_failed_hint_is_ignored(
    ext: Option<&str>,
    bin: Seq<u8>,
    r: Result<Loaded, LoadError>,
    r_none: Result<Loaded, LoadError>,
)
    requires
        !hint_is_next_gen(ext),
        !hint_decodes(ext, bin),
        load_outcome(ext, bin, r),
        load_outcome(None, bin, r_none),
    ensures
        same_kind(r, r_none),
{
}

/// Loading depends on the hint and the bytes alone: two loads of the same
/// input give results of the same kind.
pub proof fn lemma_load_repeatable(
    ext: Option<&str>,
    bin: Seq<u8>,
    a: Result<Loaded, LoadError>,
    b: Result<Loaded, LoadError>,
)
    requires
        load_outcome(ext, bin, a),
        load_outcome(ext, bin, b),
    ensures
        same_kind(a, b),
{
}

/// A next-generation hint, in any case, takes the next-generation path
/// whatever the content; with no hint, the content's signature takes it.
pub proof fn lemma_next_gen_dispatch(ext: Option<&str>, bin: Seq<u8>, r: Result<Loaded, LoadError>)
    requires
        load_outcome(ext, bin, r),
    ensures
        hint_is_next_gen(ext) ==> r matches Ok(Loaded::NextGen),
        ext is None && avif_signature(bin) ==> r matches Ok(Loaded::NextGen),
{
}

/// Chooses the decoder for `bin`: a next-generation hint decides at once, a
/// hint of another known format is tried first, and the content decides the
/// rest.
pub fn load_image(ext: Option<&str>, bin: &[u8]) -> (r: Result<Loaded, LoadError>)
    ensures
        load_outcome(ext, bin@, r),
{
    if let Some(ext) = ext {
        if is_next_gen_extension(ext) {
            return Ok(Loaded::NextGen);
        }
        match format_from_extension(ext) {
            Some(Format::Avif) => {
                return Ok(Loaded::NextGen);
            },
            Some(Format::General(f)) => {
                return resolve_hint_attempt(decode_with_format(bin, f), bin);
            },
            None => {},
        }
    }
    load_sniffed(bin)
}

} // verus!
