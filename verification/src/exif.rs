//! The tag embedder: writing descriptive fields into the image's embedded
//! metadata container, and reading them back.
//!
//! The container encoding is little_exif's job; this module declares its
//! `Metadata` type and wraps the calls the library makes. What a metadata
//! object holds, and what reading a buffer back yields, are modelled by the
//! uninterpreted `meta_tags` and `embedded_tags`. Before handing a buffer to
//! the encoder, the verified `embed_tags` checks that the buffer is a
//! well-formed sequence of image segments, so that the encoder can only
//! succeed or report an error, and rejects oversized field sets that could
//! not fit the container's 64 KiB metadata segment.

use vstd::prelude::*;
use crate::error::ApodError;
use crate::picture::DailyPicture;

verus! {

#[verifier::external_type_specification]
#[verifier::external_body]
pub struct ExMetadata(little_exif::metadata::Metadata);

/// The three descriptive fields this library embeds: the image description,
/// the creation date, and the optional copyright holder.
pub struct TagSet {
    pub description: Option<Seq<char>>,
    pub create_date: Option<Seq<char>>,
    pub copyright: Option<Seq<char>>,
}

/// The three fields held by a metadata object.
pub uninterp spec fn meta_tags(m: little_exif::metadata::Metadata) -> TagSet;

/// The three fields that reading the buffer's embedded metadata back
/// yields. A function of the bytes alone.
pub uninterp spec fn embedded_tags(image: Seq<u8>) -> TagSet;

/// The container trims trailing NUL characters when reading a string field
/// back, so the round trip is exact only for values that do not end in one.
pub open spec fn value_clean(v: Option<Seq<char>>) -> bool {
    match v {
        Some(s) => s.len() == 0 || s.last() != '\0',
        None => true,
    }
}

/// Every field of the set reads back exactly as written.
pub open spec fn tagset_clean(t: TagSet) -> bool {
    value_clean(t.description) && value_clean(t.create_date) && value_clean(t.copyright)
}

/// The picture's field values are small enough for the encoded metadata to
/// fit its 64 KiB container segment.
pub open spec fn fields_fit(p: DailyPicture) -> bool {
    &&& p.explanation@.len() <= 4000
    &&& p.date@.len() <= 2000
    &&& match p.copyright {
        Some(c) => c@.len() <= 4000,
        None => true,
    }
}

/// The fields this pipeline embeds for one day's picture: the description
/// from `explanation`, the creation date from `date`, and the copyright
/// holder only when present.
pub open spec fn wanted_tags(p: DailyPicture) -> TagSet {
    TagSet {
        description: Some(p.explanation@),
        create_date: Some(p.date@),
        copyright: match p.copyright {
            Some(c) => Some(c@),
            None => None,
        },
    }
}

/// The 16-bit big-endian length field at position `i`.
pub open spec fn be16(b: Seq<u8>, i: int) -> int {
    b[i] * 256 + b[i + 1]
}

/// The encoder walks a buffer byte-wise, looking for `0xff` marker pairs;
/// inside an entropy-coded scan (`in_scan`) a `0xff` followed by a stuffing
/// zero or a restart marker is data and the scan goes on. At every marker
/// it reads a 16-bit segment length and skips that far; an end-of-image
/// marker or running off the end stops the walk (a failed read is an error,
/// not a panic). The one value the walk must never meet is a declared
/// segment length under 2, which the encoder subtracts from: `walk_ok`
/// accepts exactly the walks that never read such a length.
pub open spec fn walk_ok(b: Seq<u8>, i: int, in_scan: bool) -> bool
    decreases b.len() - i,
{
    if i + 1 >= b.len() {
        true
    } else if b[i] != 0xff {
        walk_ok(b, i + 1, in_scan)
    } else if in_scan && (b[i + 1] == 0x00 || (0xd0 <= b[i + 1] <= 0xd7)) {
        walk_ok(b, i + 2, true)
    } else if b[i + 1] == 0xd9 {
        true
    } else if i + 3 >= b.len() {
        true
    } else {
        let l = be16(b, i + 2);
        &&& l >= 2
        &&& if i + 2 + l >= b.len() {
            true
        } else {
            walk_ok(b, i + 2 + l, b[i + 1] == 0xda)
        }
    }
}

/// A buffer the encoder accepts without misreading a segment length: the
/// image signature, and a walk of the segments that never meets a declared
/// length under 2.
pub open spec fn jpeg_ok(b: Seq<u8>) -> bool {
    b.len() >= 2 && b[0] == 0xff && b[1] == 0xd8 && walk_ok(b, 2, false)
}

/// Decides `walk_ok`.
fn check_walk(b: &Vec<u8>, i: usize, in_scan: bool) -> (r: bool)
    requires
        i <= b@.len(),
    ensures
        r == walk_ok(b@, i as int, in_scan),
    decreases b@.len() - i,
{
    let n = b.len();
    if i >= n {
        return true;
    }
    if n - i < 2 {
        return true;
    }
    if b[i] != 0xff {
        return check_walk(b, i + 1, in_scan);
    }
    let m = b[i + 1];
    if in_scan && (m == 0x00 || (0xd0 <= m && m <= 0xd7)) {
        return check_walk(b, i + 2, true);
    }
    if m == 0xd9 {
        return true;
    }
    if n - i < 4 {
        return true;
    }
    let l = (b[i + 2] as usize) * 256 + (b[i + 3] as usize);
    if l < 2 {
        return false;
    }
    if l >= n - (i + 2) {
        return true;
    }
    check_walk(b, i + 2 + l, m == 0xda)
}

/// Decides `jpeg_ok`.
pub fn check_jpeg(b: &Vec<u8>) -> (r: bool)
    ensures
        r == jpeg_ok(b@),
{
    if b.len() < 2 {
        return false;
    }
    if b[0] != 0xff || b[1] != 0xd8 {
        return false;
    }
    check_walk(b, 2, false)
}

/// Whether the container codec accepts the buffer: whether clearing its
/// old metadata segment succeeds, which is all that can fail when a fresh,
/// bounded field set is encoded into it. A function of the bytes alone.
pub uninterp spec fn encoder_accepts(b: Seq<u8>) -> bool;

/// The buffers the reader is known to decode without fault: exactly what a
/// successful embedding leaves behind. Established only by the writer's
/// ensures; a function of the bytes alone.
pub uninterp spec fn readable(b: Seq<u8>) -> bool;

/// The buffer's content outside its embedded-metadata segment. A function
/// of the bytes alone; the embedding replaces only the metadata segment and
/// keeps this.
pub uninterp spec fn payload_of(b: Seq<u8>) -> Seq<u8>;

/// The tag set built from three given field values.
pub open spec fn fields_tags(
    description: Seq<char>,
    date: Seq<char>,
    copyright: Option<Seq<char>>,
) -> TagSet {
    TagSet { description: Some(description), create_date: Some(date), copyright }
}

/// Relies on little_exif's Metadata::set_tag and Metadata::write_to_vec for
/// the JPEG container: a fresh metadata object holding exactly these fields
/// is encoded and replaces the buffer's old metadata segment; the rest of
/// the buffer is kept, and the result is again a well-formed, readable
/// image. Encoding a fresh object with bounded fields cannot itself fail,
/// so the call succeeds exactly when the codec accepts the buffer. The
/// preconditions keep the codec inside its segment-length arithmetic and
/// the 64 KiB segment size. On success the fields read back as written, up
/// to the trailing-NUL trimming that `tagset_clean` excludes.
#[verifier::external_body]
fn write_tags(
    description: &str,
    date: &str,
    copyright: Option<&str>,
    data: &mut Vec<u8>,
) -> (r: Result<(), ApodError>)
    requires
        jpeg_ok(old(data)@),
        description@.len() <= 4000,
        date@.len() <= 2000,
        (copyright matches Some(c) ==> c@.len() <= 4000),
    ensures
        r is Ok <==> encoder_accepts(old(data)@),
        r matches Err(e) ==> e == ApodError::EncodingError,
        ({
            let want = fields_tags(
                description@,
                date@,
                match copyright {
                    Some(c) => Some(c@),
                    None => None,
                },
            );
            r is Ok && tagset_clean(want) ==> embedded_tags(final(data)@) == want
        }),
        r is Ok ==> jpeg_ok(final(data)@) && readable(final(data)@) && payload_of(final(data)@)
            == payload_of(old(data)@),
{
    let mut m = little_exif::metadata::Metadata::new();
    m.set_tag(little_exif::exif_tag::ExifTag::ImageDescription(description.to_string()));
    m.set_tag(little_exif::exif_tag::ExifTag::CreateDate(date.to_string()));
    if let Some(c) = copyright {
        m.set_tag(little_exif::exif_tag::ExifTag::Copyright(c.to_string()));
    }
    match m.write_to_vec(data, little_exif::filetype::FileExtension::JPEG) {
        Ok(()) => Ok(()),
        Err(_) => Err(ApodError::EncodingError),
    }
}

/// Relies on little_exif's Metadata::new_from_vec for the JPEG container:
/// on a buffer that a successful embedding produced, reading succeeds and
/// the object holds the buffer's embedded fields.
#[verifier::external_body]
fn read_metadata(data: &Vec<u8>) -> (r: Option<little_exif::metadata::Metadata>)
    requires
        readable(data@),
    ensures
        r is Some,
        r matches Some(m) ==> meta_tags(m) == embedded_tags(data@),
{
    little_exif::metadata::Metadata::new_from_vec(
        data,
        little_exif::filetype::FileExtension::JPEG,
    ).ok()
}

/// Relies on little_exif's Metadata::get_tag: the first image-description
/// tag of the object, when one is set.
#[verifier::external_body]
fn get_description(m: &little_exif::metadata::Metadata) -> (r: Option<String>)
    ensures
        match r {
            Some(s) => meta_tags(*m).description == Some(s@),
            None => meta_tags(*m).description is None,
        },
{
    match m.get_tag(&little_exif::exif_tag::ExifTag::ImageDescription(String::new())).next() {
        Some(little_exif::exif_tag::ExifTag::ImageDescription(s)) => Some(s.clone()),
        _ => None,
    }
}

/// Relies on little_exif's Metadata::get_tag: the first creation-date tag
/// of the object, when one is set.
#[verifier::external_body]
fn get_create_date(m: &little_exif::metadata::Metadata) -> (r: Option<String>)
    ensures
        match r {
            Some(s) => meta_tags(*m).create_date == Some(s@),
            None => meta_tags(*m).create_date is None,
        },
{
    match m.get_tag(&little_exif::exif_tag::ExifTag::CreateDate(String::new())).next() {
        Some(little_exif::exif_tag::ExifTag::CreateDate(s)) => Some(s.clone()),
        _ => None,
    }
}

/// Relies on little_exif's Metadata::get_tag: the first copyright tag of
/// the object, when one is set.
#[verifier::external_body]
fn get_copyright(m: &little_exif::metadata::Metadata) -> (r: Option<String>)
    ensures
        match r {
            Some(s) => meta_tags(*m).copyright == Some(s@),
            None => meta_tags(*m).copyright is None,
        },
{
    match m.get_tag(&little_exif::exif_tag::ExifTag::Copyright(String::new())).next() {
        Some(little_exif::exif_tag::ExifTag::Copyright(s)) => Some(s.clone()),
        _ => None,
    }
}

/// Embeds the picture's fields into the image buffer: the description from
/// `explanation`, the creation date from `date`, and the copyright holder
/// only when present. Succeeds exactly when the buffer is a well-formed
/// image the codec accepts and the fields fit the metadata segment;
/// anything else is an `EncodingError`, and nothing else is. On success
/// only the metadata segment changed, the buffer is again a well-formed,
/// readable image, and its embedded fields read back exactly as the
/// picture gave them (for clean values), whatever fields the buffer held
/// before: a second application with the same picture overwrites rather
/// than duplicates, and yields the same fields.
pub fn embed_tags(picture: &DailyPicture, data: &mut Vec<u8>) -> (r: Result<(), ApodError>)
    ensures
        r is Ok <==> jpeg_ok(old(data)@) && fields_fit(*picture) && encoder_accepts(
            old(data)@,
        ),
        r matches Err(e) ==> e == ApodError::EncodingError,
        r is Ok && tagset_clean(wanted_tags(*picture)) ==> embedded_tags(final(data)@)
            == wanted_tags(*picture),
        r is Ok ==> jpeg_ok(final(data)@) && readable(final(data)@) && payload_of(final(data)@)
            == payload_of(old(data)@),
{
    if !check_jpeg(data) {
        return Err(ApodError::EncodingError);
    }
    let desc_len = picture.explanation.as_str().unicode_len();
    let date_len = picture.date.as_str().unicode_len();
    let copy_len = match &picture.copyright {
        Some(c) => c.as_str().unicode_len(),
        None => 0,
    };
    if desc_len > 4000 || date_len > 2000 || copy_len > 4000 {
        return Err(ApodError::EncodingError);
    }
    match &picture.copyright {
        Some(c) => write_tags(
            picture.explanation.as_str(),
            picture.date.as_str(),
            Some(c.as_str()),
            data,
        ),
        None => write_tags(picture.explanation.as_str(), picture.date.as_str(), None, data),
    }
}

/// The embedded fields of an image buffer, read back as owned strings.
pub struct EmbeddedTags {
    pub description: Option<String>,
    pub create_date: Option<String>,
    pub copyright: Option<String>,
}

/// The view of a read-back record.
pub open spec fn embedded_view(t: EmbeddedTags) -> TagSet {
    TagSet {
        description: match t.description {
            Some(s) => Some(s@),
            None => None,
        },
        create_date: match t.create_date {
            Some(s) => Some(s@),
            None => None,
        },
        copyright: match t.copyright {
            Some(s) => Some(s@),
            None => None,
        },
    }
}

/// Tag round trip: a buffer whose embedded fields are a picture's wanted
/// fields — what `embed_tags` establishes — reads back the picture's
/// explanation, date and copyright exactly, as `read_embedded` hands them
/// out. Since the embedded fields depend on the picture alone, a second
/// embedding with the same picture overwrites the first and reads back the
/// same.
pub proof fn lemma_embed_read_round_trip(p: DailyPicture, bytes: Seq<u8>, t: EmbeddedTags)
    requires
        embedded_tags(bytes) == wanted_tags(p),
        embedded_view(t) == embedded_tags(bytes),
    ensures
        ({
            &&& t.description matches Some(d)
            &&& d@ == p.explanation@
        }),
        ({
            &&& t.create_date matches Some(c)
            &&& c@ == p.date@
        }),
        match (t.copyright, p.copyright) {
            (Some(a), Some(b)) => a@ == b@,
            (None, None) => true,
            _ => false,
        },
{
}

/// Reads the three embedded fields back from a buffer that a successful
/// embedding produced — the only buffers the reader is known to decode
/// without fault. Reading succeeds, and the record holds exactly the
/// buffer's embedded fields.
pub fn read_embedded(data: &Vec<u8>) -> (r: Option<EmbeddedTags>)
    requires
        readable(data@),
    ensures
        r is Some,
        r matches Some(t) ==> embedded_view(t) == embedded_tags(data@),
{
    match read_metadata(data) {
        Some(m) => {
            let description = get_description(&m);
            let create_date = get_create_date(&m);
            let copyright = get_copyright(&m);
            Some(EmbeddedTags { description, create_date, copyright })
        },
        None => {
            proof {
                assert(false);
            }
            None
        },
    }
}

/// The whole tag round trip on one buffer: embeds the picture's fields and
/// reads them straight back. Succeeds exactly when the embedding does, and
/// then the fields read back are exactly what the picture gave (for clean
/// values), the buffer carries them embedded, and only its metadata
/// segment changed.
pub fn embed_and_read(picture: &DailyPicture, data: &mut Vec<u8>) -> (r: Result<
    EmbeddedTags,
    ApodError,
>)
    ensures
        r is Ok <==> jpeg_ok(old(data)@) && fields_fit(*picture) && encoder_accepts(
            old(data)@,
        ),
        r matches Err(e) ==> e == ApodError::EncodingError,
        tagset_clean(wanted_tags(*picture)) ==> (r matches Ok(t) ==> embedded_view(t)
            == wanted_tags(*picture) && embedded_tags(final(data)@) == wanted_tags(*picture)),
        r is Ok ==> jpeg_ok(final(data)@) && readable(final(data)@) && payload_of(final(data)@)
            == payload_of(old(data)@),
{
    match embed_tags(picture, data) {
        Err(e) => Err(e),
        Ok(()) => match read_embedded(data) {
            Some(t) => Ok(t),
            None => {
                proof {
                    assert(false);
                }
                Err(ApodError::EncodingError)
            },
        },
    }
}

} // verus!
