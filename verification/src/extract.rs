//! Metadata extraction for one file: the filesystem-derived fields are
//! load-bearing and always present; the decoded and embedded fields are
//! best-effort, each read independently from the file's bytes.

use vstd::prelude::*;
use crate::enrich;
use crate::filter;
use crate::record::{EnrichmentError, ExtractionError, ImageMetadata, MetaView};

verus! {

/// The pixel dimensions the image decoder reads out of these bytes; `None`
/// when the bytes do not decode as an image.
pub uninterp spec fn dimensions_of(b: Seq<u8>) -> Option<(u32, u32)>;

/// Relies on `image::load_from_memory` and `GenericImageView::dimensions`:
/// the decode works on the given bytes alone.
#[verifier::external_body]
fn decode_dimensions(b: &Vec<u8>) -> (r: Option<(u32, u32)>)
    ensures
        r == dimensions_of(b@),
{
    match image::load_from_memory(b) {
        Ok(img) => Some(image::GenericImageView::dimensions(&img)),
        Err(_) => None,
    }
}

/// The name of the container format that content sniffing recognizes in
/// these bytes; `None` when no format is recognized.
pub uninterp spec fn format_name_of(b: Seq<u8>) -> Option<Seq<char>>;

/// Relies on `image::guess_format`, which sniffs the leading magic bytes
/// alone; the stored name is the format's debug name.
#[verifier::external_body]
fn sniff_format(b: &Vec<u8>) -> (r: Option<String>)
    ensures
        (r is Some) == (format_name_of(b@) is Some),
        r matches Some(f) ==> format_name_of(b@) == Some(f@),
{
    match image::guess_format(b) {
        Ok(f) => Some(format!("{:?}", f)),
        Err(_) => None,
    }
}

/// The verbatim display form of the embedded original-capture date/time tag
/// in these bytes; `None` when the container, its metadata segment or the
/// tag is absent or unreadable.
pub uninterp spec fn capture_time_of(b: Seq<u8>) -> Option<Seq<char>>;

/// Relies on exif's `Reader::read_from_container`, `Exif::get_field` with
/// the original date/time tag of the primary image, and the field's
/// `display_value`: all read the given bytes alone.
#[verifier::external_body]
fn read_capture_date(b: &Vec<u8>) -> (r: Option<String>)
    ensures
        (r is Some) == (capture_time_of(b@) is Some),
        r matches Some(t) ==> capture_time_of(b@) == Some(t@),
{
    match exif::Reader::new().read_from_container(&mut std::io::Cursor::new(b.as_slice())) {
        Ok(ex) => ex
            .get_field(exif::Tag::DateTimeOriginal, exif::In::PRIMARY)
            .map(|f| format!("{}", f.display_value())),
        Err(_) => None,
    }
}

/// Decoded dimensions with a degenerate pair put aside: a reported width or
/// height of zero is treated as no decode at all, so present dimensions are
/// always positive.
pub open spec fn positive_dimensions(d: Option<(u32, u32)>) -> Option<(u32, u32)> {
    match d {
        Some(wh) => if wh.0 > 0 && wh.1 > 0 {
            Some(wh)
        } else {
            None
        },
        None => None,
    }
}

/// The record extraction owes for a file at `path` of `size` bytes whose
/// content is `bytes`, once the enrichment service's raw output `raw` is in
/// hand.
pub open spec fn extracted_view(path: Seq<char>, size: u64, bytes: Seq<u8>, raw: Seq<char>) -> MetaView {
    MetaView {
        path: path,
        file_name: filter::file_name_of(path),
        file_size: size,
        dimensions: positive_dimensions(dimensions_of(bytes)),
        format: format_name_of(bytes),
        creation_date: capture_time_of(bytes),
        keywords: Some(enrich::split_keywords(raw)),
        description: Some(enrich::split_description(raw)),
    }
}

/// Whether the enrichment stage, handed `response` as the status and body
/// of the service call, yields a raw output at all.
pub open spec fn enrichment_ok(response: Result<(u16, String), EnrichmentError>) -> bool {
    match response {
        Ok(sb) => enrich::status_ok(sb.0) && enrich::response_field_of(sb.1@) is Some,
        Err(_) => false,
    }
}

/// The raw model output the enrichment stage yields (meaningful only when
/// [`enrichment_ok`] holds).
pub open spec fn enrichment_raw(response: Result<(u16, String), EnrichmentError>) -> Seq<char> {
    enrich::raw_output_of(enrich::response_field_of(response->Ok_0.1@)->Some_0)
}

/// Produces the record for one file from its path, its statted size, its
/// bytes, and the enrichment reply's status and body. The filesystem-derived
/// fields are taken verbatim; dimensions, format and capture date degrade to
/// absence instead of failing, whatever the bytes hold; only a failed
/// enrichment stage is fatal to the file's record.
pub fn process_image(
    path: &str,
    file_size: u64,
    bytes: &Vec<u8>,
    response: &Result<(u16, String), EnrichmentError>,
) -> (r: Result<ImageMetadata, ExtractionError>)
    ensures
        (r is Ok) == enrichment_ok(*response),
        r matches Ok(m) ==> m@ == extracted_view(path@, file_size, bytes@, enrichment_raw(*response)),
        r matches Ok(m) ==> (m@.dimensions matches Some(d) ==> d.0 > 0 && d.1 > 0),
        r matches Err(e) ==> (match *response {
            Ok(sb) => e == ExtractionError::Enrichment(
                if !enrich::status_ok(sb.0) {
                    EnrichmentError::Status(sb.0)
                } else {
                    EnrichmentError::BadResponse
                },
            ),
            Err(ee) => e == ExtractionError::Enrichment(ee),
        }),
{
    let file_name = filter::file_name(path);
    let dimensions = match decode_dimensions(bytes) {
        Some((w, h)) => if w > 0 && h > 0 {
            Some((w, h))
        } else {
            None
        },
        None => None,
    };
    let format = sniff_format(bytes);
    let creation_date = read_capture_date(bytes);
    let (status, body) = match response {
        Ok(sb) => (sb.0, &sb.1),
        Err(e) => {
            return Err(ExtractionError::Enrichment(*e));
        },
    };
    let (description, keywords) = match enrich::parse_analysis(status, body.as_str()) {
        Ok(dk) => dk,
        Err(e) => {
            return Err(ExtractionError::Enrichment(e));
        },
    };
    let m = ImageMetadata {
        path: String::from_str(path),
        file_name,
        file_size,
        dimensions,
        format,
        creation_date,
        keywords: Some(keywords),
        description: Some(description),
    };
    Ok(m)
}

} // verus!
