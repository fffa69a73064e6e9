//! Where a photo goes: the destination fragment derived from its record.

use crate::error::ImportError;
use crate::exif::{Exif, ExifView};
use crate::timestamp::Timestamp;
use vstd::prelude::*;
use vstd::string::StringExecFns;

verus! {

/// The camera of a record: make and model with one space between them, where
/// the record has both.
pub open spec fn camera(exif: ExifView) -> Option<Seq<char>> {
    if exif.make is Some && exif.model is Some {
        Some(exif.make.unwrap() + " "@ + exif.model.unwrap())
    } else {
        None
    }
}

/// The folder of a record's camera; `unknown camera` where make or model is
/// missing.
pub open spec fn camera_folder(exif: ExifView) -> Seq<char> {
    match camera(exif) {
        Some(name) => name,
        None => "unknown camera"@,
    }
}

/// The bucket of a record placed by `date`: its album where it has one, else
/// the month of the date on the timeline.
pub open spec fn bucket(exif: ExifView, date: Timestamp) -> Seq<char> {
    match exif.album {
        Some(album) => "albums/"@ + album,
        None => "timeline/"@ + date.bucket_text(),
    }
}

/// Bucket, camera folder and file stem of a record placed by `date`, joined
/// by slashes.
pub open spec fn fragment(exif: ExifView, date: Timestamp) -> Seq<char> {
    bucket(exif, date) + "/"@ + camera_folder(exif) + "/"@ + date.stem_text()
}

/// The fragment of a record, or why it has none: a record without a date
/// cannot be placed.
pub open spec fn derived(exif: ExifView) -> Result<Seq<char>, ImportError> {
    match exif.resolved_date() {
        Some(date) => Ok(fragment(exif, date)),
        None => Err(ImportError::MissingTimestamp),
    }
}

/// The characters of a derived fragment, or its error.
pub open spec fn text_result(outcome: Result<String, ImportError>) -> Result<
    Seq<char>,
    ImportError,
> {
    match outcome {
        Ok(text) => Ok(text@),
        Err(e) => Err(e),
    }
}

/// Make and model joined by a space, if the record has both.
pub fn generate_camera(exif: &Exif) -> (name: Option<String>)
    ensures
        crate::exif::text_of(name) == camera(exif@),
{
    match &exif.make {
        Some(make) => match &exif.model {
            Some(model) => {
                let mut name = make.clone();
                name.append(" ");
                name.append(model.as_str());
                Some(name)
            },
            None => None,
        },
        None => None,
    }
}

/// The destination fragment of a record, without the file extension.
pub fn generate_filename(exif: &Exif) -> (outcome: Result<String, ImportError>)
    requires
        exif.wf(),
    ensures
        text_result(outcome) == derived(exif@),
{
    let date = match exif.resolved_date() {
        Some(date) => date,
        None => { return Err(ImportError::MissingTimestamp); },
    };
    let mut s = match &exif.album {
        Some(album) => {
            let mut s = String::from_str("albums/");
            s.append(album.as_str());
            s
        },
        None => {
            let mut s = String::from_str("timeline/");
            s.append(date.to_bucket().as_str());
            s
        },
    };
    s.append("/");
    match generate_camera(exif) {
        Some(name) => s.append(name.as_str()),
        None => s.append("unknown camera"),
    }
    s.append("/");
    s.append(date.to_stem().as_str());
    Ok(s)
}

/// Deriving is a function of the record: two records that hold the same
/// values have the same fragment, or fail alike.
pub proof fn derive_is_deterministic(first: Exif, second: Exif)
    requires
        first@ == second@,
    ensures
        derived(first@) == derived(second@),
{
}

/// Two results that `generate_filename` may hand back for one record are the
/// same text, or the same error.
pub proof fn derive_twice_agrees(
    exif: Exif,
    once: Result<String, ImportError>,
    again: Result<String, ImportError>,
)
    requires
        text_result(once) == derived(exif@),
        text_result(again) == derived(exif@),
    ensures
        text_result(once) == text_result(again),
{
}

/// A record without an original and without a creation date has no
/// fragment: deriving fails for want of a timestamp.
pub proof fn missing_timestamp_is_rejected(exif: Exif)
    requires
        exif.date_time_original is None,
        exif.create_date is None,
    ensures
        derived(exif@) == Err::<Seq<char>, ImportError>(ImportError::MissingTimestamp),
{
}

/// A record that lacks make or model is filed under `unknown camera`.
pub proof fn camera_falls_back(exif: Exif, date: Timestamp)
    requires
        exif.make is None || exif.model is None,
    ensures
        camera(exif@) is None,
        camera_folder(exif@) == "unknown camera"@,
        fragment(exif@, date) == bucket(exif@, date) + "/"@ + "unknown camera"@ + "/"@ + date.stem_text(),
{
}

} // verus!
