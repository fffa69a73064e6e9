//! The metadata record of a photo, and the text form of its dates.

use crate::error::ImportError;
use crate::timestamp::{parsed, Timestamp, RECORD_PATTERN};
use vstd::prelude::*;

verus! {

/// What the metadata tool reports of one file. A field is `None` where the
/// file does not carry it.
#[derive(Debug, Clone)]
pub struct Exif {
    pub date_time_original: Option<Timestamp>,
    pub create_date: Option<Timestamp>,
    pub album: Option<String>,
    pub original_filename: Option<String>,
    pub make: Option<String>,
    pub model: Option<String>,
    pub gps_latitude: Option<String>,
    pub gps_longitude: Option<String>,
}

/// A record as mathematics: every text as a sequence of characters.
pub struct ExifView {
    pub date_time_original: Option<Timestamp>,
    pub create_date: Option<Timestamp>,
    pub album: Option<Seq<char>>,
    pub original_filename: Option<Seq<char>>,
    pub make: Option<Seq<char>>,
    pub model: Option<Seq<char>>,
    pub gps_latitude: Option<Seq<char>>,
    pub gps_longitude: Option<Seq<char>>,
}

/// The characters of an optional text.
pub open spec fn text_of(text: Option<String>) -> Option<Seq<char>> {
    match text {
        Some(t) => Some(t@),
        None => None,
    }
}

impl View for Exif {
    type V = ExifView;

    open spec fn view(&self) -> ExifView {
        ExifView {
            date_time_original: self.date_time_original,
            create_date: self.create_date,
            album: text_of(self.album),
            original_filename: text_of(self.original_filename),
            make: text_of(self.make),
            model: text_of(self.model),
            gps_latitude: text_of(self.gps_latitude),
            gps_longitude: text_of(self.gps_longitude),
        }
    }
}

impl ExifView {
    /// Each date that the record carries names a moment that exists.
    pub open spec fn wf(self) -> bool {
        &&& self.date_time_original is Some ==> self.date_time_original.unwrap().wf()
        &&& self.create_date is Some ==> self.create_date.unwrap().wf()
    }

    /// The date by which the photo is placed: the original date where the
    /// record has one, else the creation date.
    pub open spec fn resolved_date(self) -> Option<Timestamp> {
        if self.date_time_original is Some {
            self.date_time_original
        } else {
            self.create_date
        }
    }
}

impl Exif {
    /// Each date that the record carries names a moment that exists.
    pub open spec fn wf(&self) -> bool {
        self@.wf()
    }

    /// Whether each date that the record carries names a moment that exists.
    pub fn is_valid(&self) -> (valid: bool)
        ensures
            valid == self.wf(),
    {
        let original = match &self.date_time_original {
            Some(date) => date.is_valid(),
            None => true,
        };
        let created = match &self.create_date {
            Some(date) => date.is_valid(),
            None => true,
        };
        original && created
    }

    /// The date by which the photo is placed.
    pub fn resolved_date(&self) -> (date: Option<Timestamp>)
        ensures
            date == self@.resolved_date(),
    {
        match self.date_time_original {
            Some(date) => Some(date),
            None => self.create_date,
        }
    }
}

/// What a date field of a record holds once written out.
pub open spec fn serialized(date: Option<Timestamp>) -> Option<Seq<char>> {
    match date {
        Some(d) => Some(d.record_text()),
        None => None,
    }
}

/// What a date field of a record stands for: no date where the field is
/// absent, the date where its text reads as one, and no record at all where
/// it does not.
pub open spec fn deserialized(field: Option<Seq<char>>) -> Result<Option<Timestamp>, ImportError> {
    match field {
        None => Ok(None),
        Some(text) => match parsed(text, RECORD_PATTERN@) {
            Some(stamp) => Ok(Some(stamp)),
            None => Err(ImportError::MetadataUnavailable),
        },
    }
}

/// Writes a date field out as `YYYY:MM:DD HH:MM:SS`; an absent date stays
/// absent.
pub fn serialize(date: &Option<Timestamp>) -> (field: Option<String>)
    requires
        date is Some ==> date.unwrap().wf(),
    ensures
        text_of(field) == serialized(*date),
{
    match date {
        Some(stamp) => Some(stamp.to_record()),
        None => None,
    }
}

/// Reads a date field written as `YYYY:MM:DD HH:MM:SS`. An absent field is
/// no date; a field that does not read as a date spoils the record.
pub fn deserialize(field: Option<&str>) -> (date: Result<Option<Timestamp>, ImportError>)
    ensures
        date == deserialized(
            match field {
                Some(text) => Some(text@),
                None => None,
            },
        ),
        date matches Ok(Some(stamp)) ==> stamp.wf(),
{
    match field {
        None => Ok(None),
        Some(text) => match Timestamp::parse(text, RECORD_PATTERN) {
            Some(stamp) => Ok(Some(stamp)),
            None => Err(ImportError::MetadataUnavailable),
        },
    }
}

/// Picks the record of a file out of what the metadata tool returned for it:
/// the first one. A tool that returned none has no metadata for the file.
pub fn get_exif(records: Vec<Exif>) -> (record: Result<Exif, ImportError>)
    ensures
        records@.len() == 0 ==> record == Err::<Exif, ImportError>(
            ImportError::MetadataUnavailable,
        ),
        records@.len() > 0 ==> record == Ok::<Exif, ImportError>(records@[0]),
{
    let mut records = records;
    if records.len() == 0 {
        Err(ImportError::MetadataUnavailable)
    } else {
        Ok(records.remove(0))
    }
}

} // verus!
