//! One photo on its way in: what is known of it once its content and its
//! record were read, where it goes, and what is written back into the copy.

use crate::checksum::{adler32_of, content_checksum};
use crate::discovery::PhotoPath;
use crate::error::ImportError;
use crate::exif::{get_exif, text_of, Exif, ExifView};
use crate::fragment::{derived, generate_filename};
use crate::paths::{depth_below, extension, extension_text, file_name, file_name_of, folder_name,
    folder_name_of, is_nested, parent_of};
use vstd::prelude::*;
use vstd::string::StringExecFns;

verus! {

/// The settings of a run.
#[derive(Debug, Clone)]
pub struct State {
    pub output_dir: String,
    pub album_from_filename: bool,
}

/// A photo that is ready to be copied.
#[derive(Debug, Clone)]
pub struct Photo {
    pub input_path: String,
    pub original_filename: Option<String>,
    pub output_filename: String,
    pub exif: Exif,
    pub checksum: u32,
}

/// A photo as mathematics.
pub struct PhotoView {
    pub input_path: Seq<char>,
    pub original_filename: Option<Seq<char>>,
    pub output_filename: Seq<char>,
    pub exif: ExifView,
    pub checksum: u32,
}

impl View for Photo {
    type V = PhotoView;

    open spec fn view(&self) -> PhotoView {
        PhotoView {
            input_path: self.input_path@,
            original_filename: text_of(self.original_filename),
            output_filename: self.output_filename@,
            exif: self.exif@,
            checksum: self.checksum,
        }
    }
}

/// The record after album inference. With inference on, a file that lies in
/// a folder below the root takes that folder's name for its album, whatever
/// album it had; any other file keeps its record.
pub open spec fn with_inferred_album(
    exif: ExifView,
    infer: bool,
    input_path: Seq<char>,
    input_dir: Seq<char>,
) -> ExifView {
    if infer && depth_below(input_path, input_dir) > 0 {
        ExifView { album: folder_name_of(input_path), ..exif }
    } else {
        exif
    }
}

/// The photo made of a file at `input_path` found under `input_dir`, with the
/// given content and the records that the metadata tool gave for it.
pub open spec fn planned_photo(
    input_path: Seq<char>,
    input_dir: Seq<char>,
    infer: bool,
    content: Seq<u8>,
    records: Seq<Exif>,
) -> Result<PhotoView, ImportError> {
    if records.len() == 0 {
        Err(ImportError::MetadataUnavailable)
    } else {
        let exif = with_inferred_album(records[0]@, infer, input_path, input_dir);
        match derived(exif) {
            Err(e) => Err(e),
            Ok(stem) => Ok(
                PhotoView {
                    input_path,
                    original_filename: file_name_of(input_path),
                    output_filename: stem + "."@ + extension_text(input_path),
                    exif,
                    checksum: adler32_of(content) as u32,
                },
            ),
        }
    }
}

/// The view of a photo, or the error in its place.
pub open spec fn photo_result(outcome: Result<Photo, ImportError>) -> Result<
    PhotoView,
    ImportError,
> {
    match outcome {
        Ok(photo) => Ok(photo@),
        Err(e) => Err(e),
    }
}

/// Where a photo is copied to: the output directory, a slash, and the
/// photo's destination fragment.
pub open spec fn destination(output_dir: Seq<char>, photo: PhotoView) -> Seq<char> {
    output_dir + "/"@ + photo.output_filename
}

/// The characters of each text of a list.
pub open spec fn texts(list: Seq<String>) -> Seq<Seq<char>> {
    list.map_values(|text: String| text@)
}

/// One argument if there is a value to set, none otherwise.
pub open spec fn tag_argument(flag: Seq<char>, value: Option<Seq<char>>) -> Seq<Seq<char>> {
    match value {
        Some(v) => seq![flag + v],
        None => Seq::empty(),
    }
}

/// The arguments that make the metadata tool tag the copy at `path`: change
/// the file in place, set the original file name and the album where the
/// photo has them, and last the path.
pub open spec fn tag_arguments(path: Seq<char>, photo: PhotoView) -> Seq<Seq<char>> {
    seq!["-overwrite_original"@] + tag_argument("-OriginalFileName="@, photo.original_filename)
        + tag_argument("-album="@, photo.exif.album) + seq![path]
}

/// Sets the album of a record from the folder of the file, where inference
/// is on and the file lies in a folder below the root.
pub fn infer_album(exif: Exif, path: &PhotoPath, state: &State) -> (amended: Exif)
    ensures
        amended@ == with_inferred_album(
            exif@,
            state.album_from_filename,
            path.input_path@,
            path.input_dir@,
        ),
        parent_of(path.input_path@) == Some(path.input_dir@) ==> amended@ == exif@,
        !state.album_from_filename ==> amended@ == exif@,
{
    let mut exif = exif;
    if state.album_from_filename && is_nested(path.input_path.as_str(), path.input_dir.as_str()) {
        exif.album = folder_name(path.input_path.as_str());
    }
    exif
}

/// Makes the photo of a file from its content and from the records that the
/// metadata tool returned for it: checksum, record with the album inferred,
/// destination fragment with the file's own extension, original file name.
/// A file whose parent is the root it was found under keeps its record as
/// it is.
pub fn get_photo(path: &PhotoPath, state: &State, content: &[u8], records: Vec<Exif>) -> (outcome:
    Result<Photo, ImportError>)
    requires
        forall|i: int| 0 <= i < records@.len() ==> (#[trigger] records@[i]).wf(),
    ensures
        photo_result(outcome) == planned_photo(
            path.input_path@,
            path.input_dir@,
            state.album_from_filename,
            content@,
            records@,
        ),
        outcome is Ok && parent_of(path.input_path@) == Some(path.input_dir@)
            ==> outcome.unwrap().exif@ == records@[0]@,
{
    let checksum = content_checksum(content);
    let exif = match get_exif(records) {
        Ok(exif) => exif,
        Err(e) => { return Err(e); },
    };
    let ext = extension(path.input_path.as_str());
    let exif = infer_album(exif, path, state);
    let mut filename = match generate_filename(&exif) {
        Ok(stem) => stem,
        Err(e) => { return Err(e); },
    };
    filename.append(".");
    filename.append(ext.as_str());
    Ok(
        Photo {
            input_path: path.input_path.clone(),
            original_filename: file_name(path.input_path.as_str()),
            output_filename: filename,
            exif,
            checksum,
        },
    )
}

/// The path that a photo is copied to under the run's output directory.
pub fn output_path(photo: &Photo, state: &State) -> (path: String)
    ensures
        path@ == destination(state.output_dir@, photo@),
{
    let mut path = state.output_dir.clone();
    path.append("/");
    path.append(photo.output_filename.as_str());
    path
}

/// The arguments with which the metadata tool writes the photo's original
/// file name and album into the copy at `path`.
pub fn write_exif(path: &str, photo: &Photo) -> (arguments: Vec<String>)
    ensures
        texts(arguments@) == tag_arguments(path@, photo@),
{
    let mut arguments: Vec<String> = Vec::new();
    arguments.push(String::from_str("-overwrite_original"));
    assert(texts(arguments@) =~= seq!["-overwrite_original"@]);
    match &photo.original_filename {
        Some(name) => {
            let ghost before = arguments@;
            let mut argument = String::from_str("-OriginalFileName=");
            argument.append(name.as_str());
            arguments.push(argument);
            assert(texts(arguments@) =~= texts(before) + tag_argument(
                "-OriginalFileName="@,
                photo@.original_filename,
            ));
        },
        None => {
            assert(texts(arguments@) =~= texts(arguments@) + tag_argument(
                "-OriginalFileName="@,
                photo@.original_filename,
            ));
        },
    }
    match &photo.exif.album {
        Some(album) => {
            let ghost before = arguments@;
            let mut argument = String::from_str("-album=");
            argument.append(album.as_str());
            arguments.push(argument);
            assert(texts(arguments@) =~= texts(before) + tag_argument(
                "-album="@,
                photo@.exif.album,
            ));
        },
        None => {
            assert(texts(arguments@) =~= texts(arguments@) + tag_argument(
                "-album="@,
                photo@.exif.album,
            ));
        },
    }
    let ghost before = arguments@;
    arguments.push(path.to_owned());
    assert(texts(arguments@) =~= texts(before) + seq![path@]);
    arguments
}

/// A file directly inside the root keeps the album of its record, with
/// inference on or off; with inference on, a file in a folder below the root
/// takes that folder's name, whatever album its record had.
pub proof fn album_inference_scope(
    exif: ExifView,
    infer: bool,
    input_path: Seq<char>,
    input_dir: Seq<char>,
)
    ensures
        depth_below(input_path, input_dir) <= 0 ==> with_inferred_album(
            exif,
            infer,
            input_path,
            input_dir,
        ) == exif,
        infer && depth_below(input_path, input_dir) > 0 ==> with_inferred_album(
            exif,
            infer,
            input_path,
            input_dir,
        ).album == folder_name_of(input_path),
        !infer ==> with_inferred_album(exif, infer, input_path, input_dir) == exif,
{
}

/// A file whose record has no date gives no photo: there is nothing to copy.
pub proof fn undated_file_gives_no_photo(
    input_path: Seq<char>,
    input_dir: Seq<char>,
    infer: bool,
    content: Seq<u8>,
    records: Seq<Exif>,
)
    requires
        records.len() > 0,
        records[0].date_time_original is None,
        records[0].create_date is None,
    ensures
        planned_photo(input_path, input_dir, infer, content, records) == Err::<
            PhotoView,
            ImportError,
        >(ImportError::MissingTimestamp),
{
}

} // verus!
