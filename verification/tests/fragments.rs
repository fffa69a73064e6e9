use photobot::discovery::PhotoPath;
use photobot::error::ImportError;
use photobot::exif::{deserialize, get_exif, serialize, Exif};
use photobot::fragment::{generate_camera, generate_filename};
use photobot::photo::{get_photo, infer_album, output_path, write_exif, State};
use photobot::timestamp::{Timestamp, RECORD_PATTERN};

fn stamp(year: i32, month: u32, day: u32, hour: u32, minute: u32, second: u32) -> Timestamp {
    Timestamp::new(year, month, day, hour, minute, second).unwrap()
}

fn bare() -> Exif {
    Exif {
        date_time_original: None,
        create_date: None,
        album: None,
        original_filename: None,
        make: None,
        model: None,
        gps_latitude: None,
        gps_longitude: None,
    }
}

fn canon() -> Exif {
    let mut exif = bare();
    exif.date_time_original = Some(stamp(2023, 7, 4, 10, 15, 30));
    exif.make = Some("Canon".to_string());
    exif.model = Some("EOS R5".to_string());
    exif
}

fn state(infer: bool) -> State {
    State { output_dir: "out".to_string(), album_from_filename: infer }
}

fn at(path: &str, root: &str) -> PhotoPath {
    PhotoPath { input_path: path.to_string(), input_dir: root.to_string() }
}

#[test]
fn timeline_fragment_of_a_dated_photo() {
    let photo = get_photo(&at("photos/IMG_0001.jpg", "photos"), &state(false), b"content", vec![canon()])
        .unwrap();
    assert_eq!(photo.output_filename, "timeline/2023-07-Jul/Canon EOS R5/2023-07-04_10-15-30.jpg");
    assert_eq!(photo.original_filename, Some("IMG_0001.jpg".to_string()));
    assert_eq!(photo.input_path, "photos/IMG_0001.jpg");
    assert_eq!(photo.exif.album, None);
}

#[test]
fn stem_without_extension() {
    assert_eq!(
        generate_filename(&canon()),
        Ok("timeline/2023-07-Jul/Canon EOS R5/2023-07-04_10-15-30".to_string())
    );
}

#[test]
fn deriving_twice_gives_the_same_fragment() {
    let exif = canon();
    assert_eq!(generate_filename(&exif), generate_filename(&exif));
    assert_eq!(generate_filename(&exif), generate_filename(&canon()));
}

#[test]
fn album_takes_the_place_of_the_timeline() {
    let mut exif = canon();
    exif.album = Some("Summer".to_string());
    assert_eq!(
        generate_filename(&exif),
        Ok("albums/Summer/Canon EOS R5/2023-07-04_10-15-30".to_string())
    );
}

#[test]
fn creation_date_stands_in_for_the_original_date() {
    let mut exif = bare();
    exif.create_date = Some(stamp(1999, 12, 31, 23, 59, 59));
    assert_eq!(
        generate_filename(&exif),
        Ok("timeline/1999-12-Dec/unknown camera/1999-12-31_23-59-59".to_string())
    );
    assert_eq!(exif.resolved_date(), exif.create_date);
}

#[test]
fn original_date_wins_over_creation_date() {
    let mut exif = canon();
    exif.create_date = Some(stamp(2001, 1, 2, 3, 4, 5));
    assert_eq!(exif.resolved_date(), Some(stamp(2023, 7, 4, 10, 15, 30)));
    assert_eq!(
        generate_filename(&exif),
        Ok("timeline/2023-07-Jul/Canon EOS R5/2023-07-04_10-15-30".to_string())
    );
}

#[test]
fn record_without_dates_is_rejected() {
    let mut exif = bare();
    exif.make = Some("Canon".to_string());
    exif.model = Some("EOS R5".to_string());
    exif.album = Some("Summer".to_string());
    assert_eq!(generate_filename(&exif), Err(ImportError::MissingTimestamp));
    let outcome = get_photo(&at("photos/a.jpg", "photos"), &state(true), b"x", vec![exif]);
    assert_eq!(outcome.err(), Some(ImportError::MissingTimestamp));
}

#[test]
fn camera_needs_make_and_model() {
    assert_eq!(generate_camera(&canon()), Some("Canon EOS R5".to_string()));
    let mut no_model = canon();
    no_model.model = None;
    assert_eq!(generate_camera(&no_model), None);
    assert_eq!(
        generate_filename(&no_model),
        Ok("timeline/2023-07-Jul/unknown camera/2023-07-04_10-15-30".to_string())
    );
    let mut no_make = canon();
    no_make.make = None;
    assert_eq!(generate_camera(&no_make), None);
    assert_eq!(
        generate_filename(&no_make),
        Ok("timeline/2023-07-Jul/unknown camera/2023-07-04_10-15-30".to_string())
    );
}

#[test]
fn file_directly_inside_the_root_gets_no_folder_album() {
    let photo = get_photo(&at("photos/IMG_0001.jpg", "photos"), &state(true), b"x", vec![canon()])
        .unwrap();
    assert_eq!(photo.exif.album, None);
    assert_eq!(photo.output_filename, "timeline/2023-07-Jul/Canon EOS R5/2023-07-04_10-15-30.jpg");
}

#[test]
fn file_in_a_folder_below_the_root_gets_the_folder_as_album() {
    let photo = get_photo(&at("photos/trip/IMG_0001.JPG", "photos"), &state(true), b"x", vec![canon()])
        .unwrap();
    assert_eq!(photo.exif.album, Some("trip".to_string()));
    assert_eq!(photo.output_filename, "albums/trip/Canon EOS R5/2023-07-04_10-15-30.JPG");
    let deeper = get_photo(&at("photos/2023/trip/a.jpeg", "photos"), &state(true), b"x", vec![canon()])
        .unwrap();
    assert_eq!(deeper.exif.album, Some("trip".to_string()));
}

#[test]
fn folder_album_overrides_the_album_of_the_record() {
    let mut exif = canon();
    exif.album = Some("Summer".to_string());
    let amended = infer_album(exif.clone(), &at("photos/trip/a.jpg", "photos"), &state(true));
    assert_eq!(amended.album, Some("trip".to_string()));
    let kept = infer_album(exif.clone(), &at("photos/a.jpg", "photos"), &state(true));
    assert_eq!(kept.album, Some("Summer".to_string()));
    let off = infer_album(exif, &at("photos/trip/a.jpg", "photos"), &state(false));
    assert_eq!(off.album, Some("Summer".to_string()));
}

#[test]
fn file_without_extension_keeps_the_dot() {
    let photo = get_photo(&at("photos/IMG_0001", "photos"), &state(false), b"x", vec![canon()])
        .unwrap();
    assert_eq!(photo.output_filename, "timeline/2023-07-Jul/Canon EOS R5/2023-07-04_10-15-30.");
}

#[test]
fn photo_carries_the_checksum_of_its_content() {
    let photo = get_photo(&at("photos/a.jpg", "photos"), &state(false), b"Wikipedia", vec![canon()])
        .unwrap();
    assert_eq!(photo.checksum, 0x11E60398);
}

#[test]
fn no_record_means_no_metadata() {
    assert_eq!(get_exif(Vec::new()).err(), Some(ImportError::MetadataUnavailable));
    let outcome = get_photo(&at("photos/a.jpg", "photos"), &state(false), b"x", Vec::new());
    assert_eq!(outcome.err(), Some(ImportError::MetadataUnavailable));
}

#[test]
fn first_record_is_the_files_record() {
    let mut second = bare();
    second.album = Some("other".to_string());
    let picked = get_exif(vec![canon(), second]).unwrap();
    assert_eq!(picked.make, Some("Canon".to_string()));
    assert_eq!(picked.album, None);
}

#[test]
fn destination_is_under_the_output_directory() {
    let photo = get_photo(&at("photos/IMG_0001.jpg", "photos"), &state(false), b"x", vec![canon()])
        .unwrap();
    assert_eq!(
        output_path(&photo, &state(false)),
        "out/timeline/2023-07-Jul/Canon EOS R5/2023-07-04_10-15-30.jpg"
    );
}

#[test]
fn tagging_sets_original_name_and_album() {
    let photo = get_photo(&at("photos/trip/IMG_0001.jpg", "photos"), &state(true), b"x", vec![canon()])
        .unwrap();
    assert_eq!(
        write_exif("out/x.jpg", &photo),
        vec![
            "-overwrite_original".to_string(),
            "-OriginalFileName=IMG_0001.jpg".to_string(),
            "-album=trip".to_string(),
            "out/x.jpg".to_string(),
        ]
    );
}

#[test]
fn tagging_leaves_absent_fields_alone() {
    let mut photo = get_photo(&at("photos/IMG_0001.jpg", "photos"), &state(true), b"x", vec![canon()])
        .unwrap();
    assert_eq!(
        write_exif("out/x.jpg", &photo),
        vec![
            "-overwrite_original".to_string(),
            "-OriginalFileName=IMG_0001.jpg".to_string(),
            "out/x.jpg".to_string(),
        ]
    );
    photo.original_filename = None;
    assert_eq!(
        write_exif("out/x.jpg", &photo),
        vec!["-overwrite_original".to_string(), "out/x.jpg".to_string()]
    );
}

#[test]
fn dates_are_written_with_colons() {
    assert_eq!(
        serialize(&Some(stamp(2023, 7, 4, 10, 15, 30))),
        Some("2023:07:04 10:15:30".to_string())
    );
    assert_eq!(serialize(&None), None);
}

#[test]
fn dates_are_read_with_colons() {
    assert_eq!(deserialize(Some("2023:07:04 10:15:30")), Ok(Some(stamp(2023, 7, 4, 10, 15, 30))));
    assert_eq!(deserialize(None), Ok(None));
    assert_eq!(deserialize(Some("2023-07-04 10:15:30")), Err(ImportError::MetadataUnavailable));
    assert_eq!(deserialize(Some("2023:02:30 10:15:30")), Err(ImportError::MetadataUnavailable));
    assert_eq!(deserialize(Some("")), Err(ImportError::MetadataUnavailable));
}

#[test]
fn timestamps_name_days_that_exist() {
    assert!(Timestamp::new(2024, 2, 29, 0, 0, 0).is_some());
    assert!(Timestamp::new(2023, 2, 29, 0, 0, 0).is_none());
    assert!(Timestamp::new(1900, 2, 29, 0, 0, 0).is_none());
    assert!(Timestamp::new(2000, 2, 29, 0, 0, 0).is_some());
    assert!(Timestamp::new(-4, 2, 29, 0, 0, 0).is_some());
    assert!(Timestamp::new(2023, 4, 31, 0, 0, 0).is_none());
    assert!(Timestamp::new(2023, 12, 31, 23, 59, 59).is_some());
    assert!(Timestamp::new(2023, 13, 1, 0, 0, 0).is_none());
    assert!(Timestamp::new(2023, 0, 1, 0, 0, 0).is_none());
    assert!(Timestamp::new(2023, 1, 0, 0, 0, 0).is_none());
    assert!(Timestamp::new(2023, 1, 1, 24, 0, 0).is_none());
    assert!(Timestamp::new(2023, 1, 1, 0, 60, 0).is_none());
    assert!(Timestamp::new(2023, 1, 1, 0, 0, 60).is_none());
    assert!(Timestamp::new(262143, 1, 1, 0, 0, 0).is_none());
    assert!(Timestamp::new(262142, 12, 31, 0, 0, 0).is_some());
    assert!(Timestamp::new(-262143, 1, 1, 0, 0, 0).is_some());
    assert!(Timestamp::new(-262144, 1, 1, 0, 0, 0).is_none());
}

#[test]
fn formats_pad_with_zeros() {
    let early = stamp(2005, 1, 2, 3, 4, 5);
    assert_eq!(early.to_stem(), "2005-01-02_03-04-05");
    assert_eq!(early.to_bucket(), "2005-01-Jan");
    assert_eq!(early.to_record(), "2005:01:02 03:04:05");
}

#[test]
fn parsing_reads_what_formatting_wrote() {
    let moment = stamp(2016, 2, 29, 13, 0, 7);
    let text = moment.to_record();
    assert_eq!(Timestamp::parse(&text, RECORD_PATTERN), Some(moment));
    assert_eq!(Timestamp::parse("nonsense", RECORD_PATTERN), None);
}

#[test]
fn leap_second_keeps_its_sixty() {
    let leap = Timestamp::parse("2016:12:31 23:59:60", RECORD_PATTERN).unwrap();
    assert_eq!(leap.second, 59);
    assert_eq!(leap.nanosecond, 1_000_000_000);
    assert_eq!(leap.to_stem(), "2016-12-31_23-59-60");
}

#[test]
fn validity_of_timestamps_and_records() {
    let good = stamp(2023, 7, 4, 10, 15, 30);
    assert!(good.is_valid());
    let mut bad = good;
    bad.day = 32;
    assert!(!bad.is_valid());
    let mut leap = stamp(2016, 12, 31, 23, 59, 59);
    leap.nanosecond = 1_500_000_000;
    assert!(leap.is_valid());
    leap.second = 58;
    assert!(!leap.is_valid());
    leap.nanosecond = 2_000_000_000;
    leap.second = 59;
    assert!(!leap.is_valid());
    let mut exif = canon();
    assert!(exif.is_valid());
    exif.create_date = Some(bad);
    assert!(!exif.is_valid());
    assert!(bare().is_valid());
}

#[test]
fn early_years_are_padded_to_four_digits() {
    let early = stamp(7, 3, 9, 0, 0, 0);
    assert_eq!(early.to_stem(), "0007-03-09_00-00-00");
    assert_eq!(early.to_bucket(), "0007-03-Mar");
    assert_eq!(early.to_record(), "0007:03:09 00:00:00");
    assert_eq!(stamp(0, 1, 1, 0, 0, 0).to_bucket(), "0000-01-Jan");
    assert_eq!(stamp(9999, 12, 31, 23, 59, 59).to_stem(), "9999-12-31_23-59-59");
    assert_eq!(stamp(987, 10, 20, 21, 2, 3).to_stem(), "0987-10-20_21-02-03");
}

#[test]
fn every_month_has_its_abbreviation() {
    let names = ["Jan", "Feb", "Mar", "Apr", "May", "Jun", "Jul", "Aug", "Sep", "Oct", "Nov", "Dec"];
    for (i, name) in names.iter().enumerate() {
        let month = i as u32 + 1;
        assert_eq!(stamp(2023, month, 1, 0, 0, 0).to_bucket(), format!("2023-{:02}-{}", month, name));
    }
}
