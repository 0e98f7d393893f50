use dirnav::errors::MetaError;
use dirnav::info::{get_file_info, hours_since, scaled_hundredths, EntryMeta, Timestamp};
use dirnav::text::decimal_string;

fn at(secs: u64, nanos: u32) -> Timestamp {
    Timestamp { secs, nanos }
}

fn file(size: u64, modified: Timestamp) -> Result<EntryMeta, MetaError> {
    Ok(EntryMeta { is_dir: false, size, modified: Some(modified) })
}

fn size_line(size: u64) -> String {
    let info = get_file_info(file(size, at(0, 0)), at(0, 0));
    let line = info.lines().nth(1).unwrap();
    String::from(line.strip_prefix("Size: ").unwrap())
}

fn float_size(size: u64) -> String {
    if size >= 1_000_000 {
        format!("{:.2} MB", size as f64 / 1_048_576.0)
    } else if size >= 1_000 {
        format!("{:.2} KB", size as f64 / 1_024.0)
    } else {
        format!("{} bytes", size)
    }
}

#[test]
fn info_of_a_file() {
    let info = get_file_info(file(512, at(1_000_000, 0)), at(1_000_000 + 7_200, 0));
    assert_eq!(info, "Type: File\nSize: 512 bytes\nModified: 2 hours ago");
}

#[test]
fn info_of_a_directory() {
    let meta = Ok(EntryMeta { is_dir: true, size: 4096, modified: Some(at(0, 0)) });
    let info = get_file_info(meta, at(3_599, 999_999_999));
    assert_eq!(info, "Type: Directory\nSize: 4.00 KB\nModified: 0 hours ago");
}

#[test]
fn a_future_modification_time_is_reported() {
    let info = get_file_info(file(10, at(2_000, 0)), at(1_000, 0));
    assert_eq!(info, "Error: The modified time is in the future.");
    let info = get_file_info(file(10, at(1_000, 1)), at(1_000, 0));
    assert_eq!(info, "Error: The modified time is in the future.");
    let info = get_file_info(file(10, at(u64::MAX, 999_999_999)), at(0, 0));
    assert_eq!(info, "Error: The modified time is in the future.");
}

#[test]
fn a_modification_at_this_instant_is_no_future() {
    let info = get_file_info(file(10, at(1_000, 5)), at(1_000, 5));
    assert_eq!(info, "Type: File\nSize: 10 bytes\nModified: 0 hours ago");
}

#[test]
fn a_missing_modification_time_counts_as_now() {
    let meta = Ok(EntryMeta { is_dir: false, size: 1, modified: None });
    let info = get_file_info(meta, at(99_999, 0));
    assert_eq!(info, "Type: File\nSize: 1 bytes\nModified: 0 hours ago");
}

#[test]
fn unreadable_metadata_gives_a_line_of_text() {
    assert_eq!(
        get_file_info(Err(MetaError::NotFound), at(0, 0)),
        "Error accessing file: entry not found"
    );
    assert_eq!(
        get_file_info(Err(MetaError::PermissionDenied), at(0, 0)),
        "Error accessing file: permission denied"
    );
    assert_eq!(
        get_file_info(Err(MetaError::Other), at(0, 0)),
        "Error accessing file: metadata unavailable"
    );
    assert_eq!(MetaError::NotFound.describe(), "entry not found");
}

#[test]
fn hours_are_whole_hours() {
    assert_eq!(hours_since(Some(at(0, 0)), at(3_600, 0)), Some(1));
    assert_eq!(hours_since(Some(at(0, 1)), at(3_600, 0)), Some(0));
    assert_eq!(hours_since(Some(at(10, 500)), at(10 + 36_000, 500)), Some(10));
    assert_eq!(hours_since(Some(at(10, 500)), at(10 + 36_000, 499)), Some(9));
    assert_eq!(hours_since(Some(at(0, 0)), at(u64::MAX, 999_999_999)), Some(u64::MAX / 3_600));
    assert_eq!(hours_since(Some(at(1, 0)), at(0, 999_999_999)), None);
    assert_eq!(hours_since(None, at(5, 0)), Some(0));
}

#[test]
fn sizes_at_the_thresholds() {
    assert_eq!(size_line(0), "0 bytes");
    assert_eq!(size_line(999), "999 bytes");
    assert_eq!(size_line(1_000), "0.98 KB");
    assert_eq!(size_line(1_024), "1.00 KB");
    assert_eq!(size_line(1_536), "1.50 KB");
    assert_eq!(size_line(999_999), "976.56 KB");
    assert_eq!(size_line(1_000_000), "0.95 MB");
    assert_eq!(size_line(1_048_576), "1.00 MB");
    assert_eq!(size_line(5 * 1_048_576 + 524_288), "5.50 MB");
}

#[test]
fn a_size_between_two_hundredths_goes_to_the_even_one() {
    assert_eq!(scaled_hundredths(1_152, 1_024), 112);
    assert_eq!(size_line(1_152), "1.12 KB");
    assert_eq!(scaled_hundredths(1_408, 1_024), 138);
    assert_eq!(size_line(1_408), "1.38 KB");
    assert_eq!(scaled_hundredths(1_029, 1_024), 100);
    assert_eq!(scaled_hundredths(1_030, 1_024), 101);
}

#[test]
fn a_fraction_that_rounds_up_carries_into_the_whole() {
    assert_eq!(scaled_hundredths(2_047, 1_024), 200);
    assert_eq!(size_line(2_047), "2.00 KB");
    assert_eq!(size_line(2 * 1_048_576 - 1), "2.00 MB");
}

#[test]
fn sizes_agree_with_floating_point_formatting() {
    let mut size: u64 = 0;
    while size < 3_000_000 {
        assert_eq!(size_line(size), float_size(size), "size {}", size);
        size += 37;
    }
    for size in 990..1_300u64 {
        assert_eq!(size_line(size), float_size(size), "size {}", size);
    }
    for k in 0..2_000u64 {
        let size = 128 + 256 * k;
        assert_eq!(size_line(size), float_size(size), "size {}", size);
    }
    let mut size: u64 = 1_000_000;
    while size < (1u64 << 50) {
        assert_eq!(size_line(size), float_size(size), "size {}", size);
        assert_eq!(size_line(size + 5_243), float_size(size + 5_243));
        size = size * 3 + 131_072;
    }
}

#[test]
fn the_largest_size_is_rendered() {
    assert_eq!(size_line(u64::MAX), "17592186044416.00 MB");
}

#[test]
fn numerals() {
    assert_eq!(decimal_string(0), "0");
    assert_eq!(decimal_string(7), "7");
    assert_eq!(decimal_string(10), "10");
    assert_eq!(decimal_string(1_234_567_890), "1234567890");
    assert_eq!(decimal_string(u64::MAX), "18446744073709551615");
    for n in 0..2_000u64 {
        assert_eq!(decimal_string(n), format!("{}", n));
    }
}
