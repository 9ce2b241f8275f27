use disk_usage::entry::{total_size, FileEntry};
use disk_usage::size::{get_file_size, get_size};
use disk_usage::units::{get_size_unit, render_size, unit_divisor, SizeUnit};

fn entries(sizes: &[usize]) -> Vec<FileEntry> {
    let mut v: Vec<FileEntry> = Vec::new();
    for (i, s) in sizes.iter().enumerate() {
        v.push(FileEntry::new(format!("entry{}", i), *s));
    }
    v
}

#[test]
fn new_sets_fields() {
    let e = FileEntry::new(String::from("logs"), 4096);
    assert_eq!(e.name, "logs");
    assert_eq!(e.size, 4096);
}

#[test]
fn clone_preserves_fields() {
    let e = FileEntry::new(String::from("data"), 7);
    let c = e.clone();
    assert_eq!(c.name, "data");
    assert_eq!(c.size, 7);
}

#[test]
fn sort_orders_non_increasing() {
    let mut v = entries(&[3, 1, 5, 4, 2]);
    FileEntry::sort(&mut v);
    let got: Vec<usize> = v.iter().map(|e| e.size).collect();
    assert_eq!(got, vec![5, 4, 3, 2, 1]);
}

#[test]
fn sort_keeps_every_entry() {
    let mut v = entries(&[10, 30, 20]);
    FileEntry::sort(&mut v);
    let mut names: Vec<String> = v.iter().map(|e| e.name.clone()).collect();
    names.sort();
    assert_eq!(names, vec!["entry0", "entry1", "entry2"]);
    let got: Vec<usize> = v.iter().map(|e| e.size).collect();
    assert_eq!(got, vec![30, 20, 10]);
}

#[test]
fn sort_with_ties_is_non_increasing() {
    let mut v = entries(&[2, 7, 2, 7, 0]);
    FileEntry::sort(&mut v);
    for pair in v.windows(2) {
        assert!(pair[0].size >= pair[1].size);
    }
    let mut got: Vec<usize> = v.iter().map(|e| e.size).collect();
    got.sort();
    assert_eq!(got, vec![0, 2, 2, 7, 7]);
}

#[test]
fn sort_empty_is_empty() {
    let mut v: Vec<FileEntry> = Vec::new();
    FileEntry::sort(&mut v);
    assert!(v.is_empty());
}

#[test]
fn file_size_is_reported_length() {
    assert_eq!(get_file_size(Some(100)), 100);
    assert_eq!(get_file_size(Some(0)), 0);
}

#[test]
fn unreadable_file_counts_as_zero() {
    assert_eq!(get_file_size(None), 0);
}

#[test]
fn directory_size_is_sum_of_files() {
    let metas = vec![Some(1u64), Some(2u64), Some(3u64)];
    assert_eq!(get_size(&metas), Some(6));
}

#[test]
fn single_file_size_is_its_length() {
    let metas = vec![Some(42u64)];
    assert_eq!(get_size(&metas), Some(42));
}

#[test]
fn unreadable_file_is_skipped_in_total() {
    let metas = vec![None, Some(100u64)];
    assert_eq!(get_size(&metas), Some(100));
}

#[test]
fn empty_directory_has_size_zero() {
    let metas: Vec<Option<u64>> = Vec::new();
    assert_eq!(get_size(&metas), Some(0));
}

#[test]
fn size_overflow_is_reported() {
    let metas = vec![Some(usize::MAX as u64), Some(1u64)];
    assert_eq!(get_size(&metas), None);
}

#[test]
fn total_is_sum_of_entry_sizes() {
    let v = entries(&[5, 4, 3, 2, 1]);
    assert_eq!(total_size(&v), Some(15));
}

#[test]
fn total_of_empty_report_is_zero() {
    let v: Vec<FileEntry> = Vec::new();
    assert_eq!(total_size(&v), Some(0));
}

#[test]
fn total_overflow_is_reported() {
    let v = entries(&[usize::MAX, 1]);
    assert_eq!(total_size(&v), None);
}

#[test]
fn unit_boundaries_are_strict() {
    assert_eq!(get_size_unit(0), SizeUnit::Bytes);
    assert_eq!(get_size_unit(1023), SizeUnit::Bytes);
    assert_eq!(get_size_unit(1024), SizeUnit::Bytes);
    assert_eq!(get_size_unit(1025), SizeUnit::Kilobytes);
    assert_eq!(get_size_unit(1024 * 1024), SizeUnit::Kilobytes);
    assert_eq!(get_size_unit(1024 * 1024 + 1), SizeUnit::Megabytes);
    assert_eq!(get_size_unit(1024 * 1024 * 1024), SizeUnit::Megabytes);
    assert_eq!(get_size_unit(1024 * 1024 * 1024 + 1), SizeUnit::Gigabytes);
}

#[test]
fn divisors_are_binary_powers() {
    assert_eq!(unit_divisor(SizeUnit::Bytes), 1);
    assert_eq!(unit_divisor(SizeUnit::Kilobytes), 1024);
    assert_eq!(unit_divisor(SizeUnit::Megabytes), 1024 * 1024);
    assert_eq!(unit_divisor(SizeUnit::Gigabytes), 1024 * 1024 * 1024);
}

#[test]
fn boundary_counts_format_as_bytes() {
    let unit = get_size_unit(1023);
    let scaled = 1023f32 / unit_divisor(unit) as f32;
    assert_eq!(render_size(scaled.to_string(), unit), "1023 bytes");
    let unit = get_size_unit(1024);
    let scaled = 1024f32 / unit_divisor(unit) as f32;
    assert_eq!(render_size(scaled.to_string(), unit), "1024 bytes");
}

#[test]
fn scaled_value_formats_with_unit_suffix() {
    assert_eq!(render_size(String::from("3.5"), SizeUnit::Megabytes), "3.5 MB");
    assert_eq!(render_size(String::from("1.5"), SizeUnit::Kilobytes), "1.5 KB");
    assert_eq!(render_size(String::from("2"), SizeUnit::Gigabytes), "2 GB");
}

#[test]
fn zero_total_formats_as_zero_bytes() {
    let v: Vec<FileEntry> = Vec::new();
    let total = total_size(&v).unwrap();
    let unit = get_size_unit(total);
    let scaled = total as f32 / unit_divisor(unit) as f32;
    assert_eq!(render_size(scaled.to_string(), unit), "0 bytes");
}
