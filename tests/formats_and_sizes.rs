use image_info::formats::{check_image_format_support, is_exif_format, is_image_format};
use image_info::size::adapt_file_size;

#[test]
fn image_extensions() {
    assert!(is_image_format("png"));
    assert!(is_image_format("avif"));
    assert!(!is_image_format("PNG"));
    assert!(!is_image_format(".png"));
    assert!(!is_image_format("txt"));
    assert!(!is_image_format(""));
}

#[test]
fn exif_extensions() {
    assert!(is_exif_format("jpeg"));
    assert!(is_exif_format("heif"));
    assert!(!is_exif_format("png"));
}

#[test]
fn custom_format_list() {
    assert!(check_image_format_support("b", &["a", "b"]));
    assert!(!check_image_format_support("c", &["a", "b"]));
    assert!(!check_image_format_support("a", &[]));
}

#[test]
fn sizes_in_each_unit() {
    assert_eq!(adapt_file_size(0), "0 b");
    assert_eq!(adapt_file_size(2048), "2.00 kb");
    assert_eq!(adapt_file_size(1048576), "1.00 mb");
    assert_eq!(adapt_file_size(1073741824), "1.00 gb");
}

#[test]
fn sizes_at_unit_edges() {
    assert_eq!(adapt_file_size(1023), "1023 b");
    assert_eq!(adapt_file_size(1024), "1.00 kb");
    assert_eq!(adapt_file_size(1536), "1.50 kb");
    assert_eq!(adapt_file_size(2099152), "2.00 mb");
    assert_eq!(adapt_file_size(5 * 1073741824 + 536870912), "5.50 gb");
    assert_eq!(adapt_file_size(u64::MAX), "17179869184.00 gb");
}

#[test]
fn sizes_round_half_to_even() {
    // 1.125 kb and 1.375 kb are exact ties at two decimals.
    assert_eq!(adapt_file_size(1152), "1.12 kb");
    assert_eq!(adapt_file_size(1408), "1.38 kb");
    assert_eq!(adapt_file_size(1034), "1.01 kb");
}
