use image_info::inspect::{
    exif_failure_message, exif_lines, exif_success_message, exif_unsupported_message,
    generate_filename, image_data_message, numbered_filename, open_error_message, ExifField,
};
use image_info::pixels::{
    convert_to_percent, count_pixel_colors, get_all_image_pixels_info, pixels_info, PixelCounts,
};
use image_info::progress::{draw_progress_bar_title, progress_bar_title, progress_message};
use image_info::scan::ProgressEvent;

#[test]
fn percent_in_integers() {
    assert_eq!(convert_to_percent(4, 4), "100");
    assert_eq!(convert_to_percent(4, 3), "75");
    assert_eq!(convert_to_percent(3, 1), "33");
    assert_eq!(convert_to_percent(3, 2), "66");
    assert_eq!(convert_to_percent(7, 0), "0");
    assert_eq!(convert_to_percent(1, u64::MAX), "1844674407370955161500");
}

#[test]
fn pixel_classes() {
    let px = vec![
        vec![255, 0, 0],
        vec![0, 255, 0, 255],
        vec![0, 0, 255, 0],
        vec![255, 0, 0, 255],
        vec![0, 0, 255, 128],
        vec![1, 2, 3, 255],
        vec![255, 0],
    ];
    let c = count_pixel_colors(&px);
    assert_eq!((c.red, c.green, c.blue, c.other), (2, 1, 2, 2));
}

#[test]
fn pixel_shares_text() {
    let c = PixelCounts { red: 2, green: 0, blue: 0, other: 0 };
    assert_eq!(
        pixels_info(2, &c),
        "|-[\x1b[1;31mRed\x1b[0m]-> (\x1b[1m100\x1b[0m %)\n|-[\x1b[1;32mGreen\x1b[0m]-> (\x1b[1m0\x1b[0m %)\n|-[\x1b[1;34mBlue\x1b[0m]-> (\x1b[1m0\x1b[0m %)\n|-[\x1b[1;90mOther\x1b[0m]-> (\x1b[1m0\x1b[0m %)"
    );
    let all_red = vec![vec![255u8, 0, 0, 255]; 3];
    assert_eq!(
        get_all_image_pixels_info(&all_red),
        "|-[\x1b[1;31mRed\x1b[0m]-> (\x1b[1m100\x1b[0m %)\n|-[\x1b[1;32mGreen\x1b[0m]-> (\x1b[1m0\x1b[0m %)\n|-[\x1b[1;34mBlue\x1b[0m]-> (\x1b[1m0\x1b[0m %)\n|-[\x1b[1;90mOther\x1b[0m]-> (\x1b[1m0\x1b[0m %)"
    );
    let mixed = vec![vec![0u8, 255, 0, 255], vec![0, 0, 255, 255], vec![9, 9, 9, 255], vec![9, 9, 9, 255]];
    let t = get_all_image_pixels_info(&mixed);
    assert!(t.contains("Green\x1b[0m]-> (\x1b[1m25\x1b[0m %)"));
    assert!(t.contains("Blue\x1b[0m]-> (\x1b[1m25\x1b[0m %)"));
    assert!(t.contains("Other\x1b[0m]-> (\x1b[1m50\x1b[0m %)"));
}

#[test]
fn image_facts_text() {
    let t = image_data_message(640, 480, "Rgba8", "cat.png", "png", 2048, "PIX");
    assert_eq!(
        t,
        "|-Image dimensions: (640x480)px\n|-Image color model: Rgba8\n|-Image file name: cat.png\n|-Image file extension: png\n|-Image file size: 2.00 kb\n|-Image pixels info:\nPIX\n|"
    );
    assert_eq!(
        open_error_message("/x.png", "No such file"),
        "|-[\x1b[1;37;41mError!\x1b[0m] Image from path [\x1b[102m/x.png\x1b[0m] couldn't open.\n|-No such file\n|"
    );
}

#[test]
fn exif_texts() {
    let fields = vec![
        ExifField { tag: "Make".to_string(), value: "Canon".to_string() },
        ExifField { tag: "Model".to_string(), value: "EOS".to_string() },
    ];
    assert_eq!(exif_lines(&fields), "|-[1]->|Make|\tCanon\n|-[2]->|Model|\tEOS\n");
    let t = exif_success_message("a.jpg", "jpg", &fields, "/d/out.txt");
    assert!(t.starts_with("|-Image \x1b[1mExif\x1b[0m metadata fetched succesfully!\n|-Image filename-> a.jpg, type-> jpg, exif entries-> 2\n"));
    assert!(t.contains("|-[2]->|Model|\tEOS\n|\n|-["));
    assert!(t.ends_with("\x1b[3;97;40m/d/out.txt\x1b[0m\n|"));
    let empty = exif_success_message("a.jpg", "jpg", &vec![], "/o");
    assert!(empty.contains("exif entries-> 0\n|===================================================|\n|\n\n|-["));
    assert!(exif_unsupported_message("png").starts_with("|-Sorry, this image format-> |png| not support "));
    assert!(exif_failure_message("bad").ends_with("]->bad\n|"));
}

#[test]
fn file_names() {
    assert_eq!(numbered_filename("Exif_meta", "a.jpg", 42, ".txt"), "Exif_meta  a.jpg  42.txt");
    let g = generate_filename("Exif_meta", "a.jpg", ".txt");
    assert!(g.starts_with("Exif_meta  a.jpg  ") && g.ends_with(".txt"));
    let n: u32 = g["Exif_meta  a.jpg  ".len()..g.len() - 4].parse().unwrap();
    assert!(n < 100000);
}

#[test]
fn titles_and_progress() {
    assert_eq!(
        progress_bar_title("Task", 0, 8, 5),
        "|[\x1b[100m     \x1b[0m]-[\x1b[31mPlease, wait.\x1b[0m]-(\x1b[9mTask\x1b[0m)"
    );
    let t = draw_progress_bar_title("Task");
    assert!(t.contains("Please, wait.") && t.ends_with("Task\x1b[0m)"));
    let ev = ProgressEvent {
        roots_scanned: 2,
        roots_total: 7,
        matches_so_far: 5,
        current_root_path: "/home/u/Videos".to_string(),
    };
    assert_eq!(
        progress_message(&ev),
        "Scanned dirs (2)/(7) => images found: [5]\ndir: \u{2022} \"/home/u/Videos\" \u{1f50e}"
    );
}
