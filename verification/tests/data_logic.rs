use recon_server::client::{model_for_report_file, model_for_signal_file};
use recon_server::paths::{is_absolute_path, resolve_csv_path};
use recon_server::report::{
    image_file_name, needs_report_header, report_header, report_line, ReportRecord,
};
use recon_server::shape::{check_matrix_shape, pixel_order, DimensionMismatch, MatrixShape, MatrixShapeError};
use recon_server::text::{chars_of, contains_str, push_decimal, push_signed_decimal, str_equals};

#[test]
fn matrix_shape_of_uniform_rows() {
    assert_eq!(check_matrix_shape(&vec![3, 3, 3, 3]), Ok(MatrixShape { rows: 4, cols: 3 }));
    assert_eq!(check_matrix_shape(&vec![7]), Ok(MatrixShape { rows: 1, cols: 7 }));
}

#[test]
fn matrix_shape_errors() {
    assert_eq!(check_matrix_shape(&vec![]), Err(MatrixShapeError::EmptyFile));
    assert_eq!(check_matrix_shape(&vec![0, 0]), Err(MatrixShapeError::EmptyRow));
    assert_eq!(check_matrix_shape(&vec![2, 2, 1]), Err(MatrixShapeError::RaggedRows));
    assert_eq!(check_matrix_shape(&vec![2, 0]), Err(MatrixShapeError::RaggedRows));
}

#[test]
fn pixel_order_flips_column_major_image() {
    // height 2, width 3: the vector holds columns (r0,r1) of each column.
    let order = pixel_order(2, 3, 6).unwrap();
    assert_eq!(order, vec![1, 3, 5, 0, 2, 4]);
    let single = pixel_order(1, 1, 1).unwrap();
    assert_eq!(single, vec![0]);
}

#[test]
fn pixel_order_is_a_permutation() {
    let order = pixel_order(30, 30, 900).unwrap();
    let mut seen = vec![false; 900];
    for &i in order.iter() {
        assert!(i < 900);
        assert!(!seen[i]);
        seen[i] = true;
    }
    assert!(seen.iter().all(|&b| b));
}

#[test]
fn pixel_order_rejects_wrong_length() {
    assert_eq!(pixel_order(30, 30, 899), Err(DimensionMismatch));
    assert_eq!(pixel_order(0, 5, 0), Ok(vec![]));
}

#[test]
fn decimal_numerals() {
    let mut s = String::from("n=");
    push_decimal(&mut s, 0);
    assert_eq!(s, "n=0");
    let mut t = String::new();
    push_decimal(&mut t, 1234567890);
    assert_eq!(t, "1234567890");
    let mut u = String::new();
    push_signed_decimal(&mut u, -42);
    assert_eq!(u, "-42");
    let mut v = String::new();
    push_signed_decimal(&mut v, i64::MIN);
    assert_eq!(v, i64::MIN.to_string());
    let mut w = String::new();
    push_decimal(&mut w, u64::MAX);
    assert_eq!(w, u64::MAX.to_string());
}

#[test]
fn string_comparison_and_search() {
    assert!(str_equals("abc", "abc"));
    assert!(!str_equals("abc", "abd"));
    assert!(!str_equals("ab", "abc"));
    assert!(contains_str("G-60x60-1.csv", "60x60"));
    assert!(!contains_str("G-60X60-1.csv", "60x60"));
    assert!(contains_str("x", ""));
    assert!(!contains_str("60x6", "60x60"));
    assert_eq!(chars_of("ação"), vec!['a', 'ç', 'ã', 'o']);
}

#[test]
fn signal_file_models() {
    assert_eq!(model_for_signal_file("g-30x30-1.csv"), "30x30");
    assert_eq!(model_for_signal_file("G-60x60-2.csv"), "60x60");
    assert_eq!(model_for_signal_file("G-60X60-2.csv"), "30x30");
    assert_eq!(model_for_report_file("G-60X60-2.csv"), "60x60");
    assert_eq!(model_for_report_file("g-30x30-3.csv"), "30x30");
}

#[test]
fn csv_path_next_to_crate_directory() {
    assert_eq!(resolve_csv_path("/ws/client", "g-30x30-1.csv"), "/ws/g-30x30-1.csv");
    assert_eq!(resolve_csv_path("/", "a.csv"), "./a.csv");
    assert_eq!(resolve_csv_path("", "a.csv"), "./a.csv");
    assert_eq!(resolve_csv_path("client", "a.csv"), "a.csv");
}

#[test]
fn absolute_csv_path_is_kept() {
    assert!(is_absolute_path("/data/g-30x30-1.csv"));
    assert!(!is_absolute_path("data/g-30x30-1.csv"));
    assert!(!is_absolute_path(""));
    assert_eq!(resolve_csv_path("/ws/client", "/data/g-30x30-1.csv"), "/data/g-30x30-1.csv");
}

#[test]
fn report_header_and_when_written() {
    assert_eq!(
        report_header(),
        "user_id,algorithm_id,start_time,end_time,reconstruction_ms,image_pixels,iterations,image_filename"
    );
    assert!(needs_report_header(false, 0));
    assert!(needs_report_header(false, 10));
    assert!(needs_report_header(true, 0));
    assert!(!needs_report_header(true, 10));
}

#[test]
fn report_line_of_a_reconstruction() {
    let rec = ReportRecord {
        user_id: 0x67e5504410b1426f9247bb680e5fe0c8,
        algorithm_id: String::from("CGNR"),
        start_secs: 1431648000,
        start_nanos: 0,
        end_secs: 1431648001,
        end_nanos: 250_000_000,
        reconstruction_time_ms: 1250,
        image_pixels: (30, 30),
        iterations: 10,
    };
    assert_eq!(
        report_line(&rec, "img.png").unwrap(),
        "67e55044-10b1-426f-9247-bb680e5fe0c8,CGNR,2015-05-15T00:00:00+00:00,2015-05-15T00:00:01.250+00:00,1250,\"(30,30)\",10,img.png"
    );
}

#[test]
fn report_line_out_of_range_instant() {
    let rec = ReportRecord {
        user_id: 0,
        algorithm_id: String::from("CGNE"),
        start_secs: i64::MAX,
        start_nanos: 0,
        end_secs: 0,
        end_nanos: 0,
        reconstruction_time_ms: -3,
        image_pixels: (60, 60),
        iterations: 1,
    };
    assert_eq!(report_line(&rec, "x"), None);
}

#[test]
fn image_file_names() {
    assert_eq!(
        image_file_name(0x67e5504410b1426f9247bb680e5fe0c8, "CGNE", 1700000000),
        "img_67e55044-10b1-426f-9247-bb680e5fe0c8_CGNE_1700000000.png"
    );
    assert_eq!(
        image_file_name(0, "CGNR", -5),
        "img_00000000-0000-0000-0000-000000000000_CGNR_-5.png"
    );
}
