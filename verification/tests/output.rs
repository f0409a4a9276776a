use transcribe::output::{output_file_name, output_file_name_for, STAMP_PATTERN, SUCCESS};

#[test]
fn the_name_spells_the_moment_to_the_second() {
    assert_eq!(output_file_name(0), Some("transcription-1970-01-01-00-00-00.md".to_string()));
    assert_eq!(
        output_file_name(1431648000),
        Some("transcription-2015-05-15-00-00-00.md".to_string())
    );
    assert_eq!(
        output_file_name(1700000000),
        Some("transcription-2023-11-14-22-13-20.md".to_string())
    );
    assert_eq!(output_file_name(-1), Some("transcription-1969-12-31-23-59-59.md".to_string()));
}

#[test]
fn a_moment_out_of_range_has_no_name() {
    assert_eq!(output_file_name(i64::MAX), None);
    assert_eq!(output_file_name(i64::MIN), None);
}

#[test]
fn the_name_is_put_around_a_given_stamp() {
    assert_eq!(
        output_file_name_for("2024-02-29-12-00-01"),
        "transcription-2024-02-29-12-00-01.md"
    );
    assert_eq!(output_file_name_for(""), "transcription-.md");
    assert_eq!(STAMP_PATTERN, "%Y-%m-%d-%H-%M-%S");
}

#[test]
fn success_is_announced() {
    assert_eq!(SUCCESS, "Transcription successful. File saved on Desktop.");
}
