use morel::error::MorelError;
use morel::file_reader::{FileProbe, FileReader, ReloadResult, ReloadStep, Timestamp};

fn lines(count: usize) -> Vec<String> {
    let mut lines = Vec::new();
    for i in 0..count {
        lines.push(format!("line {}", i + 1));
    }
    lines
}

fn at(nanos: i128) -> Option<Timestamp> {
    Some(Timestamp { nanos })
}

fn reader(count: usize, modified: Option<Timestamp>) -> FileReader {
    match FileReader::new("/tmp/app.log".to_string(), true, Ok(lines(count)), modified) {
        Ok(reader) => reader,
        Err(error) => panic!("the file was there: {:?}", error),
    }
}

#[test]
fn new_keeps_lines_path_and_count() {
    let reader = reader(5, at(1_000));
    assert_eq!(reader.total_lines(), 5);
    assert_eq!(reader.path(), "/tmp/app.log");
    assert_eq!(reader.get_lines(0, 5).to_vec(), lines(5));
}

#[test]
fn new_fails_with_not_found_for_a_missing_file() {
    let result = FileReader::new("/no/such/file".to_string(), false, Ok(lines(3)), at(1));
    match result {
        Err(error) => assert_eq!(error, MorelError::FileNotFound("/no/such/file".to_string())),
        Ok(_) => panic!("a missing file was opened"),
    }
}

#[test]
fn new_reports_a_missing_file_before_a_failed_read() {
    let result = FileReader::new("/no/such/file".to_string(), false, Err("denied".to_string()), None);
    match result {
        Err(error) => assert_eq!(error, MorelError::FileNotFound("/no/such/file".to_string())),
        Ok(_) => panic!("a missing file was opened"),
    }
}

#[test]
fn new_fails_with_the_reason_for_a_file_that_cannot_be_read() {
    let result = FileReader::new("/tmp/secret".to_string(), true, Err("permission denied".to_string()), at(1));
    match result {
        Err(error) => assert_eq!(error, MorelError::FileRead("permission denied".to_string())),
        Ok(_) => panic!("an unreadable file was opened"),
    }
}

#[test]
fn new_accepts_an_empty_file_and_an_unknown_time() {
    let reader = reader(0, None);
    assert_eq!(reader.total_lines(), 0);
    assert!(reader.get_lines(0, 10).is_empty());
}

#[test]
fn reload_with_the_same_time_is_no_change() {
    let mut reader = reader(5, at(1_000));
    let before = reader.get_lines(0, 5).to_vec();
    let step = reader.reload(FileProbe::Present { modified: at(1_000) });
    assert_eq!(step, Ok(ReloadStep::Finished(ReloadResult::NoChange)));
    assert_eq!(reader.total_lines(), 5);
    assert_eq!(reader.get_lines(0, 5).to_vec(), before);
}

#[test]
fn reload_with_the_same_time_keeps_the_lines_even_if_others_are_handed_in() {
    let mut reader = reader(5, at(1_000));
    let before = reader.get_lines(0, 5).to_vec();
    let step = reader.reload(FileProbe::Read { modified: at(1_000), lines: lines(9) });
    assert_eq!(step, Ok(ReloadStep::Finished(ReloadResult::NoChange)));
    assert_eq!(reader.total_lines(), 5);
    assert_eq!(reader.get_lines(0, 9).to_vec(), before);
}

#[test]
fn reload_with_two_unknown_times_is_no_change() {
    let mut reader = reader(5, None);
    let step = reader.reload(FileProbe::Present { modified: None });
    assert_eq!(step, Ok(ReloadStep::Finished(ReloadResult::NoChange)));
}

#[test]
fn reload_with_another_time_asks_for_the_content() {
    let mut reader = reader(5, at(1_000));
    let before = reader.get_lines(0, 5).to_vec();
    assert_eq!(reader.reload(FileProbe::Present { modified: at(1_001) }), Ok(ReloadStep::ReadContent));
    assert_eq!(reader.reload(FileProbe::Present { modified: None }), Ok(ReloadStep::ReadContent));
    assert_eq!(reader.get_lines(0, 5).to_vec(), before);
    assert_eq!(
        reader.reload(FileProbe::Present { modified: at(1_000) }),
        Ok(ReloadStep::Finished(ReloadResult::NoChange))
    );
}

#[test]
fn appending_two_lines_to_five_is_appended_with_seven_lines() {
    let mut reader = reader(5, at(1_000));
    assert_eq!(reader.reload(FileProbe::Present { modified: at(2_000) }), Ok(ReloadStep::ReadContent));
    let step = reader.reload(FileProbe::Read { modified: at(2_000), lines: lines(7) });
    assert_eq!(step, Ok(ReloadStep::Finished(ReloadResult::Appended)));
    assert_eq!(reader.total_lines(), 7);
    assert_eq!(reader.get_lines(5, 2).to_vec(), vec!["line 6".to_string(), "line 7".to_string()]);
}

#[test]
fn truncating_ten_lines_to_three_is_truncated_with_three_lines() {
    let mut reader = reader(10, at(1_000));
    let step = reader.reload(FileProbe::Read { modified: at(2_000), lines: lines(3) });
    assert_eq!(step, Ok(ReloadStep::Finished(ReloadResult::Truncated)));
    assert_eq!(reader.get_lines(0, 10).len(), 3);
    assert_eq!(reader.get_lines(0, 10).to_vec(), lines(3));
}

#[test]
fn a_rewrite_with_the_same_count_is_modified() {
    let mut reader = reader(3, at(1_000));
    let rewritten = vec!["a".to_string(), "b".to_string(), "c".to_string()];
    let step = reader.reload(FileProbe::Read { modified: at(2_000), lines: rewritten.clone() });
    assert_eq!(step, Ok(ReloadStep::Finished(ReloadResult::Modified)));
    assert_eq!(reader.get_lines(0, 3).to_vec(), rewritten);
}

#[test]
fn a_reload_takes_the_new_time_over() {
    let mut reader = reader(3, at(1_000));
    let step = reader.reload(FileProbe::Read { modified: at(2_000), lines: lines(4) });
    assert_eq!(step, Ok(ReloadStep::Finished(ReloadResult::Appended)));
    assert_eq!(
        reader.reload(FileProbe::Present { modified: at(2_000) }),
        Ok(ReloadStep::Finished(ReloadResult::NoChange))
    );
    assert_eq!(reader.reload(FileProbe::Present { modified: at(1_000) }), Ok(ReloadStep::ReadContent));
}

#[test]
fn a_time_that_becomes_unknown_is_a_change() {
    let mut reader = reader(3, at(1_000));
    let step = reader.reload(FileProbe::Read { modified: None, lines: lines(3) });
    assert_eq!(step, Ok(ReloadStep::Finished(ReloadResult::Modified)));
    assert_eq!(
        reader.reload(FileProbe::Present { modified: None }),
        Ok(ReloadStep::Finished(ReloadResult::NoChange))
    );
}

#[test]
fn a_missing_file_is_deleted_and_keeps_the_lines() {
    let mut reader = reader(5, at(1_000));
    let before = reader.get_lines(0, 5).to_vec();
    let step = reader.reload(FileProbe::Missing);
    assert_eq!(step, Ok(ReloadStep::Finished(ReloadResult::Deleted)));
    assert_eq!(reader.total_lines(), 5);
    assert_eq!(reader.get_lines(0, 5).to_vec(), before);
    assert_eq!(reader.reload(FileProbe::Missing), Ok(ReloadStep::Finished(ReloadResult::Deleted)));
}

#[test]
fn a_file_that_comes_back_is_read_again() {
    let mut reader = reader(5, at(1_000));
    assert_eq!(reader.reload(FileProbe::Missing), Ok(ReloadStep::Finished(ReloadResult::Deleted)));
    assert_eq!(reader.reload(FileProbe::Present { modified: at(3_000) }), Ok(ReloadStep::ReadContent));
    let step = reader.reload(FileProbe::Read { modified: at(3_000), lines: lines(1) });
    assert_eq!(step, Ok(ReloadStep::Finished(ReloadResult::Truncated)));
    assert_eq!(reader.total_lines(), 1);
}

#[test]
fn a_failed_read_is_an_error_and_keeps_the_lines() {
    let mut reader = reader(5, at(1_000));
    let before = reader.get_lines(0, 5).to_vec();
    let step = reader.reload(FileProbe::Unreadable { reason: "input/output error".to_string() });
    assert_eq!(step, Err(MorelError::FileRead("input/output error".to_string())));
    assert_eq!(reader.get_lines(0, 5).to_vec(), before);
    assert_eq!(
        reader.reload(FileProbe::Present { modified: at(1_000) }),
        Ok(ReloadStep::Finished(ReloadResult::NoChange))
    );
}

#[test]
fn get_lines_gives_the_window_asked_for() {
    let reader = reader(10, at(1));
    assert_eq!(
        reader.get_lines(2, 3).to_vec(),
        vec!["line 3".to_string(), "line 4".to_string(), "line 5".to_string()]
    );
    assert_eq!(reader.get_lines(0, 0).len(), 0);
    assert_eq!(reader.get_lines(9, 1).to_vec(), vec!["line 10".to_string()]);
}

#[test]
fn get_lines_cuts_the_window_at_the_end() {
    let reader = reader(10, at(1));
    assert_eq!(reader.get_lines(8, 5).to_vec(), vec!["line 9".to_string(), "line 10".to_string()]);
    assert_eq!(reader.get_lines(0, 1000).len(), 10);
    assert_eq!(reader.get_lines(3, usize::MAX).len(), 7);
}

#[test]
fn get_lines_from_the_end_or_past_it_is_empty() {
    let reader = reader(10, at(1));
    assert!(reader.get_lines(10, 5).is_empty());
    assert!(reader.get_lines(11, 5).is_empty());
    assert!(reader.get_lines(1000, 0).is_empty());
    assert!(reader.get_lines(usize::MAX, usize::MAX).is_empty());
    assert!(reader.get_lines(usize::MAX, 1).is_empty());
}

#[test]
fn a_file_of_which_nothing_can_be_learnt_is_deleted_and_keeps_the_lines() {
    let mut reader = reader(5, at(1_000));
    let before = reader.get_lines(0, 5).to_vec();
    assert_eq!(reader.reload(FileProbe::NoMetadata), Ok(ReloadStep::Finished(ReloadResult::Deleted)));
    assert_eq!(reader.get_lines(0, 5).to_vec(), before);
    assert_eq!(
        reader.reload(FileProbe::Present { modified: at(1_000) }),
        Ok(ReloadStep::Finished(ReloadResult::NoChange))
    );
}

#[test]
fn a_file_gone_by_the_time_it_is_read_is_deleted_and_keeps_the_lines() {
    let mut reader = reader(5, at(1_000));
    let before = reader.get_lines(0, 5).to_vec();
    assert_eq!(reader.reload(FileProbe::Present { modified: at(2_000) }), Ok(ReloadStep::ReadContent));
    assert_eq!(reader.reload(FileProbe::Vanished), Ok(ReloadStep::Finished(ReloadResult::Deleted)));
    assert_eq!(reader.get_lines(0, 5).to_vec(), before);
    assert_eq!(reader.reload(FileProbe::Present { modified: at(2_000) }), Ok(ReloadStep::ReadContent));
}
