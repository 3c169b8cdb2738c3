use recisdb::commands::{
    choose_source, descrambler_settings, file_name_in, input_buffer_size, output_request,
    path_has_parent, path_plan, DescramblerSettings, OutputRequest, PathPlan, Source, INPUT_BUF_DEFAULT,
};

#[test]
fn buffer_size_is_read_or_defaulted() {
    assert_eq!(input_buffer_size(""), INPUT_BUF_DEFAULT);
    assert_eq!(input_buffer_size("4096"), 4096);
    assert_eq!(input_buffer_size("+10"), 10);
    assert_eq!(input_buffer_size("0x10"), 200000);
    assert_eq!(input_buffer_size("-1"), 200000);
    assert_eq!(input_buffer_size(" 5"), 200000);
    assert_eq!(input_buffer_size("99999999999999999999999"), 200000);
}

#[test]
fn sources_follow_the_arguments() {
    assert_eq!(choose_source(true, true, None), Some(Source::Tuner));
    assert_eq!(choose_source(false, false, Some("-".to_string())), Some(Source::Stdin));
    assert_eq!(choose_source(false, false, Some("a.ts".to_string())), Some(Source::File("a.ts".to_string())));
    assert_eq!(choose_source(true, false, None), None);
    assert_eq!(choose_source(true, true, Some("a.ts".to_string())), None);
    assert_eq!(choose_source(false, false, None), None);
}

#[test]
fn outputs_follow_the_argument() {
    assert_eq!(output_request(None), None);
    assert_eq!(output_request(Some("-".to_string())), Some(OutputRequest::Stdout));
    assert_eq!(output_request(Some("/dev/null".to_string())), Some(OutputRequest::NullDevice));
    assert_eq!(output_request(Some("out.m2ts".to_string())), Some(OutputRequest::Path("out.m2ts".to_string())));
}

#[test]
fn output_paths_are_planned_by_what_exists() {
    assert_eq!(path_plan("x.ts", true, true, false), PathPlan::CreateFile);
    assert_eq!(path_plan("rec", true, false, false), PathPlan::FileInDirectory);
    assert_eq!(path_plan("rec/", false, false, false), PathPlan::CreateDirectoryThenFileIn);
    assert_eq!(path_plan("rec\\", false, false, true), PathPlan::CreateDirectoryThenFileIn);
    assert_eq!(path_plan("rec\\", false, false, false), PathPlan::CreateParentThenFile);
    assert_eq!(path_plan("a/b.ts", false, false, false), PathPlan::CreateParentThenFile);
}

#[test]
fn recordings_in_a_directory_are_named_by_time() {
    assert_eq!(file_name_in("rec", 1700000000), "rec/1700000000.m2ts");
    assert_eq!(file_name_in("", 0), "/0.m2ts");
    assert_eq!(file_name_in("d", u64::MAX), "d/18446744073709551615.m2ts");
}

#[test]
fn descrambler_follows_the_flags() {
    assert_eq!(descrambler_settings(false, true, false, false), None);
    assert_eq!(
        descrambler_settings(true, true, true, false),
        Some(DescramblerSettings { enable_working_key: true, simd: false, strip: true })
    );
}

#[test]
fn paths_without_a_parent_are_the_empty_path_and_the_root() {
    for p in ["", "/", "///", "/.", "/./.", "//./"] {
        assert!(!path_has_parent(p), "{p}");
        assert_eq!(std::path::Path::new(p).parent().is_some(), false, "{p}");
    }
    for p in ["a", ".", "./.", "/a", "/..", "a/", "/.a", "/a/.", "../x"] {
        assert!(path_has_parent(p), "{p}");
        assert!(std::path::Path::new(p).parent().is_some(), "{p}");
    }
}
