use script_host::origin::display_name;
use script_host::origin::ScriptOrigin;

#[test]
fn display_name_is_last_segment() {
    assert_eq!(display_name("./src/modules/require.js"), "require.js");
    assert_eq!(display_name("./done.js"), "done.js");
}

#[test]
fn display_name_without_separator_is_whole_path() {
    assert_eq!(display_name("done.js"), "done.js");
}

#[test]
fn display_name_of_trailing_separator_is_empty() {
    assert_eq!(display_name("src/modules/"), "");
    assert_eq!(display_name("/"), "");
}

#[test]
fn display_name_of_empty_path_is_empty() {
    assert_eq!(display_name(""), "");
}

#[test]
fn display_name_counts_characters_not_bytes() {
    assert_eq!(display_name("détail/été.js"), "été.js");
    assert_eq!(display_name("été/"), "");
}

#[test]
fn display_name_matches_split_last() {
    for path in ["a/b/c", "/a", "a//b", "//", "x", "./src/modules/colors.js"] {
        assert_eq!(display_name(path), path.split("/").last().unwrap());
    }
}

#[test]
fn origin_keeps_path_and_starts_at_zero() {
    let origin = ScriptOrigin::for_path("./src/modules/console.js");
    assert_eq!(origin.display_name, "console.js");
    assert_eq!(origin.locator, "./src/modules/console.js");
    assert_eq!(origin.line_offset, 0);
    assert_eq!(origin.column_offset, 0);
}
