use typkg::strip::strip_schema_lines;

#[test]
fn drops_schema_annotation_line() {
    let src = "#:schema https://example.invalid/schema.json\n[package]\nname = \"p\"\n";
    let out = strip_schema_lines(src);
    assert_eq!(out, "[package]\nname = \"p\"\n");
}

#[test]
fn drops_indented_schema_annotation_line() {
    let src = "[package]\n  #:schema x\nversion = \"1.0.0\"";
    let out = strip_schema_lines(src);
    assert_eq!(out, "[package]\nversion = \"1.0.0\"");
}

#[test]
fn keeps_ordinary_comment_lines() {
    let src = "# a comment\n[package]";
    assert_eq!(strip_schema_lines(src), "# a comment\n[package]");
}

#[test]
fn keeps_crlf_endings_and_final_newline_verbatim() {
    let src = "[package]\r\nname = \"p\"\r\n";
    assert_eq!(strip_schema_lines(src), "[package]\r\nname = \"p\"\r\n");
}

#[test]
fn drops_schema_line_with_crlf_ending() {
    let src = "#:schema x\r\n[package]\r\n";
    assert_eq!(strip_schema_lines(src), "[package]\r\n");
}

#[test]
fn stripping_twice_equals_stripping_once() {
    let cases = [
        "#:schema x\n[package]\nname = \"p\"\n",
        "[package]\r\nname = \"p\"\r\n",
        "",
        "\n",
        "a\n\n",
        "a\r\r\nb",
        "one line",
        "a\nb\nc",
    ];
    for src in cases {
        let once = strip_schema_lines(src);
        let twice = strip_schema_lines(once.as_str());
        assert_eq!(twice, once, "not idempotent on {:?}", src);
    }
}

#[test]
fn stripping_is_identity_without_annotation_lines() {
    let cases = ["[package]\nname = \"p\"\n", "a\n\nb\r\n", "x"];
    for src in cases {
        assert_eq!(strip_schema_lines(src), src, "changed {:?}", src);
    }
}

#[test]
fn empty_input_stays_empty() {
    assert_eq!(strip_schema_lines(""), "");
}

#[test]
fn input_of_only_schema_lines_becomes_empty() {
    assert_eq!(strip_schema_lines("#:schema a\n#:schema b\n"), "");
}
