use pattern_clock::shared::markdown_to_html;

#[test]
fn paragraph_is_wrapped() {
    assert_eq!(markdown_to_html("hello"), "<p>hello</p>\n");
}

#[test]
fn empty_text_renders_nothing() {
    assert_eq!(markdown_to_html(""), "");
}

#[test]
fn emphasis_and_headings() {
    assert_eq!(markdown_to_html("# Title"), "<h1>Title</h1>\n");
    assert_eq!(markdown_to_html("*a* **b**"), "<p><em>a</em> <strong>b</strong></p>\n");
}

#[test]
fn strikethrough_is_on() {
    assert_eq!(markdown_to_html("~~gone~~"), "<p><del>gone</del></p>\n");
}

#[test]
fn tables_are_on() {
    let html = markdown_to_html("| a | b |\n|---|---|\n| 1 | 2 |\n");
    assert!(html.starts_with("<table>"));
    assert!(html.contains("<th>a</th>"));
    assert!(html.contains("<td>2</td>"));
}

#[test]
fn task_lists_are_on() {
    let html = markdown_to_html("- [x] done\n- [ ] open\n");
    assert!(html.contains("<input disabled=\"\" type=\"checkbox\" checked=\"\"/>"));
    assert!(html.contains("<input disabled=\"\" type=\"checkbox\"/>"));
}

#[test]
fn footnotes_are_on() {
    let html = markdown_to_html("text[^1]\n\n[^1]: note\n");
    assert!(html.contains("footnote-reference"));
    assert!(html.contains("footnote-definition"));
}

#[test]
fn markup_in_text_is_escaped() {
    assert_eq!(markdown_to_html("a < b & c"), "<p>a &lt; b &amp; c</p>\n");
}

#[test]
fn same_text_renders_the_same() {
    let text = "# T\n\n- one\n- two\n\n`code`\n";
    assert_eq!(markdown_to_html(text), markdown_to_html(text));
}
