use iskra::changelog::md_inline_to_pango;

#[test]
fn bold_code_and_links_become_markup() {
    assert_eq!(md_inline_to_pango("**Bold** text"), "<b>Bold</b> text");
    assert_eq!(md_inline_to_pango("Use `cargo` & <x>"), "Use <tt>cargo</tt> &amp; &lt;x&gt;");
    assert_eq!(md_inline_to_pango("[link](http://x) after"), "link after");
    assert_eq!(md_inline_to_pango("[text] no paren"), "text no paren");
}

#[test]
fn unclosed_spans_run_to_the_end() {
    assert_eq!(md_inline_to_pango("**unclosed"), "<b>unclosed</b>");
    assert_eq!(md_inline_to_pango("`open"), "<tt>open</tt>");
    assert_eq!(md_inline_to_pango("[text](never closed"), "text");
}

#[test]
fn single_stars_and_quotes_pass_through_outside_spans() {
    assert_eq!(md_inline_to_pango("a * b"), "a * b");
    assert_eq!(md_inline_to_pango("It's"), "It's");
    assert_eq!(md_inline_to_pango("**It's <ok>**"), "<b>It&#39;s &lt;ok&gt;</b>");
    assert_eq!(md_inline_to_pango("**a*b**c"), "<b>a*b</b>c");
    assert_eq!(md_inline_to_pango(""), "");
}
