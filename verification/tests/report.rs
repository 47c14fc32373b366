use gqa_l9::report::report_rows;

fn std_rows(s: &str) -> Vec<Vec<String>> {
    s.lines()
        .map(|l| l.split('|').map(String::from).collect())
        .collect()
}

fn rows(v: &[&[&str]]) -> Vec<Vec<String>> {
    v.iter()
        .map(|r| r.iter().map(|c| c.to_string()).collect())
        .collect()
}

#[test]
fn empty_report_has_no_rows() {
    assert_eq!(report_rows(""), Vec::<Vec<String>>::new());
}

#[test]
fn cells_and_lines() {
    assert_eq!(
        report_rows("cat/pkg|1.0|old\ndev-lang/rust|1.2|x\n"),
        rows(&[&["cat/pkg", "1.0", "old"], &["dev-lang/rust", "1.2", "x"]])
    );
}

#[test]
fn last_line_without_line_feed() {
    assert_eq!(report_rows("a|b\nc"), rows(&[&["a", "b"], &["c"]]));
}

#[test]
fn empty_lines_and_cells() {
    assert_eq!(report_rows("\n|\n||x"), rows(&[&[""], &["", ""], &["", "", "x"]]));
}

#[test]
fn carriage_returns() {
    assert_eq!(report_rows("a|b\r\nc\r"), rows(&[&["a", "b"], &["c\r"]]));
    assert_eq!(report_rows("a|\r\n"), rows(&[&["a", ""]]));
    assert_eq!(report_rows("\r\r\n"), rows(&[&["\r"]]));
}

#[test]
fn same_as_lines_then_split() {
    let samples = [
        "",
        "\n",
        "\n\n",
        "x",
        "|",
        "a|b|c",
        "a|b|c\n",
        "a|b|c\r\n",
        "a\rb|c\r\r\n|\n",
        "x\n\ny|\r\n",
        "ü|ö\n€|\u{1F600}",
        "\r",
        "\r\n\r\n",
        "a||b\n|c|\n||\n",
    ];
    for s in samples.iter() {
        assert_eq!(report_rows(s), std_rows(s), "input {:?}", s);
    }
}
