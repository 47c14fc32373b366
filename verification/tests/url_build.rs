use gqa_l9::UrlBuilder;

#[test]
fn default_url_is_the_cleanup_report() {
    assert_eq!(
        UrlBuilder::new().build_string(),
        "https://gentooqa.levelnine.at/results/gentoo/stats/EAC-STA-ebuild_cleanup_candidates/full.txt"
    );
}

#[test]
fn each_setter_replaces_its_part() {
    let u = UrlBuilder::new().protocol("http").build_string();
    assert_eq!(u, "http://gentooqa.levelnine.at/results/gentoo/stats/EAC-STA-ebuild_cleanup_candidates/full.txt");
    let u = UrlBuilder::new().domain("qa.example.org").build_string();
    assert_eq!(u, "https://qa.example.org/results/gentoo/stats/EAC-STA-ebuild_cleanup_candidates/full.txt");
    let u = UrlBuilder::new().results_path("archive").build_string();
    assert_eq!(u, "https://gentooqa.levelnine.at/archive/gentoo/stats/EAC-STA-ebuild_cleanup_candidates/full.txt");
    let u = UrlBuilder::new().repo_name("guru").build_string();
    assert_eq!(u, "https://gentooqa.levelnine.at/results/guru/stats/EAC-STA-ebuild_cleanup_candidates/full.txt");
    let u = UrlBuilder::new().check_path("stats/other").build_string();
    assert_eq!(u, "https://gentooqa.levelnine.at/results/gentoo/stats/other/full.txt");
}

#[test]
fn all_parts_set() {
    let u = UrlBuilder::new()
        .protocol("ftp")
        .domain("d")
        .results_path("r")
        .repo_name("n")
        .check_path("c")
        .build_string();
    assert_eq!(u, "ftp://d/r/n/c/full.txt");
}

#[test]
fn empty_parts_keep_the_separators() {
    let u = UrlBuilder::new()
        .protocol("")
        .domain("")
        .results_path("")
        .repo_name("")
        .check_path("")
        .build_string();
    assert_eq!(u, "://////full.txt");
}

#[test]
fn last_setting_wins() {
    let a = UrlBuilder::new().repo_name("one").repo_name("two").build_string();
    let b = UrlBuilder::new().repo_name("two").build_string();
    assert_eq!(a, b);
}

#[test]
fn settings_commute() {
    let a = UrlBuilder::new().domain("x.org").repo_name("r").build_string();
    let b = UrlBuilder::new().repo_name("r").domain("x.org").build_string();
    assert_eq!(a, b);
}

#[test]
fn url_frame() {
    let u = UrlBuilder::new().protocol("gopher").build_string();
    assert!(u.starts_with("gopher://"));
    assert!(u.ends_with("/full.txt"));
}

#[test]
fn unicode_parts() {
    let u = UrlBuilder::new().domain("bücher.example").build_string();
    assert_eq!(u, "https://bücher.example/results/gentoo/stats/EAC-STA-ebuild_cleanup_candidates/full.txt");
}
