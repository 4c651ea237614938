use std::path::Path;
use tg_keeper::filename::extension_of_name;

fn by_std(name: &str) -> Option<String> {
    Path::new(name).extension().and_then(|e| e.to_str()).map(|e| e.to_owned())
}

#[test]
fn extension_follows_the_last_dot() {
    assert_eq!(extension_of_name("report.PDF"), Some("PDF".to_string()));
    assert_eq!(extension_of_name("archive.tar.gz"), Some("gz".to_string()));
    assert_eq!(extension_of_name("a."), Some(String::new()));
    assert_eq!(extension_of_name("..."), Some(String::new()));
    assert_eq!(extension_of_name("..a"), Some("a".to_string()));
    assert_eq!(extension_of_name("naïve.tXt"), Some("tXt".to_string()));
}

#[test]
fn names_without_extension() {
    for name in ["", "README", ".bashrc", ".", "..", "/", "//", "./", "a/..", "dir.d/notes"] {
        assert_eq!(extension_of_name(name), None, "{:?}", name);
    }
}

#[test]
fn only_the_last_component_counts() {
    assert_eq!(extension_of_name("some/dir/photo.jpeg"), Some("jpeg".to_string()));
    assert_eq!(extension_of_name("photo.jpeg/"), Some("jpeg".to_string()));
    assert_eq!(extension_of_name("photo.jpeg/."), Some("jpeg".to_string()));
    assert_eq!(extension_of_name("photo.jpeg//./"), Some("jpeg".to_string()));
    assert_eq!(extension_of_name("x.a/b"), None);
    assert_eq!(extension_of_name("x.a/.b"), None);
    assert_eq!(extension_of_name("a.b\\c.d"), Some("d".to_string()));
}

#[test]
fn extension_agrees_with_the_standard_library_on_short_names() {
    let alphabet = ['a', '.', '/', 'B'];
    let mut names = vec![String::new()];
    let mut frontier = vec![String::new()];
    for _ in 0..7 {
        let mut next = Vec::new();
        for name in &frontier {
            for c in alphabet {
                let mut longer = name.clone();
                longer.push(c);
                next.push(longer);
            }
        }
        names.extend(next.iter().cloned());
        frontier = next;
    }
    assert_eq!(names.len(), 21845);
    for name in &names {
        assert_eq!(extension_of_name(name), by_std(name), "{:?}", name);
    }
}

#[test]
fn extension_agrees_with_the_standard_library_on_odd_names() {
    let names = [
        "report.PDF",
        "./a.b",
        "../a.b",
        "a.b/..",
        "a.b/../",
        "/a.b",
        "/.a.b",
        "/a/b/c.d.e/",
        "a b.c d",
        "é.ü",
        "x.\u{1F600}",
        "a\u{0}.b",
        " . ",
        ".. ",
        " ..",
        "a/ .b",
        "...a",
        "a...",
        "/./.",
        "/../..",
        "a/./b.c/./",
    ];
    for name in names {
        assert_eq!(extension_of_name(name), by_std(name), "{:?}", name);
    }
}
