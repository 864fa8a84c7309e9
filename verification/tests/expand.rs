use hazelnut::rules::expand::{
    expand_path, expand_pattern, expand_pattern_shell_escaped, BadDateFormat, Environment, Moment,
    Quoting,
};

fn noon() -> Moment {
    // 2024-03-05 12:34:56 UTC, seen two hours east of Greenwich
    Moment { seconds: 1_709_642_096, nanos: 0, offset: 7200 }
}

fn env() -> Environment {
    Environment {
        home: Some("/home/hazel".to_string()),
        vars: vec![
            ("HOME".to_string(), "/home/hazel".to_string()),
            ("EMPTY".to_string(), String::new()),
            ("A_1".to_string(), "one".to_string()),
            ("A".to_string(), "first".to_string()),
            ("A".to_string(), "second".to_string()),
        ],
    }
}

#[test]
fn test_expand_pattern() {
    let path = "/tmp/test.pdf";

    assert_eq!(expand_pattern("{name}", path, noon()).unwrap(), "test");
    assert_eq!(expand_pattern("{ext}", path, noon()).unwrap(), "pdf");
    assert_eq!(expand_pattern("{filename}", path, noon()).unwrap(), "test.pdf");
    assert_eq!(expand_pattern("{name}.{ext}", path, noon()).unwrap(), "test.pdf");
}

#[test]
fn test_expand_path() {
    let expanded = expand_path("~/Downloads", &env());
    assert!(!expanded.contains('~'));
    assert_eq!(expanded, "/home/hazel/Downloads");
}

#[test]
fn tilde_needs_a_home() {
    let homeless = Environment { home: None, vars: vec![] };
    assert_eq!(expand_path("~/Downloads", &homeless), "~/Downloads");
    assert_eq!(expand_path("~", &homeless), "~");
    assert_eq!(expand_path("~", &env()), "/home/hazel");
    assert_eq!(expand_path("~user/x", &env()), "~user/x");
    assert_eq!(expand_path("/a/~/b", &env()), "/a/~/b");
    assert_eq!(expand_path("~//abs", &env()), "/abs");
}

#[test]
fn variables_are_expanded_in_both_forms() {
    let e = env();
    assert_eq!(expand_path("$HOME/x", &e), "/home/hazel/x");
    assert_eq!(expand_path("${HOME}/x", &e), "/home/hazel/x");
    assert_eq!(expand_path("/p/$A_1/$A-", &e), "/p/one/first-");
    assert_eq!(expand_path("/p/$EMPTY/q", &e), "/p//q");
    assert_eq!(expand_path("/p/$MISSING/q", &e), "/p/$MISSING/q");
    assert_eq!(expand_path("/p/${MISSING}/q", &e), "/p/${MISSING}/q");
    assert_eq!(expand_path("/p/${}/q", &e), "/p/${}/q");
    assert_eq!(expand_path("/p/${A", &e), "/p/${A");
    assert_eq!(expand_path("/p/$1/q$", &e), "/p/$1/q$");
    assert_eq!(expand_path("$$A", &e), "$first");
    assert_eq!(expand_path("${A}${A_1}", &e), "firstone");
    assert_eq!(expand_path("$A_1x", &e), "$A_1x");
}

#[test]
fn every_path_part_has_its_placeholder() {
    let path = "/data/in/report.final.PDF";
    let all = "{path}|{dir}|{name}|{filename}|{ext}";
    assert_eq!(
        expand_pattern(all, path, noon()).unwrap(),
        "/data/in/report.final.PDF|/data/in|report.final|report.final.PDF|PDF"
    );
    // a part that the path lacks leaves its placeholder
    assert_eq!(expand_pattern("{name}.{ext}", "/data/README", noon()).unwrap(), "README.{ext}");
    assert_eq!(expand_pattern("{dir}/{name}", "/", noon()).unwrap(), "{dir}/{name}");
    assert_eq!(expand_pattern("{name}{name}", "/x/ab", noon()).unwrap(), "abab");
    assert_eq!(expand_pattern("plain", "/x/ab", noon()).unwrap(), "plain");
}

#[test]
fn dates_are_written_in_local_time() {
    let path = "/tmp/a.txt";
    assert_eq!(expand_pattern("{date}", path, noon()).unwrap(), "2024-03-05");
    assert_eq!(expand_pattern("{datetime}", path, noon()).unwrap(), "2024-03-05_14-34-56");
    assert_eq!(expand_pattern("{date:%Y}", path, noon()).unwrap(), "2024");
    assert_eq!(
        expand_pattern("{name}-{date:%Y%m}-{date:%H}.{ext}", path, noon()).unwrap(),
        "a-202403-14.txt"
    );
    assert_eq!(expand_pattern("{date:}", path, noon()).unwrap(), "{date:}");
    assert_eq!(expand_pattern("{date:%Y", path, noon()).unwrap(), "{date:%Y");
    // a format runs up to the first closing brace
    assert_eq!(expand_pattern("{date:{date:%d}", path, noon()).unwrap(), "{date:05");
    assert_eq!(expand_pattern("{date:}{date:%d}", path, noon()).unwrap(), "{date:}05");
    // just before midnight, UTC, is the next day two hours east
    let late = Moment { seconds: 1_709_679_600, nanos: 0, offset: 7200 };
    assert_eq!(expand_pattern("{date}", path, late).unwrap(), "2024-03-06");
}

#[test]
fn the_year_has_four_digits_and_is_the_clocks() {
    let now = chrono::Local::now();
    let at = Moment {
        seconds: now.timestamp(),
        nanos: now.timestamp_subsec_nanos(),
        offset: now.offset().local_minus_utc(),
    };
    let year = expand_pattern("{date:%Y}", "/tmp/test.pdf", at).unwrap();
    assert_eq!(year.len(), 4);
    assert_eq!(year, now.format("%Y").to_string());
}

#[test]
fn bad_date_formats_are_errors() {
    assert_eq!(expand_pattern("{date:%Q}", "/tmp/a", noon()), Err(BadDateFormat));
    let never = Moment { seconds: i64::MAX, nanos: 0, offset: 0 };
    assert_eq!(expand_pattern("{date}", "/tmp/a", never), Err(BadDateFormat));
    assert_eq!(expand_pattern("{datetime}", "/tmp/a", never), Err(BadDateFormat));
    assert_eq!(expand_pattern("{date:%Y}", "/tmp/a", never), Err(BadDateFormat));
    let skewed = Moment { seconds: 0, nanos: 0, offset: 86_400 };
    assert_eq!(expand_pattern("{name}-{date}", "/tmp/a", skewed), Err(BadDateFormat));
}

#[test]
fn patterns_without_dates_expand_whatever_the_time() {
    let never = Moment { seconds: i64::MAX, nanos: 0, offset: 0 };
    let skewed = Moment { seconds: 0, nanos: 0, offset: 86_400 };
    for at in [never, skewed, noon()] {
        assert_eq!(expand_pattern("plain", "/tmp/a", at).unwrap(), "plain");
        assert_eq!(expand_pattern("{name}.{ext}", "/tmp/test.pdf", at).unwrap(), "test.pdf");
        assert_eq!(expand_pattern("{dir}/{filename}", "/tmp/test.pdf", at).unwrap(), "/tmp/test.pdf");
        // a brace that opens no date placeholder
        assert_eq!(expand_pattern("{dat}{time}", "/tmp/a", at).unwrap(), "{dat}{time}");
        assert_eq!(
            expand_pattern_shell_escaped("cat {path} | wc", "/tmp/a b", at, Quoting::Unix).unwrap(),
            "cat '/tmp/a b' | wc"
        );
    }
    // the name of the file may bring the placeholder in
    assert_eq!(expand_pattern("{name}", "/tmp/{date}.txt", never), Err(BadDateFormat));
}

#[test]
fn shell_expansion_quotes_what_a_shell_would_read() {
    let at = noon();
    assert_eq!(
        expand_pattern_shell_escaped("cat {path} > /dev/null", "/tmp/plain.txt", at, Quoting::Unix).unwrap(),
        "cat /tmp/plain.txt > /dev/null"
    );
    assert_eq!(
        expand_pattern_shell_escaped("cat {path}", "/tmp/two words.txt", at, Quoting::Unix).unwrap(),
        "cat '/tmp/two words.txt'"
    );
    assert_eq!(
        expand_pattern_shell_escaped("echo {name}", "/tmp/$(rm -rf ~); it's!.txt", at, Quoting::Unix).unwrap(),
        "echo '$(rm -rf ~); it'\\''s'\\!''"
    );
    assert_eq!(
        expand_pattern_shell_escaped("echo {name} {date:%Y}", "/tmp/a b", at, Quoting::Unix).unwrap(),
        "echo 'a b' 2024"
    );
    // the plain expansion does not quote
    assert_eq!(expand_pattern("cat {path}", "/tmp/two words.txt", at).unwrap(), "cat /tmp/two words.txt");
    assert_eq!(
        expand_pattern_shell_escaped("cat {path}", "/tmp/two words.txt", at, Quoting::Plain).unwrap(),
        "cat /tmp/two words.txt"
    );
}

#[test]
fn the_command_shell_of_windows_has_its_own_quoting() {
    let at = noon();
    let cmd = |pattern: &str, path: &str| {
        expand_pattern_shell_escaped(pattern, path, at, Quoting::Windows).unwrap()
    };
    // what holds no quote, tab, line feed or space stays as it is
    assert_eq!(cmd("type {path} > NUL", "/tmp/plain.txt"), "type /tmp/plain.txt > NUL");
    assert_eq!(cmd("echo {name}", "/tmp/it's!.txt"), "echo it's!");
    // the rest goes between double quotes
    assert_eq!(cmd("type {path}", "/tmp/two words.txt"), "type \"/tmp/two words.txt\"");
    assert_eq!(cmd("echo {name}", "/tmp/a\"b.txt"), "echo \"a\\\"b\"");
    assert_eq!(cmd("echo {name}", "/tmp/a b\\.txt"), "echo \"a b\\\\\"");
    assert_eq!(cmd("dir {dir}|", "a"), "dir \"\"|");
    assert_eq!(cmd("echo {ext}|", "/tmp/noext"), "echo {ext}|");
    assert_eq!(cmd("echo {name} {date:%Y}", "/tmp/a b"), "echo \"a b\" 2024");
    assert_eq!(Quoting::of_platform(true, false), Quoting::Unix);
    assert_eq!(Quoting::of_platform(false, true), Quoting::Unix);
    assert_eq!(Quoting::of_platform(true, true), Quoting::Unix);
    assert_eq!(Quoting::of_platform(false, false), Quoting::Windows);
}
