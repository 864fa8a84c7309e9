use hazelnut::logs::strip_ansi_codes;
use hazelnut::rules::expand::{expand_path, expand_pattern, Environment, Moment};

/// Texts made of the pieces that the scanners look for, in every order up
/// to a length.
fn mixtures(pieces: &[&str], depth: usize) -> Vec<String> {
    let mut all = vec![String::new()];
    let mut last = vec![String::new()];
    for _ in 0..depth {
        let mut next = Vec::new();
        for head in &last {
            for piece in pieces {
                next.push(format!("{}{}", head, piece));
            }
        }
        all.extend(next.iter().cloned());
        last = next;
    }
    all
}

fn env() -> Environment {
    Environment {
        home: None,
        vars: vec![
            ("A".to_string(), "<a>".to_string()),
            ("A_1".to_string(), "$A".to_string()),
            ("x}".to_string(), "odd".to_string()),
        ],
    }
}

#[test]
fn variables_are_found_as_the_regular_expression_finds_them() {
    let re = regex::Regex::new(r"\$\{([^}]+)\}|\$([A-Za-z_][A-Za-z0-9_]*)").unwrap();
    let e = env();
    let lookup = |name: &str| e.vars.iter().find(|(k, _)| k == name).map(|(_, v)| v.clone());
    let pieces = ["$", "{", "}", "A", "_1", "B", "/", "9", "${A}", "$A", " "];
    for text in mixtures(&pieces, 4) {
        let expected = re
            .replace_all(&text, |caps: &regex::Captures| {
                let name = caps.get(1).or_else(|| caps.get(2)).map(|m| m.as_str()).unwrap_or("");
                lookup(name).unwrap_or_else(|| caps[0].to_string())
            })
            .to_string();
        assert_eq!(expand_path(&text, &e), expected, "{:?}", text);
    }
}

#[test]
fn date_placeholders_are_found_as_the_regular_expression_finds_them() {
    let re = regex::Regex::new(r"\{date:([^}]+)\}").unwrap();
    let at = Moment { seconds: 1_709_642_096, nanos: 0, offset: 0 };
    let now = chrono::DateTime::from_timestamp(at.seconds, 0).unwrap();
    let pieces = ["{date:", "}", "%Y", "{", "date", ":", "-", "{date:%d}", "%m"];
    for text in mixtures(&pieces, 4) {
        let dated = text
            .replace("{date}", &now.format("%Y-%m-%d").to_string())
            .replace("{datetime}", &now.format("%Y-%m-%d_%H-%M-%S").to_string());
        let expected = re
            .replace_all(&dated, |caps: &regex::Captures| now.format(&caps[1]).to_string())
            .to_string();
        assert_eq!(expand_pattern(&text, "/", at).unwrap(), expected, "{:?}", text);
    }
}

#[test]
fn colour_codes_are_found_as_the_regular_expression_finds_them() {
    let re = regex::Regex::new(r"\x1b\[[0-9;]*[a-zA-Z]").unwrap();
    let pieces = ["\u{1b}", "[", "0", ";", "m", "K", "x", " ", "\u{1b}[1;32m", "9"];
    for text in mixtures(&pieces, 4) {
        assert_eq!(strip_ansi_codes(&text), re.replace_all(&text, "").to_string(), "{:?}", text);
    }
}
