use crossplatform_path::{CrossPathBuf, Error, HostEnv};

const ALPHABET: [char; 16] =
    ['a', 'c', 'o', 'n', 'C', 'É', ':', '/', '\\', '.', ' ', '~', '1', '*', '\t', '\u{a0}'];

/// Every text of at most `max_len` characters over the alphabet.
fn texts(max_len: usize) -> Vec<String> {
    let mut all = vec![String::new()];
    let mut last = vec![String::new()];
    for _ in 0..max_len {
        let mut next = Vec::new();
        for text in &last {
            for c in ALPHABET {
                let mut longer = text.clone();
                longer.push(c);
                next.push(longer);
            }
        }
        all.extend(next.iter().cloned());
        last = next;
    }
    all
}

/// The rules of validation, written with the string functions of the
/// standard library.
fn canonical_by_std(raw: &str) -> Result<String, (&'static str, String)> {
    if raw.contains(['<', '>', '"', '|', '?', '*']) {
        return Err(("InvalidCharacter", raw.to_string()));
    }
    if raw.bytes().any(|byte| byte < 0x20 || byte == 0x7f) {
        return Err(("ForbiddenAscii", raw.to_string()));
    }
    if raw.ends_with([' ', '.']) || raw.trim().ends_with([' ', '.']) {
        return Err(("MustNotEndWith", raw.to_string()));
    }
    let text = raw.trim().replace('\\', "/");
    let delimited = format!("/{}/", text.to_lowercase());
    let mut reserved: Vec<String> = [".", "..", "con", "prn", "aux", "nul"].iter().map(|name| name.to_string()).collect();
    for digit in 1..=9 {
        reserved.push(format!("com{digit}"));
        reserved.push(format!("lpt{digit}"));
    }
    if reserved.iter().any(|name| delimited.contains(&format!("/{name}/"))) {
        return Err(("ReservedWords", raw.to_string()));
    }
    let mut rest = text.chars();
    let rewritten = match (rest.next(), rest.next()) {
        (Some(letter), Some(':')) if letter.is_ascii_alphabetic() => {
            format!("/mnt/{}{}", letter.to_ascii_lowercase(), rest.as_str())
        },
        _ => text,
    };
    if rewritten.contains(':') || rewritten.contains("//") {
        return Err(("InvalidCharacter", rewritten));
    }
    Ok(rewritten)
}

fn outcome(result: Result<CrossPathBuf, Error>) -> Result<String, (&'static str, String)> {
    match result {
        Ok(path) => Ok(path.to_string()),
        Err(Error::InvalidCharacter(text)) => Err(("InvalidCharacter", text)),
        Err(Error::ForbiddenAscii(text)) => Err(("ForbiddenAscii", text)),
        Err(Error::MustNotEndWith(text)) => Err(("MustNotEndWith", text)),
        Err(Error::ReservedWords(text)) => Err(("ReservedWords", text)),
        Err(other) => panic!("unexpected {:?}", other),
    }
}

#[test]
fn validation_agrees_with_the_standard_library() {
    for raw in texts(4) {
        assert_eq!(outcome(CrossPathBuf::new(&raw)), canonical_by_std(&raw), "{:?}", raw);
    }
    for raw in ["c:\\CoN\\x", "x/LPT7/y", "NuL", "a/COM10", " D:\\data\\file.TXT", "~/.config", "/tmp/a.b/c"] {
        assert_eq!(outcome(CrossPathBuf::new(raw)), canonical_by_std(raw), "{:?}", raw);
    }
}

#[test]
fn slashes_are_trimmed_as_the_standard_library_trims_them() {
    for raw in texts(4) {
        if let Ok(path) = CrossPathBuf::new(&raw) {
            let text = path.as_str();
            assert_eq!(path.trim_start_slash().expect("test").as_str(), text.trim_start_matches('/'));
            assert_eq!(path.trim_end_slash().expect("test").as_str(), text.trim_end_matches('/'));
            assert_eq!(path.add_start_slash().expect("test").as_str(), format!("/{}", text.trim_start_matches('/')));
            assert_eq!(path.add_end_slash().expect("test").as_str(), format!("{}/", text.trim_end_matches('/')));
        }
    }
}

#[test]
fn joined_text_is_base_slash_addition() {
    let bases: Vec<CrossPathBuf> = texts(2).iter().filter_map(|raw| CrossPathBuf::new(raw).ok()).collect();
    for addition in texts(3) {
        for base in &bases {
            let expected = canonical_by_std(&addition).map(|second| {
                format!("{}/{}", base.as_str().trim_end_matches('/'), second.trim_start_matches('/'))
            });
            assert_eq!(outcome(base.join_relative(&addition)), expected, "{:?} {:?}", base, addition);
        }
    }
}

#[test]
fn every_path_is_well_formed() {
    let bases: Vec<CrossPathBuf> = texts(3).iter().filter_map(|raw| CrossPathBuf::new(raw).ok()).collect();
    let well_formed = |path: &CrossPathBuf| {
        let text = path.as_str();
        !text.contains(['\\', ':', '<', '>', '"', '|', '?', '*'])
            && !text.contains("//")
            && !text.chars().any(|c| c.is_ascii_control())
    };
    for base in &bases {
        assert!(well_formed(base));
        for derived in [base.trim_start_slash(), base.trim_end_slash(), base.add_start_slash(), base.add_end_slash()] {
            assert!(well_formed(&derived.expect("test")));
        }
        for addition in ["x", "/x/", "c:y", ""] {
            assert!(well_formed(&base.join_relative(addition).expect("test")));
        }
    }
}

#[test]
fn shown_text_is_cut_as_the_characters_are_counted() {
    let path = CrossPathBuf::new("äb/čd/日本/файл.txt").expect("test");
    let chars: Vec<char> = path.as_str().chars().collect();
    for max_char in 0..=chars.len() as u16 + 2 {
        let shown = path.short_string(max_char);
        if chars.len() <= max_char as usize {
            assert_eq!(shown.expect("test"), path.as_str());
        } else if max_char < 4 {
            assert!(matches!(shown, Err(Error::CharIndicesNthError(_))));
        } else {
            let half = (max_char / 2 - 2) as usize;
            let head: String = chars[..half].iter().collect();
            let tail: String = chars[chars.len() - half..].iter().collect();
            assert_eq!(shown.expect("test"), format!("{head}...{tail}"));
        }
    }
}

#[test]
fn native_forms_replace_the_prefixes() {
    let env = HostEnv { windows: true, home_dir: Some("H".to_string()), temp_dir: "T".to_string() };
    for raw in texts(3).iter().chain(["~/x", "/tmp/x", "/mnt/c/x", "/tmpx", "/mnt/"].map(String::from).iter()) {
        if let Ok(path) = CrossPathBuf::new(raw) {
            let text = path.as_str();
            let home = match text.strip_prefix('~') {
                Some(rest) => format!("H{rest}"),
                None => text.to_string(),
            };
            let posix = match home.strip_prefix("/tmp") {
                Some(rest) => format!("T{rest}"),
                None => home.clone(),
            };
            assert_eq!(path.to_posix_string(&env), posix, "{:?}", path);
            let drive = match home.strip_prefix("/mnt/") {
                Some(rest) if !rest.is_empty() => {
                    let mut chars = rest.chars();
                    format!("{}:{}", chars.next().expect("test"), chars.as_str())
                },
                _ => home,
            };
            let windows = match drive.strip_prefix("/tmp") {
                Some(rest) => format!("T{rest}"),
                None => drive,
            };
            assert_eq!(path.to_windows_string(&env), windows, "{:?}", path);
            assert_eq!(path.to_native_string(&env), windows);
        }
    }
}
