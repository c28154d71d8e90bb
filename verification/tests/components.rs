use crossplatform_path::{CrossPathBuf, Error, HostEnv};

fn linux_host() -> HostEnv {
    HostEnv { windows: false, home_dir: Some("/home/rustdevuser".to_string()), temp_dir: "/tmp".to_string() }
}

#[test]
fn test_07_file_name() {
    let env = linux_host();
    let cross_path = CrossPathBuf::new(r#"foo/bar.txt"#).expect("test");
    assert_eq!(cross_path.file_name(&env).expect("test"), "bar.txt");
    assert_eq!(cross_path.file_stem(&env).expect("test"), "bar");
    assert_eq!(cross_path.extension(&env).expect("test"), "txt");

    let cross_path = cross_path.replace_extension(&env, "md").expect("test");
    assert_eq!(cross_path.file_name(&env).expect("test"), "bar.md");
    assert_eq!(cross_path.file_stem(&env).expect("test"), "bar");
    assert_eq!(cross_path.extension(&env).expect("test"), "md");
}

#[test]
fn replaced_extension_shows_in_the_text() {
    let env = linux_host();
    let path = CrossPathBuf::new("foo/bar.txt").expect("test");
    assert_eq!(path.replace_extension(&env, "md").expect("test").as_str(), "foo/bar.md");
    assert_eq!(path.replace_extension(&env, "").expect("test").as_str(), "foo/bar");
    assert_eq!(path.replace_extension(&env, "tar.gz").expect("test").as_str(), "foo/bar.tar.gz");
}

#[test]
fn extension_is_added_where_there_was_none() {
    let env = linux_host();
    let path = CrossPathBuf::new("foo/bar").expect("test");
    assert_eq!(path.extension(&env).expect("test"), "");
    assert_eq!(path.replace_extension(&env, "md").expect("test").as_str(), "foo/bar.md");
    assert_eq!(path.replace_extension(&env, "").expect("test").as_str(), "foo/bar");
    let hidden = CrossPathBuf::new(".profile").expect("test");
    assert_eq!(hidden.extension(&env).expect("test"), "");
    assert_eq!(hidden.file_stem(&env).expect("test"), ".profile");
    assert_eq!(hidden.replace_extension(&env, "bak").expect("test").as_str(), ".profile.bak");
}

#[test]
fn only_the_last_extension_is_replaced() {
    let env = linux_host();
    let path = CrossPathBuf::new("a/b.tar.gz").expect("test");
    assert_eq!(path.extension(&env).expect("test"), "gz");
    assert_eq!(path.file_stem(&env).expect("test"), "b.tar");
    assert_eq!(path.replace_extension(&env, "xz").expect("test").as_str(), "a/b.tar.xz");
    let dots = CrossPathBuf::new("a/b..txt").expect("test");
    assert_eq!(dots.replace_extension(&env, "md").expect("test").as_str(), "a/b.md");
    assert_eq!(dots.replace_extension(&env, "").expect("test").as_str(), "a/b");
}

#[test]
fn replaced_extension_is_validated() {
    let env = linux_host();
    let path = CrossPathBuf::new("foo/bar.txt").expect("test");
    assert!(matches!(path.replace_extension(&env, "m?"), Err(Error::InvalidCharacter(_))));
    assert!(matches!(path.replace_extension(&env, "md."), Err(Error::MustNotEndWith(_))));
    assert!(matches!(path.replace_extension(&env, "a:b"), Err(Error::InvalidCharacter(_))));
    let con = CrossPathBuf::new("x/con.txt").expect("test");
    assert!(matches!(con.replace_extension(&env, ""), Err(Error::ReservedWords(_))));
}

#[test]
fn given_extension_is_stripped_as_often_as_it_ends_the_text() {
    let path = CrossPathBuf::new("a/b.tartar").expect("test");
    assert_eq!(path.with_extension_replaced("tar", "x").expect("test").as_str(), "a/b.x");
    assert_eq!(path.with_extension_replaced("", "x").expect("test").as_str(), "a/b.tartar.x");
    assert_eq!(path.with_extension_replaced("zip", "x").expect("test").as_str(), "a/b.tartar.x");
    assert_eq!(path.with_extension_replaced("a/b.tartar", "x").expect("test").as_str(), ".x");
    assert_eq!(path.with_extension_replaced("tartar", "").expect("test").as_str(), "a/b");
}

#[test]
fn root_has_no_file_name() {
    let env = linux_host();
    let root = CrossPathBuf::new("/").expect("test");
    for outcome in [root.file_name(&env), root.file_stem(&env), root.extension(&env)] {
        match outcome {
            Err(Error::NoFileName(text)) => assert_eq!(text, "/"),
            other => panic!("unexpected {:?}", other),
        }
    }
    match root.replace_extension(&env, "md") {
        Err(Error::NoFileName(text)) => assert_eq!(text, "/"),
        other => panic!("unexpected {:?}", other),
    }
}

#[test]
fn final_component_of_a_directory_is_its_name() {
    let env = linux_host();
    let path = CrossPathBuf::new("a/b.d/").expect("test");
    assert_eq!(path.file_name(&env).expect("test"), "b.d");
    assert_eq!(path.extension(&env).expect("test"), "d");
    assert_eq!(path.replace_extension(&env, "x").expect("test").as_str(), "a/b.d/.x");
}

#[test]
fn parts_are_taken_from_the_native_form() {
    let env = linux_host();
    let home = CrossPathBuf::new("~").expect("test");
    assert_eq!(home.file_name(&env).expect("test"), "rustdevuser");
    assert_eq!(home.parent(&env).expect("test").as_str(), "/home");
    let windows = HostEnv { windows: true, home_dir: None, temp_dir: "/t.d".to_string() };
    let temp = CrossPathBuf::new("/tmp").expect("test");
    assert_eq!(temp.file_name(&windows).expect("test"), "t.d");
    assert_eq!(temp.extension(&windows).expect("test"), "d");
}

#[test]
fn parent_is_the_path_without_its_final_component() {
    let env = linux_host();
    let path = CrossPathBuf::new("a/b/c.txt").expect("test");
    assert_eq!(path.parent(&env).expect("test").as_str(), "a/b");
    assert_eq!(path.parent(&env).expect("test").parent(&env).expect("test").as_str(), "a");
    let single = CrossPathBuf::new("a").expect("test");
    assert_eq!(single.parent(&env).expect("test").as_str(), "");
    assert_eq!(CrossPathBuf::new("/a").expect("test").parent(&env).expect("test").as_str(), "/");
}

#[test]
fn root_and_the_empty_path_have_no_parent() {
    let env = linux_host();
    for raw in ["/", ""] {
        match CrossPathBuf::new(raw).expect("test").parent(&env) {
            Err(Error::NoParent(text)) => assert_eq!(text, raw),
            other => panic!("unexpected {:?}", other),
        }
    }
}

#[test]
fn parent_is_validated() {
    let env = HostEnv { windows: false, home_dir: Some("/ho?me/me".to_string()), temp_dir: "/tmp".to_string() };
    let path = CrossPathBuf::new("~/x").expect("test");
    match path.parent(&env) {
        Err(Error::InvalidCharacter(text)) => assert_eq!(text, "/ho?me/me"),
        other => panic!("unexpected {:?}", other),
    }
}

#[test]
fn what_the_platform_found_decides() {
    let path = CrossPathBuf::new("a/b").expect("test");
    assert_eq!(path.name_or_error(Some("b".to_string())).expect("test"), "b");
    assert!(matches!(path.name_or_error(None), Err(Error::NoFileName(text)) if text == "a/b"));
    assert_eq!(path.extension_or_empty(Some("b".to_string()), None).expect("test"), "");
    assert_eq!(path.extension_or_empty(Some("b.c".to_string()), Some("c".to_string())).expect("test"), "c");
    assert!(matches!(path.extension_or_empty(None, Some("c".to_string())), Err(Error::NoFileName(_))));
    assert_eq!(path.parent_or_error(Some(r"x\y".to_string())).expect("test").as_str(), "x/y");
    assert!(matches!(path.parent_or_error(None), Err(Error::NoParent(text)) if text == "a/b"));
    assert!(matches!(path.parent_or_error(Some("..".to_string())), Err(Error::MustNotEndWith(_))));
}
