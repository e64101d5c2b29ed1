use piston_rs::{Executor, File};

#[test]
fn fresh_executor_asks_for_any_version() {
    let e = Executor::new();
    assert_eq!(e.language, "");
    assert_eq!(e.version, "*");
    assert!(e.files.is_empty());
    assert_eq!(e.stdin, "");
    assert!(e.args.is_empty());
    assert_eq!(e.compile_timeout, None);
    assert_eq!(e.run_memory_limit, None);
    assert_eq!(Executor::default(), e);
}

#[test]
fn setters_change_one_field() {
    let e = Executor::new()
        .set_language("rust")
        .set_version("1.50.0")
        .set_stdin("input")
        .add_arg("a")
        .add_args(vec!["b".to_string(), "c".to_string()])
        .set_compile_timeout(10000)
        .set_run_timeout(3000)
        .set_compile_memory_limit(-1)
        .set_run_memory_limit(1024);
    assert_eq!(e.language, "rust");
    assert_eq!(e.version, "1.50.0");
    assert_eq!(e.stdin, "input");
    assert_eq!(e.args, vec!["a", "b", "c"]);
    assert_eq!(e.compile_timeout, Some(10000));
    assert_eq!(e.run_timeout, Some(3000));
    assert_eq!(e.compile_memory_limit, Some(-1));
    assert_eq!(e.run_memory_limit, Some(1024));
}

#[test]
fn files_keep_their_order() {
    let a = File::default().set_name("a.rs").set_content("1");
    let b = File::default().set_name("b.rs").set_content("2");
    let c = File::default().set_name("c.rs").set_content("3");
    let e = Executor::new().add_file(a.clone()).add_files(vec![b.clone(), c.clone()]);
    assert_eq!(e.files, vec![a, b, c]);
}

#[test]
fn file_setters() {
    let f = File::default();
    assert_eq!(f.name, None);
    assert_eq!(f.content, "");
    assert_eq!(f.encoding, None);
    let f = f.set_name("main.rs").set_content("fn main() {}").set_encoding("utf8");
    assert_eq!(f.name.as_deref(), Some("main.rs"));
    assert_eq!(f.content, "fn main() {}");
    assert_eq!(f.encoding.as_deref(), Some("utf8"));
}
