use toy_server::minigrep::{search, search_case_insensitive, Config};
use toy_server::minigrep_iter;
use toy_server::minigrep_iter::search_case_sensitive;
use toy_server::text::contains_text;

#[test]
fn one_result() {
    let query = "me";
    let content = "hey\nit's me\nnot mr. MEME";

    assert_eq!(vec!["it's me"], search(query, content));
}

#[test]
fn case_insensitive() {
    let query = "me";
    let content = "hey\nit's me\nnot mr. MEME";

    assert_eq!(
        vec!["it's me", "not mr. MEME"],
        search_case_insensitive(query, content)
    );
}

#[test]
fn case_sensitive() {
    let query = "me";
    let content = "hey\nit's me\nnot mr. MEME";

    assert_eq!(vec!["it's me"], search_case_sensitive(query, content));
}

#[test]
fn lib_case_insensitive() {
    let query = "ME";
    let content = "hey\nit's me\nnot mr. MEME";

    assert_eq!(vec!["it's me", "not mr. MEME"], minigrep_iter::search(query, content));
}

#[test]
fn search_splits_like_lines() {
    let content = "a me\r\nb\nme c\r\n\nme\n";
    assert_eq!(search("me", content), vec!["a me", "me c", "me"]);
    assert_eq!(search("", content), content.lines().collect::<Vec<_>>());
    assert_eq!(search("", ""), Vec::<&str>::new());
    assert_eq!(search("x", "x\r"), vec!["x\r"]);
}

#[test]
fn contains_text_exact() {
    assert!(contains_text("hey me", "me"));
    assert!(contains_text("abc", ""));
    assert!(!contains_text("hey", "me"));
    assert!(!contains_text("m", "me"));
}

#[test]
fn insensitive_search_lowers_both_sides() {
    assert_eq!(search_case_insensitive("ÄB", "xäby\nzz"), vec!["xäby"]);
    assert_eq!(search_case_insensitive("q", "ABC"), Vec::<&str>::new());
}

#[test]
fn config_needs_three_arguments() {
    let args = vec![String::from("prog"), String::from("q")];
    match Config::new(&args) {
        Err(e) => assert_eq!(e, "not enought arguments: found 2, want 3"),
        Ok(_) => panic!("two arguments accepted"),
    }
    let args = vec![String::from("prog"), String::from("q"), String::from("f.txt")];
    let c = Config::new(&args).ok().unwrap();
    assert_eq!(c.query, "q");
    assert_eq!(c.filename, "f.txt");
}

#[test]
fn iter_config_errors_and_choice() {
    let prog = vec![String::from("prog")];
    assert!(matches!(minigrep_iter::Config::new(&prog, true), Err("query string missing")));
    let two = vec![String::from("prog"), String::from("ME")];
    assert!(matches!(minigrep_iter::Config::new(&two, true), Err("filename missing")));
    let three = vec![String::from("prog"), String::from("ME"), String::from("poem.txt")];
    let c = minigrep_iter::Config::new(&three, false).ok().unwrap();
    assert_eq!(c.filename, "poem.txt");
    assert_eq!(c.matching_lines("hey\nit's me"), vec!["it's me"]);
    let c = minigrep_iter::Config::new(&three, true).ok().unwrap();
    assert_eq!(c.matching_lines("hey\nit's me"), Vec::<&str>::new());
}
