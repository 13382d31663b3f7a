use flashy::search::Searcher;
use flashy::text::add_nums_to_text;

#[test]
fn test_index_table_correct() {
    let mut searcher = Searcher {
        search_string: "abcdab".to_string(),
        text: Vec::new(),
        table: Vec::new(),
        valid_strings: Vec::new(),
    };
    searcher.build();
    assert_eq!(vec![0, 0, 0, 0, 0, 1, 2], searcher.get_index_table());
}

#[test]
fn index_table_with_overlapping_borders() {
    let mut searcher = Searcher::new(Vec::new());
    searcher.set_search_string("aabaa");
    assert_eq!(vec![0, 0, 1, 0, 1, 2], searcher.get_index_table());
}

#[test]
fn kmp_finds_and_rejects_substrings() {
    let mut searcher = Searcher::new(Vec::new());
    searcher.set_search_string("aab");
    let table = searcher.get_index_table();
    assert!(Searcher::kmp("aab", "aaab", &table));
    assert!(Searcher::kmp("aab", "aab", &table));
    assert!(!Searcher::kmp("aab", "aba", &table));
    assert!(!Searcher::kmp("aab", "aa", &table));
}

#[test]
fn empty_pattern_matches_everything() {
    let searcher = Searcher::new(vec!["alpha", "", "gamma"]);
    let table = searcher.get_index_table();
    assert!(Searcher::kmp("", "anything", &table));
    assert!(Searcher::kmp("", "", &table));
    assert_eq!(
        searcher.get_text(),
        vec!["alpha".to_string(), "".to_string(), "gamma".to_string()]
    );
}

#[test]
fn filter_keeps_order() {
    let mut searcher = Searcher::new(vec!["apple", "banana", "grape"]);
    searcher.set_search_string("an");
    assert_eq!(searcher.get_text(), vec!["banana".to_string()]);
}

#[test]
fn filter_many_matches_keep_order() {
    let mut searcher = Searcher::new(vec!["apple", "banana", "grape"]);
    searcher.set_search_string("ap");
    assert_eq!(
        searcher.get_text(),
        vec!["apple".to_string(), "grape".to_string()]
    );
}

#[test]
fn incremental_append_equals_from_scratch() {
    let mut incremental = Searcher::new(vec!["apple", "banana", "grape", "anise"]);
    incremental.push_and_search('a');
    incremental.push_and_search('n');
    let mut fresh = Searcher::new(vec!["apple", "banana", "grape", "anise"]);
    fresh.set_search_string("an");
    assert_eq!(incremental.get_text(), fresh.get_text());
    assert_eq!(
        incremental.get_text(),
        vec!["banana".to_string(), "anise".to_string()]
    );
}

#[test]
fn incremental_remove_equals_from_scratch() {
    let mut incremental = Searcher::new(vec!["apple", "banana", "grape"]);
    incremental.push_and_search('a');
    incremental.push_and_search('n');
    incremental.push_and_search('x');
    assert_eq!(incremental.get_text(), Vec::<String>::new());
    incremental.pop_and_search();
    let mut fresh = Searcher::new(vec!["apple", "banana", "grape"]);
    fresh.set_search_string("an");
    assert_eq!(incremental.get_text(), fresh.get_text());
}

#[test]
fn pop_on_empty_query_is_a_no_op() {
    let mut searcher = Searcher::new(vec!["apple"]);
    searcher.pop_and_search();
    assert_eq!(searcher.get_search_string(), "".to_string());
    assert_eq!(searcher.get_text(), vec!["apple".to_string()]);
}

#[test]
fn pattern_longer_than_candidate_never_matches() {
    let mut searcher = Searcher::new(vec!["ab"]);
    searcher.set_search_string("abc");
    assert_eq!(searcher.get_text(), Vec::<String>::new());
}

#[test]
fn query_is_reported_back() {
    let mut searcher = Searcher::new(Vec::new());
    searcher.push_and_search('h');
    searcher.push_and_search('i');
    assert_eq!(searcher.get_search_string(), "hi".to_string());
    searcher.pop_and_search();
    assert_eq!(searcher.get_search_string(), "h".to_string());
}

#[test]
fn numbered_lines_use_a_four_column_gutter() {
    let lines: Vec<String> = (0..12).map(|i| format!("item{}", i)).collect();
    let numbered = add_nums_to_text(lines);
    assert_eq!(numbered[0], "1    item0".to_string());
    assert_eq!(numbered[9], "10   item9".to_string());
    assert_eq!(numbered[11], "12   item11".to_string());
}

#[test]
fn numbering_an_empty_list_gives_an_empty_list() {
    assert_eq!(add_nums_to_text(Vec::new()), Vec::<String>::new());
}
