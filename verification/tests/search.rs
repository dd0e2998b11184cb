use ollama_cli::search::{
    extract_model_name, lower_name_contains, matches_query, model_name_in, scan_catalog,
    split_lines, ModelSearch, POPULAR_CAP, SEARCH_CAP,
};
use ollama_cli::text::{chars_of, find_from, occurs};

const BASE: &str = "https://ollama.com/library/";

fn anchor(name: &str) -> String {
    format!("  <a class=\"x\" href=\"/library/{}\">{}</a>", name, name)
}

fn page(names: &[String]) -> String {
    let mut body = String::from("<html>\n<body>\n");
    for name in names {
        body.push_str(&anchor(name));
        body.push('\n');
    }
    body.push_str("</body>\n</html>\n");
    body
}

fn names_of(entries: &[ollama_cli::search::OnlineModel]) -> Vec<String> {
    entries.iter().map(|e| e.name.clone()).collect()
}

#[test]
fn a_catalog_link_gives_its_name() {
    assert_eq!(extract_model_name("<a href=\"/library/llama3\">", BASE), Some("llama3".to_string()));
    assert_eq!(extract_model_name("href=\"/library/llama3\"", ""), Some("llama3".to_string()));
}

#[test]
fn a_longer_address_gives_no_name() {
    assert_eq!(extract_model_name("<a href=\"/library/llama3/tags\">", BASE), None);
    assert_eq!(extract_model_name("<a href=\"/library/llama3?x=1\">", BASE), None);
}

#[test]
fn other_links_give_no_name() {
    assert_eq!(extract_model_name("no link here", BASE), None);
    assert_eq!(extract_model_name("<a href=\"/library/llama3>", BASE), None);
    assert_eq!(extract_model_name("<a href=\"/library/\">", BASE), None);
    assert_eq!(extract_model_name("<a href=\"/library\">", BASE), None);
    assert_eq!(extract_model_name("<a href=\"/blog/llama3\">", BASE), None);
    assert_eq!(extract_model_name("<a href=\"https://ollama.com/library/llama3\">", BASE), None);
    assert_eq!(extract_model_name("<a href=\"\">", BASE), None);
    assert_eq!(extract_model_name("", BASE), None);
}

#[test]
fn only_the_first_link_of_a_line_counts() {
    let line = "<a href=\"/about\">x</a> <a href=\"/library/phi3\">y</a>";
    assert_eq!(extract_model_name(line, BASE), None);
    let line = "<a href=\"/library/phi3\">y</a> <a href=\"/about\">x</a>";
    assert_eq!(extract_model_name(line, BASE), Some("phi3".to_string()));
}

#[test]
fn a_repeated_prefix_gives_no_name() {
    assert_eq!(extract_model_name("<a href=\"/library//library/llama3\">", BASE), None);
    assert_eq!(extract_model_name("<a href=\"/library//library/phi3\">", BASE), None);
    assert_eq!(extract_model_name("<a href=\"/library//library/\">", BASE), None);
    assert_eq!(extract_model_name("<a href=\"/library//\">", BASE), None);
    let body = "<a href=\"/library//library/llama3\">\n<a href=\"/library/phi3\">";
    let entries = scan_catalog(body, "", 10);
    assert_eq!(names_of(&entries), vec!["phi3"]);
}

#[test]
fn a_name_keeps_its_characters() {
    assert_eq!(model_name_in(&chars_of("href=\"/library/\u{e9}-1\"")), Some("\u{e9}-1".to_string()));
    assert_eq!(
        extract_model_name("<a href=\"/library/llama3.1:8b\">", BASE),
        Some("llama3.1:8b".to_string())
    );
}

#[test]
fn a_scan_lists_each_entry_once_in_order() {
    let body = page(&["llama3".to_string(), "phi3".to_string(), "llama3".to_string(), "gemma".to_string(), "phi3".to_string()]);
    let entries = scan_catalog(&body, "", 10);
    assert_eq!(names_of(&entries), vec!["llama3", "phi3", "gemma"]);
    assert_eq!(entries[0].url, "https://ollama.com/library/llama3");
    assert_eq!(entries[2].url, "https://ollama.com/library/gemma");
    assert!(entries.iter().all(|e| e.description.is_none()));
    let entries = scan_catalog(&body, "", 2);
    assert_eq!(names_of(&entries), vec!["llama3", "phi3"]);
    assert!(scan_catalog(&body, "", 0).is_empty());
    assert!(scan_catalog("", "", 10).is_empty());
}

#[test]
fn a_scan_needs_an_anchor_on_the_line() {
    let body = "href=\"/library/a\"\n<a href=\"/library/b\">\n<a id=\"/library/\" href=\"/x\">\n<b href=\"/library/c\">";
    assert_eq!(names_of(&scan_catalog(body, "", 10)), vec!["b"]);
}

#[test]
fn a_search_sets_letter_case_aside() {
    let body = page(&["Llama3".to_string(), "phi3".to_string(), "codellama".to_string(), "CodeLLaMA-2".to_string()]);
    let search = ModelSearch::new();
    let entries = search.search_online(&body, "LLAMA");
    assert_eq!(names_of(&entries), vec!["Llama3", "codellama", "CodeLLaMA-2"]);
    assert_eq!(names_of(&search.search_online(&body, "phi")), vec!["phi3"]);
    assert!(search.search_online(&body, "mistral").is_empty());
    assert_eq!(search.search_online(&body, "").len(), 4);
    assert!(matches_query("Llama3", "llama"));
    assert!(matches_query("llama3", "LLAMA"));
    assert!(matches_query("x", ""));
    assert!(!matches_query("llama3", "llama4"));
    assert!(lower_name_contains(&chars_of("llama3"), &chars_of("ma3")));
    assert!(!lower_name_contains(&chars_of("llama3"), &chars_of("MA3")));
}

#[test]
fn a_search_stops_at_fifty() {
    let mut names: Vec<String> = Vec::new();
    for i in 0..70 {
        names.push(format!("model{}", i));
        names.push(format!("model{}", i / 2));
    }
    let body = page(&names);
    let search = ModelSearch::new();
    let entries = search.search_online(&body, "model");
    assert_eq!(SEARCH_CAP, 50);
    assert_eq!(entries.len(), 50);
    let expected: Vec<String> = (0..50).map(|i| format!("model{}", i)).collect();
    assert_eq!(names_of(&entries), expected);
}

#[test]
fn the_popular_listing_stops_at_thirty() {
    let mut names: Vec<String> = Vec::new();
    for i in 0..40 {
        names.push(format!("m{}", i));
        names.push(format!("m{}", i));
    }
    let body = page(&names);
    let search = ModelSearch::new();
    let entries = search.get_popular_models(&body);
    assert_eq!(POPULAR_CAP, 30);
    assert_eq!(entries.len(), 30);
    let expected: Vec<String> = (0..30).map(|i| format!("m{}", i)).collect();
    assert_eq!(names_of(&entries), expected);
    assert_eq!(search.search_url(), "https://ollama.com/library");
    assert_eq!(search.popular_url(), "https://ollama.com/library?sort=popular");
}

#[test]
fn lines_end_at_line_feeds() {
    let split = |s: &str| -> Vec<String> {
        split_lines(&chars_of(s)).iter().map(|l| l.iter().collect()).collect()
    };
    assert_eq!(split("a\nb"), vec!["a", "b"]);
    assert_eq!(split("a\nb\n"), vec!["a", "b"]);
    assert_eq!(split("a\r\nb\r\n"), vec!["a", "b"]);
    assert_eq!(split("a\n\nb"), vec!["a", "", "b"]);
    assert_eq!(split("\n"), vec![""]);
    assert_eq!(split("a\rb\r"), vec!["a\rb\r"]);
    assert_eq!(split("\r\n"), vec![""]);
    assert!(split("").is_empty());
    for s in ["a\nb", "a\nb\n", "a\r\nb\r\n", "a\n\nb", "\n", "a\rb\r", "\r\n", "", "\n\r\n\r", "x\r\r\n"] {
        let expected: Vec<String> = s.lines().map(|l| l.to_string()).collect();
        assert_eq!(split(s), expected);
    }
}

#[test]
fn patterns_are_found_where_they_first_stand() {
    let text = chars_of("abcabc");
    assert_eq!(find_from(&text, &chars_of("bc"), 0), Some(1));
    assert_eq!(find_from(&text, &chars_of("bc"), 2), Some(4));
    assert_eq!(find_from(&text, &chars_of("bc"), 5), None);
    assert_eq!(find_from(&text, &chars_of("x"), 0), None);
    assert_eq!(find_from(&text, &chars_of(""), 6), Some(6));
    assert_eq!(find_from(&text, &chars_of(""), 7), None);
    assert_eq!(find_from(&text, &chars_of("abcabcd"), 0), None);
    assert!(occurs(&text, &chars_of("abc"), 3));
    assert!(!occurs(&text, &chars_of("abc"), 4));
    assert_eq!(chars_of("é!"), vec!['é', '!']);
}
