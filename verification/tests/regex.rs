use riji::api::regex::{capt_to_arr, Regex};

fn owned(items: &[&str]) -> Vec<String> {
    items.iter().map(|s| s.to_string()).collect()
}

#[test]
fn pattern_is_kept() {
    let re = Regex::new(r"a+b").unwrap();
    assert_eq!(re.pattern(), r"a+b");
}

#[test]
fn broken_pattern_is_an_error() {
    match Regex::new(r"foo(bar") {
        Ok(_) => panic!("an unclosed group is no pattern"),
        Err(message) => assert!(message.contains("unclosed group")),
    }
}

#[test]
fn matches_anywhere_in_the_text() {
    let mut re = Regex::new(r"\d{3}").unwrap();
    assert!(re.matches("call 555 now"));
    assert!(!re.matches("call 55 now"));
    assert!(!re.matches(r"\d{3}"));
}

#[test]
fn find_gives_the_first_match() {
    let mut re = Regex::new(r"[a-z]+\d").unwrap();
    assert_eq!(re.find("12 ab3 cd4"), "ab3");
}

#[test]
fn find_gives_nothing_as_empty_text() {
    let mut re = Regex::new(r"[a-z]+\d").unwrap();
    assert_eq!(re.find("12 34"), "");
}

#[test]
fn captures_fill_groups_that_took_no_part() {
    let mut re = Regex::new(r"(\w+)@(\w+)(\.com)?").unwrap();
    assert_eq!(re.captures("to bob@site now"), owned(&["bob@site", "bob", "site", ""]));
    assert_eq!(
        re.captures("to bob@site.com now"),
        owned(&["bob@site.com", "bob", "site", ".com"])
    );
}

#[test]
fn captures_without_a_match_are_no_strings() {
    let mut re = Regex::new(r"(\w+)@(\w+)").unwrap();
    assert!(re.captures("nothing here").is_empty());
}

#[test]
fn captures_all_go_from_left_to_right() {
    let mut re = Regex::new(r"(\w)=(\d)?").unwrap();
    assert_eq!(
        re.captures_all("a=1, b=, c=3"),
        vec![owned(&["a=1", "a", "1"]), owned(&["b=", "b", ""]), owned(&["c=3", "c", "3"])]
    );
    assert!(re.captures_all("none").is_empty());
}

#[test]
fn replace_reaches_every_match() {
    let mut re = Regex::new(r"(\w+)-(\w+)").unwrap();
    assert_eq!(re.replace("a-b c-d", "$2-$1"), "b-a d-c");
}

#[test]
fn replace_without_a_match_gives_the_text() {
    let mut re = Regex::new(r"\d").unwrap();
    assert_eq!(re.replace("no digits", "#"), "no digits");
    assert!(re.replacement("no digits", "#").is_none());
}

#[test]
fn replacement_is_there_even_if_nothing_changes() {
    let mut re = Regex::new(r"a").unwrap();
    assert_eq!(re.replacement("banana", "a"), Some(String::from("banana")));
    assert_eq!(re.replacement("banana", "o"), Some(String::from("bonono")));
}

#[test]
fn clone_matches_like_its_source() {
    let mut re = Regex::new(r"^x+$").unwrap();
    let mut copy = re.clone();
    assert!(re.matches("xxx"));
    assert!(copy.matches("xxx"));
    assert!(!copy.matches("xyx"));
    assert_eq!(copy.pattern(), r"^x+$");
}

#[test]
fn empty_groups_become_empty_strings() {
    let capt = vec![Some(String::from("whole")), None, Some(String::from("last")), None];
    assert_eq!(capt_to_arr(capt), owned(&["whole", "", "last", ""]));
    assert!(capt_to_arr(Vec::new()).is_empty());
}
