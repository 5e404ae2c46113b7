use libafl::mutators::{mopt_mutator::MOpt, Tokens};
use libafl_bolts::serdeany::SerdeAnyMap;
use mopt_cmplog::tokens::{fresh_tokens, install_tokens, lacks_tokens};

fn tokens(words: &[&str]) -> Tokens {
    let mut list = fresh_tokens();
    for word in words {
        list.add_token(&word.as_bytes().to_vec());
    }
    list
}

fn stored(metadata: &SerdeAnyMap) -> Vec<String> {
    metadata
        .get::<Tokens>()
        .unwrap()
        .tokens()
        .iter()
        .map(|t| String::from_utf8(t.clone()).unwrap())
        .collect()
}

#[test]
fn a_fresh_list_is_empty() {
    assert!(fresh_tokens().is_empty());
    assert!(fresh_tokens().add_token(&vec![1]));
}

#[test]
fn file_and_built_in_tokens_are_put_together() {
    let mut metadata = SerdeAnyMap::new();
    assert!(lacks_tokens(&metadata));
    install_tokens(
        &mut metadata,
        tokens(&["GET", "POST"]),
        Some(tokens(&["HTTP", "GET", "HEAD"])),
    );
    assert!(!lacks_tokens(&metadata));
    assert_eq!(stored(&metadata), ["GET", "POST", "HTTP", "HEAD"]);
}

#[test]
fn either_source_will_do() {
    let mut metadata = SerdeAnyMap::new();
    install_tokens(&mut metadata, tokens(&["A", "B", "A"]), None);
    assert_eq!(stored(&metadata), ["A", "B"]);
    let mut metadata = SerdeAnyMap::new();
    install_tokens(&mut metadata, fresh_tokens(), Some(tokens(&["Z"])));
    assert_eq!(stored(&metadata), ["Z"]);
}

#[test]
fn an_empty_dictionary_is_not_stored() {
    let mut metadata = SerdeAnyMap::new();
    install_tokens(&mut metadata, fresh_tokens(), Some(fresh_tokens()));
    assert!(lacks_tokens(&metadata));
    install_tokens(&mut metadata, fresh_tokens(), None);
    assert!(lacks_tokens(&metadata));
    assert_eq!(metadata.len(), 0);
}

#[test]
fn a_dictionary_that_is_there_is_kept() {
    let mut metadata = SerdeAnyMap::new();
    install_tokens(&mut metadata, tokens(&["old"]), None);
    install_tokens(&mut metadata, tokens(&["new"]), Some(tokens(&["newer"])));
    assert_eq!(stored(&metadata), ["old"]);
}

#[test]
fn other_metadata_is_left_alone() {
    let mut metadata = SerdeAnyMap::new();
    metadata.insert(MOpt::new(3, 5, 1).unwrap());
    let before = format!("{:?}", metadata.get::<MOpt>().unwrap());
    install_tokens(&mut metadata, tokens(&["a"]), None);
    assert_eq!(metadata.len(), 2);
    assert_eq!(format!("{:?}", metadata.get::<MOpt>().unwrap()), before);
    assert_eq!(stored(&metadata), ["a"]);
}

#[test]
fn a_stored_dictionary_turns_away_what_it_holds() {
    let mut metadata = SerdeAnyMap::new();
    install_tokens(&mut metadata, tokens(&["GET"]), Some(tokens(&["HTTP", "GET"])));
    let list = metadata.get_mut::<Tokens>().unwrap();
    assert!(!list.add_token(&b"GET".to_vec()));
    assert!(!list.add_token(&b"HTTP".to_vec()));
    assert!(list.add_token(&b"HEAD".to_vec()));
    assert_eq!(stored(&metadata), ["GET", "HTTP", "HEAD"]);
}
