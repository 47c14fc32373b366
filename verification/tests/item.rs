use gqa_l9::item::{reference_kind, ItemClass, ItemSearchOptions, ReferenceKind, SearchParam};

fn describe(ps: &[SearchParam]) -> Vec<String> {
    ps.iter()
        .map(|p| match p {
            SearchParam::SearchList(k) => format!("keychains {}", k.join(",")),
            SearchParam::Class(c) => format!("class {:?}", c),
            SearchParam::ReturnRef(b) => format!("ref {}", b),
            SearchParam::MatchLimit(n) => format!("limit {}", n),
            SearchParam::Label(l) => format!("label {}", l),
        })
        .collect()
}

#[test]
fn classes() {
    assert_eq!(ItemClass::generic_password(), ItemClass::GenericPassword);
    assert_eq!(ItemClass::internet_password(), ItemClass::InternetPassword);
    assert_eq!(ItemClass::certificate(), ItemClass::Certificate);
    assert_eq!(ItemClass::key(), ItemClass::Key);
    assert_eq!(ItemClass::identity(), ItemClass::Identity);
}

#[test]
fn default_search_sends_nothing() {
    assert!(ItemSearchOptions::new().search_params().is_empty());
}

#[test]
fn limit_two_query() {
    let mut o = ItemSearchOptions::new();
    o.class(ItemClass::certificate()).limit(2);
    assert_eq!(describe(&o.search_params()), vec!["class Certificate", "limit 2"]);
}

#[test]
fn full_query_in_order() {
    let mut o = ItemSearchOptions::new();
    o.label("mine").limit(5).load_refs(true).class(ItemClass::key());
    assert_eq!(
        describe(&o.search_params()),
        vec!["class Key", "ref true", "limit 5", "label mine"]
    );
}

#[test]
fn load_refs_false_sends_nothing() {
    let mut o = ItemSearchOptions::new();
    o.load_refs(true).load_refs(false);
    assert!(o.search_params().is_empty());
}

#[test]
fn later_settings_replace_earlier() {
    let mut o = ItemSearchOptions::new();
    o.class(ItemClass::key()).class(ItemClass::identity()).limit(1).limit(-3);
    assert_eq!(describe(&o.search_params()), vec!["class Identity", "limit -3"]);
}

#[test]
fn reference_kinds() {
    assert_eq!(reference_kind(1, 1, 2, 3, None), Some(ReferenceKind::Certificate));
    assert_eq!(reference_kind(2, 1, 2, 3, None), Some(ReferenceKind::Key));
    assert_eq!(reference_kind(3, 1, 2, 3, None), Some(ReferenceKind::Identity));
    assert_eq!(reference_kind(4, 1, 2, 3, None), None);
    assert_eq!(reference_kind(4, 1, 2, 3, Some(4)), Some(ReferenceKind::KeychainItem));
    assert_eq!(reference_kind(5, 1, 2, 3, Some(4)), None);
    // certificates are tried first, keychain items last
    assert_eq!(reference_kind(7, 7, 7, 7, Some(7)), Some(ReferenceKind::Certificate));
    assert_eq!(reference_kind(7, 1, 7, 7, Some(7)), Some(ReferenceKind::Key));
    assert_eq!(reference_kind(7, 1, 2, 7, Some(7)), Some(ReferenceKind::Identity));
}

#[test]
fn keychains_come_first() {
    let mut o = ItemSearchOptions::new();
    o.limit(3).keychains(&["/a/login.keychain", "/b/x.keychain"]);
    assert_eq!(
        describe(&o.search_params()),
        vec!["keychains /a/login.keychain,/b/x.keychain", "limit 3"]
    );
}

#[test]
fn empty_keychain_list_is_still_sent() {
    let mut o = ItemSearchOptions::new();
    o.keychains(&[]);
    assert_eq!(describe(&o.search_params()), vec!["keychains "]);
}

#[test]
fn default_options_are_new_options() {
    let o: ItemSearchOptions = Default::default();
    assert!(o.search_params().is_empty());
}
