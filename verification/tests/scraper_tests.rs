use jihaz::scraper::{
    attr_or_not_found, first_where, keep_where, map_each, PickElement, PickElementError,
    PickedElement,
};

const PAGE: &str = r#"<html><body>
<div class="Card first"><a class="link" href="/one">One</a></div>
<div class="card"><a class="link">Two</a><span class="note">n</span></div>
<div class="other"><a class="LINK" href="/three">Three</a></div>
</body></html>"#;

fn text_of(element: PickedElement) -> String {
    element.element().text().collect::<String>()
}

#[test]
fn picking_one_element_by_class() {
    let pick = PickElement::of_html(PAGE, "div").unwrap();
    let card = pick.pick_one_by_class("card").unwrap();
    assert_eq!(card.element().value().attr("class"), Some("Card first"));
    assert_eq!(card.attr("class"), Some("Card first".to_string()));
    assert!(card.has_class("FIRST"));
    assert!(!card.has_class("other"));
    assert!(matches!(
        pick.pick_one_by_class("missing"),
        Err(PickElementError::ElementNotFound {})
    ));
    let links = PickElement::of_html(PAGE, "a").unwrap();
    assert_eq!(links.pick_one_by_class_and_get_attr::<()>("link", "href").unwrap(), "/one");
    assert_eq!(links.pick_one_by_class_and("link", text_of).unwrap(), "One");
    assert!(matches!(
        links.pick_one_by_class_and("nothing", text_of),
        Err(PickElementError::ElementNotFound {})
    ));
    assert!(matches!(
        links.pick_one_by_class_and_get_attr::<()>("nothing", "href"),
        Err(PickElementError::ElementNotFound {})
    ));
    let spans = PickElement::of_html(PAGE, "span").unwrap();
    assert!(matches!(
        spans.pick_one_by_class_and_get_attr::<()>("note", "href"),
        Err(PickElementError::AttrNotFound {})
    ));
}

#[test]
fn picking_by_a_test_of_the_caller() {
    let pick = PickElement::of_html(PAGE, "a").unwrap();
    let two = pick.pick_one_by(|e: &PickedElement| text_of(*e) == "Two").unwrap();
    assert_eq!(two.attr("href"), None);
    assert_eq!(
        pick.pick_one_by_and(|e: &PickedElement| text_of(*e) == "Three", text_of).unwrap(),
        "Three"
    );
    assert!(matches!(
        pick.pick_one_by(|_: &PickedElement| false),
        Err(PickElementError::ElementNotFound {})
    ));
    let with_href = pick.pick_by(|e: &PickedElement| e.attr("href").is_some());
    assert_eq!(with_href.iter().map(|e| text_of(*e)).collect::<Vec<_>>(), vec!["One", "Three"]);
    assert_eq!(pick.pick_by_into_vec(|_: &PickedElement| true).len(), 3);
    assert_eq!(
        pick.pick_by_and(|e: &PickedElement| text_of(*e) != "One", text_of),
        vec!["Two".to_string(), "Three".to_string()]
    );
}

#[test]
fn picking_all_by_class() {
    let pick = PickElement::of_html(PAGE, "a").unwrap();
    assert_eq!(
        pick.pick_by_class("link").iter().map(|e| text_of(*e)).collect::<Vec<_>>(),
        vec!["One", "Two", "Three"]
    );
    assert_eq!(pick.pick_by_class_and("link", text_of), vec!["One", "Two", "Three"]);
    let attrs = pick.pick_by_class_and_get_attr::<(), ()>("link", "href");
    assert_eq!(attrs.len(), 3);
    assert_eq!(attrs[0].as_ref().unwrap(), "/one");
    assert!(matches!(attrs[1], Err(PickElementError::AttrNotFound {})));
    assert_eq!(attrs[2].as_ref().unwrap(), "/three");
    let divs = PickElement::of_html(PAGE, "div").unwrap();
    assert_eq!(divs.pick_by_class("card").len(), 2);
    assert!(divs.pick_by_class("absent").is_empty());
}

#[test]
fn picking_within_an_element() {
    let divs = PickElement::of_html(PAGE, "div").unwrap();
    let second = divs.pick_one_by(|e: &PickedElement| text_of(*e).contains("Two")).unwrap();
    let inner = PickElement::of_element(second, "a, span").unwrap();
    assert_eq!(inner.pick_by_into_vec(|_: &PickedElement| true).len(), 2);
    assert_eq!(inner.pick_one_by_class("note").map(text_of).unwrap(), "n");
    let mut selection = inner.select();
    assert_eq!(selection.size_hint(), (2, Some(2)));
    assert_eq!(selection.next().map(text_of), Some("Two".to_string()));
    assert_eq!(selection.size_hint(), (1, Some(1)));
    let rest = selection.into_vec();
    assert_eq!(rest.len(), 1);
    assert_eq!(text_of(rest[0]), "n");
    let mut whole = divs.select();
    assert_eq!(whole.size_hint(), (3, Some(3)));
    assert!(whole.next().is_some());
    assert!(whole.next().is_some());
    assert!(whole.next().is_some());
    assert!(whole.next().is_none());
    assert!(whole.into_vec().is_empty());
}

#[test]
fn selectors_that_do_not_parse() {
    match PickElement::of_html(PAGE, "div[") {
        Err(PickElementError::SelectorError(text)) => assert!(!text.is_empty()),
        _ => panic!("the selector should not parse"),
    }
    let divs = PickElement::of_html(PAGE, "div").unwrap();
    let first = divs.pick_one_by_class("first").unwrap();
    assert!(matches!(PickElement::of_element(first, ">>"), Err(PickElementError::SelectorError(_))));
}

#[test]
fn errors_as_text() {
    assert_eq!(PickElementError::ElementNotFound {}.text(), "Element not found");
    assert_eq!(PickElementError::AttrNotFound {}.text(), "Attribute not found");
    assert_eq!(PickElementError::SelectorError("bad".to_string()).text(), "Selector Error: bad");
    assert_eq!(PickElementError::AttrNotFound {}.description(), "Element not found");
    assert_eq!(PickElementError::SelectorError("bad".to_string()).description(), "bad");
}

#[test]
fn keeping_finding_and_mapping_items() {
    let items = vec![3u8, 8, 5, 10];
    assert_eq!(keep_where(&items, |x: &u8| *x > 4), vec![8, 5, 10]);
    assert_eq!(keep_where(&items, |_: &u8| false), Vec::<u8>::new());
    assert_eq!(first_where(&items, |x: &u8| *x > 4), Some(1));
    assert_eq!(first_where(&items, |x: &u8| *x > 40), None);
    assert_eq!(map_each(&items, |x: u8| x as u32 * 2), vec![6, 16, 10, 20]);
    assert_eq!(attr_or_not_found(Some("v".to_string())).unwrap(), "v");
    assert!(matches!(attr_or_not_found(None), Err(PickElementError::AttrNotFound {})));
}
