//! Picking elements of an HTML document, or of an element in it, by a CSS selector and then by
//! a class, an attribute or a test of the caller's.
use vstd::prelude::*;
use vstd::string::{StrSliceExecFns, StringExecFns};
use crate::directory_walk::same_text;

verus! {

#[verifier::external_type_specification]
#[verifier::external_body]
pub struct ExHtml(::scraper::Html);

#[verifier::external_type_specification]
#[verifier::external_body]
pub struct ExSelector(::scraper::Selector);

#[verifier::external_type_specification]
#[verifier::external_body]
pub struct ExElementRef<'a>(::scraper::ElementRef<'a>);

/// What parsing the text as a CSS selector group gives: nothing when it parses, else the
/// description of the error.
pub uninterp spec fn selector_error(selector: Seq<char>) -> Option<Seq<char>>;

/// The number of elements that match the selector in the document parsed from `html`: among
/// all its elements where `within` is empty, else among the descendants of the element that
/// `within` leads to (see `PickedElement`).
pub uninterp spec fn match_count(
    html: Seq<char>,
    within: Seq<(Seq<char>, int)>,
    selector: Seq<char>,
) -> nat;

/// The classes of the element that `path` leads to in the document parsed from `html`, as the
/// element lists them.
pub uninterp spec fn classes_at(html: Seq<char>, path: Seq<(Seq<char>, int)>) -> Seq<Seq<char>>;

/// The attributes of the element that `path` leads to in the document parsed from `html`, as
/// the element holds them: each its prefix (empty where it has none), its namespace, its local
/// name and its value.
pub uninterp spec fn attributes_at(html: Seq<char>, path: Seq<(Seq<char>, int)>) -> Seq<
    (Seq<char>, Seq<char>, Seq<char>, Seq<char>),
>;

/// An HTML document, parsed from its text.
pub struct Document {
    html: ::scraper::Html,
    text: Ghost<Seq<char>>,
}

impl Document {
    /// The text that the document was parsed from.
    pub closed spec fn text(&self) -> Seq<char> {
        self.text@
    }
}

/// A CSS selector group, parsed from its text.
pub struct ParsedSelector {
    selector: ::scraper::Selector,
    text: Ghost<Seq<char>>,
}

impl ParsedSelector {
    /// The text that the selector was parsed from.
    pub closed spec fn text(&self) -> Seq<char> {
        self.text@
    }
}

/// An element of a document, with the way to it: its path is a series of selectors, each with
/// a position, and leads from the document to the element at that position among the elements
/// that match the first selector, then to the one at the next position among its descendants
/// that match the next selector, and so on.
#[derive(Clone, Copy)]
pub struct PickedElement<'a> {
    element: ::scraper::ElementRef<'a>,
    html: Ghost<Seq<char>>,
    path: Ghost<Seq<(Seq<char>, int)>>,
}

/// `scraper::Html::parse_document`: the document of the text.
#[verifier::external_body]
fn parse_document(html_body: &str) -> (r: Document)
    ensures
        r.text() == html_body@,
{
    Document { html: ::scraper::Html::parse_document(html_body), text: Ghost(html_body@) }
}

/// `scraper::Selector::parse`, its error taken by its description
/// (`std::error::Error::description` of `scraper::error::SelectorErrorKind`). The outcome
/// depends on the selector's text alone; what it is for a given text is left to the name
/// `selector_error`.
#[verifier::external_body]
#[allow(deprecated)]
fn parse_selector(selector: &str) -> (r: Result<ParsedSelector, String>)
    ensures
        r is Ok <==> selector_error(selector@) is None,
        r matches Ok(p) ==> p.text() == selector@,
        r matches Err(e) ==> selector_error(selector@) == Some(e@),
{
    match ::scraper::Selector::parse(selector) {
        Ok(parsed) => Ok(ParsedSelector { selector: parsed, text: Ghost(selector@) }),
        Err(error) => Err(std::error::Error::description(&error).to_string()),
    }
}

/// `scraper::Html::select`: the elements of the document that match the selector, in document
/// order, each with its path from the document.
#[verifier::external_body]
fn select_in_document<'a>(document: &'a Document, selector: &ParsedSelector) -> (r: Vec<
    PickedElement<'a>,
>)
    ensures
        r.len() == match_count(document.text(), Seq::empty(), selector.text()),
        forall|i: int|
            0 <= i < r.len() ==> (#[trigger] r@[i]).html() == document.text() && r@[i].path()
                == Seq::<(Seq<char>, int)>::empty().push((selector.text(), i)),
{
    let mut r = Vec::new();
    for (i, element) in document.html.select(&selector.selector).enumerate() {
        let path = Ghost(Seq::<(Seq<char>, int)>::empty().push((selector.text@, i as int)));
        r.push(PickedElement { element, html: Ghost(document.text@), path });
    }
    r
}

/// `scraper::ElementRef::select`: the descendants of the element that match the selector, in
/// document order, each with its path from the document.
#[verifier::external_body]
fn select_in_element<'a>(element: &PickedElement<'a>, selector: &ParsedSelector) -> (r: Vec<
    PickedElement<'a>,
>)
    ensures
        r.len() == match_count(element.html(), element.path(), selector.text()),
        forall|i: int|
            0 <= i < r.len() ==> (#[trigger] r@[i]).html() == element.html() && r@[i].path()
                == element.path().push((selector.text(), i)),
{
    let mut r = Vec::new();
    for (i, found) in element.element.select(&selector.selector).enumerate() {
        let path = Ghost(element.path@.push((selector.text@, i as int)));
        r.push(PickedElement { element: found, html: Ghost(element.html@), path });
    }
    r
}

/// `scraper::node::Element::classes`: the classes of the element, gathered into a vector.
#[verifier::external_body]
fn element_classes(element: &PickedElement) -> (r: Vec<String>)
    ensures
        r@.map_values(|c: String| c@) == classes_at(element.html(), element.path()),
{
    element.element.value().classes().map(String::from).collect()
}

/// The field `attrs` of `scraper::node::Element`: the attributes of the element, each its
/// prefix (empty where it has none), namespace, local name and value.
#[verifier::external_body]
fn element_attributes(element: &PickedElement) -> (r: Vec<(String, String, String, String)>)
    ensures
        attributes_view(r@) == attributes_at(element.html(), element.path()),
{
    let mut r = Vec::new();
    for (name, value) in element.element.value().attrs.iter() {
        let prefix = name.prefix.as_ref().map_or(String::new(), |p| p.to_string());
        r.push((prefix, name.ns.to_string(), name.local.to_string(), value.to_string()));
    }
    r
}

/// The attributes as text.
pub open spec fn attributes_view(v: Seq<(String, String, String, String)>) -> Seq<
    (Seq<char>, Seq<char>, Seq<char>, Seq<char>),
> {
    v.map_values(|a: (String, String, String, String)| (a.0@, a.1@, a.2@, a.3@))
}

/// A character with an ASCII upper-case letter made lower case, by its code.
pub open spec fn ascii_lower_code(c: char) -> u32 {
    if 65 <= (c as u32) <= 90 {
        ((c as u32) + 32) as u32
    } else {
        c as u32
    }
}

/// The two texts are the same, ASCII letters compared without case.
pub open spec fn same_ignoring_ascii_case(a: Seq<char>, b: Seq<char>) -> bool {
    a.len() == b.len() && forall|i: int|
        0 <= i < a.len() ==> ascii_lower_code(#[trigger] a[i]) == ascii_lower_code(b[i])
}

/// The element that `path` leads to in the document parsed from `html` has the class, ASCII
/// letters compared without case.
pub open spec fn has_class_at(html: Seq<char>, path: Seq<(Seq<char>, int)>, class: Seq<char>) -> bool {
    exists|k: int|
        0 <= k < classes_at(html, path).len() && same_ignoring_ascii_case(
            #[trigger] classes_at(html, path)[k],
            class,
        )
}

/// The value of the first attribute without prefix or namespace whose local name is `name`.
pub open spec fn first_attr(attrs: Seq<(Seq<char>, Seq<char>, Seq<char>, Seq<char>)>, name: Seq<char>) -> Option<
    Seq<char>,
>
    decreases attrs.len(),
{
    if attrs.len() == 0 {
        None
    } else if attrs[0].0.len() == 0 && attrs[0].1.len() == 0 && attrs[0].2 == name {
        Some(attrs[0].3)
    } else {
        first_attr(attrs.drop_first(), name)
    }
}

/// The value of the attribute of that name (without prefix or namespace) of the element that
/// `path` leads to in the document parsed from `html`, if it has one.
pub open spec fn attr_at(html: Seq<char>, path: Seq<(Seq<char>, int)>, name: Seq<char>) -> Option<
    Seq<char>,
> {
    first_attr(attributes_at(html, path), name)
}

/// The two characters are the same, ASCII letters compared without case.
fn same_char_ignoring_ascii_case(a: char, b: char) -> (r: bool)
    ensures
        r == (ascii_lower_code(a) == ascii_lower_code(b)),
{
    let x = a as u32;
    let y = b as u32;
    let lx = if 65 <= x && x <= 90 {
        x + 32
    } else {
        x
    };
    let ly = if 65 <= y && y <= 90 {
        y + 32
    } else {
        y
    };
    lx == ly
}

/// The two texts are the same, ASCII letters compared without case.
fn same_text_ignoring_ascii_case(a: &str, b: &str) -> (r: bool)
    ensures
        r == same_ignoring_ascii_case(a@, b@),
{
    let n = a.unicode_len();
    if n != b.unicode_len() {
        return false;
    }
    let mut i: usize = 0;
    while i < n
        invariant
            n == a@.len(),
            n == b@.len(),
            i <= n,
            forall|j: int| 0 <= j < i ==> ascii_lower_code(#[trigger] a@[j]) == ascii_lower_code(b@[j]),
        decreases n - i,
    {
        if !same_char_ignoring_ascii_case(a.get_char(i), b.get_char(i)) {
            return false;
        }
        i += 1;
    }
    true
}

impl<'a> PickedElement<'a> {
    /// The text of the document that the element belongs to.
    pub closed spec fn html(&self) -> Seq<char> {
        self.html@
    }

    /// The path from the document to the element.
    pub closed spec fn path(&self) -> Seq<(Seq<char>, int)> {
        self.path@
    }

    /// The element.
    pub closed spec fn spec_element(&self) -> ::scraper::ElementRef<'a> {
        self.element
    }

    /// The element, to be read through `scraper`.
    pub fn element(&self) -> (r: ::scraper::ElementRef<'a>)
        ensures
            r == self.spec_element(),
    {
        self.element
    }

    /// The element has the class, ASCII letters compared without case.
    pub fn has_class(&self, class_name: &str) -> (r: bool)
        ensures
            r == has_class_at(self.html(), self.path(), class_name@),
    {
        let classes = element_classes(self);
        let ghost cs = classes_at(self.html(), self.path());
        assert(classes@.len() == cs.len());
        let mut k: usize = 0;
        while k < classes.len()
            invariant
                k <= classes@.len(),
                cs == classes@.map_values(|c: String| c@),
                cs == classes_at(self.html(), self.path()),
                forall|m: int| 0 <= m < k ==> !same_ignoring_ascii_case(#[trigger] cs[m], class_name@),
            decreases classes@.len() - k,
        {
            if same_text_ignoring_ascii_case(classes[k].as_str(), class_name) {
                assert(cs[k as int] == classes@[k as int]@);
                assert(classes_at(self.html(), self.path())[k as int] == cs[k as int]);
                assert(same_ignoring_ascii_case(cs[k as int], class_name@));
                return true;
            }
            assert(cs[k as int] == classes@[k as int]@);
            k += 1;
        }
        false
    }

    /// The value of the element's attribute of that name (without prefix or namespace), if it
    /// has one.
    pub fn attr(&self, attr_name: &str) -> (r: Option<String>)
        ensures
            match attr_at(self.html(), self.path(), attr_name@) {
                None => r is None,
                Some(v) => r matches Some(s) && s@ == v,
            },
    {
        let attrs = element_attributes(self);
        let ghost view = attributes_at(self.html(), self.path());
        let mut k: usize = 0;
        assert(view.skip(0) =~= view);
        while k < attrs.len()
            invariant
                k <= attrs@.len(),
                view == attributes_view(attrs@),
                view == attributes_at(self.html(), self.path()),
                first_attr(view, attr_name@) == first_attr(view.skip(k as int), attr_name@),
            decreases attrs@.len() - k,
        {
            let a = &attrs[k];
            proof {
                assert(view.skip(k as int)[0] == view[k as int]);
                assert(view[k as int] == (a.0@, a.1@, a.2@, a.3@));
                assert(view.skip(k as int).drop_first() =~= view.skip(k + 1));
            }
            if a.0.as_str().unicode_len() == 0 && a.1.as_str().unicode_len() == 0 && same_text(
                a.2.as_str(),
                attr_name,
            ) {
                let value = a.3.clone();
                assert(value@ == a.3@);
                return Some(value);
            }
            k += 1;
        }
        assert(view.skip(attrs@.len() as int) =~= Seq::<(Seq<char>, Seq<char>, Seq<char>, Seq<char>)>::empty());
        None
    }
}

/// Why no element, or no attribute, could be picked.
#[derive(Clone, Debug)]
pub enum PickElementError {
    ElementNotFound {},
    AttrNotFound {},
    SelectorError(String),
}

/// The description of an error.
pub open spec fn pick_error_description(e: PickElementError) -> Seq<char> {
    match e {
        PickElementError::ElementNotFound {  } => "Element not found"@,
        PickElementError::AttrNotFound {  } => "Element not found"@,
        PickElementError::SelectorError(text) => text@,
    }
}

/// The error as text for people to read.
pub open spec fn pick_error_text(e: PickElementError) -> Seq<char> {
    match e {
        PickElementError::ElementNotFound {  } => "Element not found"@,
        PickElementError::AttrNotFound {  } => "Attribute not found"@,
        PickElementError::SelectorError(text) => "Selector Error: "@ + text@,
    }
}

impl PickElementError {
    /// The error as text for people to read.
    pub fn text(&self) -> (r: String)
        ensures
            r@ == pick_error_text(*self),
    {
        match self {
            PickElementError::ElementNotFound {  } => String::from_str("Element not found"),
            PickElementError::AttrNotFound {  } => String::from_str("Attribute not found"),
            PickElementError::SelectorError(text) => {
                let mut t = String::from_str("Selector Error: ");
                t.append(text.as_str());
                t
            },
        }
    }

    /// A short description of the error; an attribute that was not found is described, as an
    /// element that was not found is, by "Element not found".
    pub fn description(&self) -> (r: &str)
        ensures
            r@ == pick_error_description(*self),
    {
        match self {
            PickElementError::ElementNotFound {  } => "Element not found",
            PickElementError::AttrNotFound {  } => "Element not found",
            PickElementError::SelectorError(text) => text.as_str(),
        }
    }
}


/// The items whose answer is `true`, in their order; the answers go with the items by position.
pub open spec fn kept<T>(items: Seq<T>, answers: Seq<bool>) -> Seq<T>
    decreases items.len(),
{
    if items.len() == 0 || answers.len() == 0 {
        Seq::empty()
    } else {
        let rest = kept(items.drop_last(), answers.drop_last());
        if answers.last() {
            rest.push(items.last())
        } else {
            rest
        }
    }
}

/// The items for which the test answers `true`, in their order, the test asked once of each
/// item in turn.
pub fn keep_where<T: Copy, F: Fn(&T) -> bool>(items: &Vec<T>, by: F) -> (r: Vec<T>)
    requires
        forall|i: int| 0 <= i < items.len() ==> #[trigger] by.requires((&items@[i],)),
    ensures
        kept_by(items@, by, r@),
{
    let mut r: Vec<T> = Vec::new();
    let ghost mut answers: Seq<bool> = Seq::empty();
    let mut i: usize = 0;
    while i < items.len()
        invariant
            i <= items.len(),
            answers.len() == i,
            forall|j: int| 0 <= j < items.len() ==> #[trigger] by.requires((&items@[j],)),
            forall|j: int| 0 <= j < i ==> by.ensures((&items@[j],), #[trigger] answers[j]),
            r@ == kept(items@.take(i as int), answers),
        decreases items.len() - i,
    {
        let item = items[i];
        let b = by(&item);
        proof {
            assert(items@.take(i + 1).drop_last() =~= items@.take(i as int));
            assert(answers.push(b).drop_last() =~= answers);
            answers = answers.push(b);
        }
        if b {
            r.push(item);
        }
        i += 1;
    }
    proof {
        assert(items@.take(items.len() as int) =~= items@);
    }
    r
}

/// The position of the first item for which the test answers `true`, the test asked of each
/// item in turn until it does; none if it answers `false` for all.
pub fn first_where<T: Copy, F: Fn(&T) -> bool>(items: &Vec<T>, by: F) -> (r: Option<usize>)
    requires
        forall|i: int| 0 <= i < items.len() ==> #[trigger] by.requires((&items@[i],)),
    ensures
        match r {
            Some(i) => i < items.len() && by.ensures((&items@[i as int],), true) && forall|j: int|
                0 <= j < i ==> #[trigger] by.ensures((&items@[j],), false),
            None => forall|j: int|
                0 <= j < items.len() ==> #[trigger] by.ensures((&items@[j],), false),
        },
{
    let mut i: usize = 0;
    while i < items.len()
        invariant
            i <= items.len(),
            forall|j: int| 0 <= j < items.len() ==> #[trigger] by.requires((&items@[j],)),
            forall|j: int| 0 <= j < i ==> #[trigger] by.ensures((&items@[j],), false),
        decreases items.len() - i,
    {
        let item = items[i];
        if by(&item) {
            return Some(i);
        }
        i += 1;
    }
    None
}

/// The results of the function on each item, in order.
pub fn map_each<T: Copy, V, F: Fn(T) -> V>(items: &Vec<T>, and: F) -> (r: Vec<V>)
    requires
        forall|i: int| 0 <= i < items.len() ==> #[trigger] and.requires((items@[i],)),
    ensures
        made_from(and, items@, r@),
{
    let mut r: Vec<V> = Vec::new();
    let mut i: usize = 0;
    while i < items.len()
        invariant
            i <= items.len(),
            r.len() == i,
            forall|j: int| 0 <= j < items.len() ==> #[trigger] and.requires((items@[j],)),
            forall|j: int| 0 <= j < i ==> and.ensures((items@[j],), #[trigger] r@[j]),
        decreases items.len() - i,
    {
        let v = and(items[i]);
        r.push(v);
        i += 1;
    }
    r
}

/// The value of an attribute that was looked up, or the error that it was not found.
pub fn attr_or_not_found(attr: Option<String>) -> (r: Result<String, PickElementError>)
    ensures
        match attr {
            Some(value) => r == Ok::<String, PickElementError>(value),
            None => r == Err::<String, PickElementError>(PickElementError::AttrNotFound {  }),
        },
{
    match attr {
        Some(value) => Ok(value),
        None => Err(PickElementError::AttrNotFound {  }),
    }
}

/// `out` holds, in order, the items for which the test answered `true`, the test asked once of
/// each item.
pub open spec fn kept_by<T, F: Fn(&T) -> bool>(items: Seq<T>, by: F, out: Seq<T>) -> bool {
    exists|answers: Seq<bool>|
        answers.len() == items.len() && (forall|i: int|
            0 <= i < items.len() ==> by.ensures((&items[i],), #[trigger] answers[i])) && out
            == kept(items, answers)
}

/// `found` is the first item for which the test answered `true`, the test asked of the items
/// in turn until it did; none where it answered `false` for all.
pub open spec fn first_picked<T, F: Fn(&T) -> bool>(items: Seq<T>, by: F, found: Option<T>) -> bool {
    match found {
        Some(e) => exists|i: int|
            0 <= i < items.len() && #[trigger] items[i] == e && by.ensures((&items[i],), true)
                && forall|j: int| 0 <= j < i ==> by.ensures((&items[j],), false),
        None => forall|j: int| 0 <= j < items.len() ==> by.ensures((&items[j],), false),
    }
}

/// The elements of a document, or the descendants of an element, that match a selector, one
/// at a time in document order.
pub struct Selection<'a> {
    elements: Vec<PickedElement<'a>>,
    position: usize,
}

impl<'a> Selection<'a> {
    /// The matching elements that are left, in order.
    pub closed spec fn remaining(&self) -> Seq<PickedElement<'a>> {
        if self.position <= self.elements@.len() {
            self.elements@.skip(self.position as int)
        } else {
            Seq::empty()
        }
    }

    /// The next matching element, if one is left.
    pub fn next(&mut self) -> (r: Option<PickedElement<'a>>)
        ensures
            old(self).remaining().len() == 0 ==> r is None && final(self).remaining() == old(
                self,
            ).remaining(),
            old(self).remaining().len() > 0 ==> r == Some(old(self).remaining()[0])
                && final(self).remaining() == old(self).remaining().drop_first(),
    {
        if self.position < self.elements.len() {
            let e = self.elements[self.position];
            proof {
                assert(self.elements@.skip(self.position as int).drop_first() =~= self.elements@.skip(
                    self.position + 1,
                ));
            }
            self.position = self.position + 1;
            Some(e)
        } else {
            None
        }
    }

    /// The number of elements left, as both bounds.
    pub fn size_hint(&self) -> (r: (usize, Option<usize>))
        ensures
            r.0 == self.remaining().len(),
            r.1 == Some(r.0),
    {
        if self.position <= self.elements.len() {
            let n = self.elements.len() - self.position;
            (n, Some(n))
        } else {
            (0, Some(0))
        }
    }

    /// The elements left, in order.
    pub fn into_vec(self) -> (r: Vec<PickedElement<'a>>)
        ensures
            r@ == self.remaining(),
    {
        let mut elements = self.elements;
        let position = self.position;
        if position <= elements.len() {
            let rest = elements.split_off(position);
            rest
        } else {
            Vec::new()
        }
    }
}

/// Where elements are picked from: the elements of a document, or the descendants of an
/// element, that match a selector.
pub enum PickElement<'a> {
    HtmlBody { html: Document, selector: ParsedSelector },
    Element { element: PickedElement<'a>, selector: ParsedSelector },
}

/// The item that a search found, if any.
pub open spec fn found_of<T>(r: Result<T, PickElementError>) -> Option<T> {
    match r {
        Ok(e) => Some(e),
        Err(_) => None,
    }
}

/// The values made for each item that has the class, in order, as `attr_or_not_found` gives
/// them.
pub open spec fn attr_results(
    items: Seq<PickedElement>,
    attr_name: Seq<char>,
    made: Seq<Result<String, PickElementError>>,
) -> bool {
    &&& made.len() == items.len()
    &&& forall|k: int|
        0 <= k < items.len() ==> match attr_at(items[k].html(), items[k].path(), attr_name) {
            None => #[trigger] made[k] == Err::<String, PickElementError>(
                PickElementError::AttrNotFound {  },
            ),
            Some(v) => made[k] matches Ok(s) && s@ == v,
        }
}

impl<'a> PickElement<'a> {
    /// The text of the document that the elements are picked from.
    pub open spec fn html(&self) -> Seq<char> {
        match self {
            PickElement::HtmlBody { html, .. } => html.text(),
            PickElement::Element { element, .. } => element.html(),
        }
    }

    /// The path to the element whose descendants are picked from; empty for a document.
    pub open spec fn within(&self) -> Seq<(Seq<char>, int)> {
        match self {
            PickElement::HtmlBody { .. } => Seq::empty(),
            PickElement::Element { element, .. } => element.path(),
        }
    }

    /// The text of the selector.
    pub open spec fn selector_text(&self) -> Seq<char> {
        match self {
            PickElement::HtmlBody { selector, .. } => selector.text(),
            PickElement::Element { selector, .. } => selector.text(),
        }
    }

    /// The number of matching elements.
    pub open spec fn count(&self) -> nat {
        match_count(self.html(), self.within(), self.selector_text())
    }

    /// The path to the matching element at position `i`.
    pub open spec fn match_path(&self, i: int) -> Seq<(Seq<char>, int)> {
        self.within().push((self.selector_text(), i))
    }

    /// `sel` holds the matching elements, in document order.
    pub open spec fn selection_of(&self, sel: Seq<PickedElement<'a>>) -> bool {
        &&& sel.len() == self.count()
        &&& forall|j: int|
            0 <= j < sel.len() ==> (#[trigger] sel[j]).html() == self.html() && sel[j].path()
                == self.match_path(j)
    }

    /// Whether each matching element of `sel` has the class.
    pub open spec fn class_answers(sel: Seq<PickedElement<'a>>, class: Seq<char>) -> Seq<bool> {
        Seq::new(sel.len(), |j: int| has_class_at(sel[j].html(), sel[j].path(), class))
    }

    /// The matching element at position `i` has the class.
    pub open spec fn match_has_class(&self, i: int, class: Seq<char>) -> bool {
        has_class_at(self.html(), self.match_path(i), class)
    }

    /// The matching element at position `i` is the first one that has the class.
    pub open spec fn first_with_class(&self, i: int, class: Seq<char>) -> bool {
        &&& 0 <= i < self.count()
        &&& self.match_has_class(i, class)
        &&& forall|j: int| 0 <= j < i ==> !#[trigger] self.match_has_class(j, class)
    }

    /// No matching element has the class.
    pub open spec fn none_with_class(&self, class: Seq<char>) -> bool {
        forall|j: int| 0 <= j < self.count() ==> !#[trigger] self.match_has_class(j, class)
    }

    /// Picks from the document that the text holds, by the selector; fails when the selector
    /// does not parse.
    pub fn of_html(html_body: &str, selector: &str) -> (r: Result<
        PickElement<'a>,
        PickElementError,
    >)
        ensures
            match selector_error(selector@) {
                None => r matches Ok(p) && p is HtmlBody && p.html() == html_body@ && p.within()
                    == Seq::<(Seq<char>, int)>::empty() && p.selector_text() == selector@,
                Some(text) => r matches Err(PickElementError::SelectorError(t)) && t@ == text,
            },
    {
        let html = parse_document(html_body);
        match parse_selector(selector) {
            Ok(selector) => Ok(PickElement::HtmlBody { html, selector }),
            Err(text) => Err(PickElementError::SelectorError(text)),
        }
    }

    /// Picks from the descendants of the element, by the selector; fails when the selector
    /// does not parse.
    pub fn of_element(element: PickedElement<'a>, selector: &str) -> (r: Result<
        PickElement<'a>,
        PickElementError,
    >)
        ensures
            match selector_error(selector@) {
                None => r matches Ok(p) && p matches PickElement::Element { element: e, .. } && e
                    == element && p.html() == element.html() && p.within() == element.path()
                    && p.selector_text() == selector@,
                Some(text) => r matches Err(PickElementError::SelectorError(t)) && t@ == text,
            },
    {
        match parse_selector(selector) {
            Ok(selector) => Ok(PickElement::Element { element, selector }),
            Err(text) => Err(PickElementError::SelectorError(text)),
        }
    }

    /// The matching elements, in document order.
    fn selected(&'a self) -> (r: Vec<PickedElement<'a>>)
        ensures
            self.selection_of(r@),
    {
        match self {
            PickElement::HtmlBody { html, selector } => select_in_document(html, selector),
            PickElement::Element { element, selector } => select_in_element(element, selector),
        }
    }

    /// The elements that match the selector, in document order: of the document, or among the
    /// descendants of the element.
    pub fn select(&'a self) -> (r: Selection<'a>)
        ensures
            self.selection_of(r.remaining()),
    {
        let elements = self.selected();
        let r = Selection { elements, position: 0 };
        assert(r.remaining() =~= elements@);
        r
    }

    /// The first matching element for which the test answers `true`; the test is asked of
    /// the matching elements in turn until it does.
    pub fn pick_one_by<By: Fn(&PickedElement<'a>) -> bool>(&'a self, by: By) -> (r: Result<
        PickedElement<'a>,
        PickElementError,
    >)
        requires
            forall|e: PickedElement<'a>| #[trigger] by.requires((&e,)),
        ensures
            r matches Err(e) ==> e is ElementNotFound,
            exists|sel: Seq<PickedElement<'a>>|
                #[trigger] self.selection_of(sel) && first_picked(sel, by, found_of(r)),
    {
        let elements = self.selected();
        let r = match first_where(&elements, by) {
            Some(i) => Ok(elements[i]),
            None => Err(PickElementError::ElementNotFound {  }),
        };
        assert(first_picked(elements@, by, found_of(r)));
        r
    }

    /// What the function makes of the first matching element for which the test answers
    /// `true`.
    pub fn pick_one_by_and<By, And, V>(&'a self, by: By, and: And) -> (r: Result<
        V,
        PickElementError,
    >) where By: Fn(&PickedElement<'a>) -> bool, And: FnOnce(PickedElement<'a>) -> V
        requires
            forall|e: PickedElement<'a>| #[trigger] by.requires((&e,)),
            forall|e: PickedElement<'a>| #[trigger] and.requires((e,)),
        ensures
            match r {
                Ok(v) => exists|sel: Seq<PickedElement<'a>>, e: PickedElement<'a>|
                    #![trigger self.selection_of(sel), first_picked(sel, by, Some(e))]
                    self.selection_of(sel) && first_picked(sel, by, Some(e)) && and.ensures((e,), v),
                Err(err) => err is ElementNotFound && exists|sel: Seq<PickedElement<'a>>|
                    #[trigger] self.selection_of(sel) && first_picked(sel, by, None),
            },
    {
        let elements = self.selected();
        match first_where(&elements, by) {
            Some(i) => {
                let e = elements[i];
                let v = and(e);
                let r: Result<V, PickElementError> = Ok(v);
                assert(first_picked(elements@, by, Some(e)));
                assert(and.ensures((e,), r->Ok_0));
                r
            },
            None => {
                assert(first_picked(elements@, by, None));
                Err(PickElementError::ElementNotFound {  })
            },
        }
    }

    /// The position of the first matching element of `elements` that has the class.
    fn first_with_class_in(&'a self, elements: &Vec<PickedElement<'a>>, class_name: &str) -> (r:
        Option<usize>)
        requires
            self.selection_of(elements@),
        ensures
            match r {
                Some(i) => i < elements.len() && self.first_with_class(i as int, class_name@),
                None => self.none_with_class(class_name@),
            },
    {
        let mut i: usize = 0;
        while i < elements.len()
            invariant
                i <= elements.len(),
                self.selection_of(elements@),
                forall|j: int| 0 <= j < i ==> !#[trigger] self.match_has_class(j, class_name@),
            decreases elements.len() - i,
        {
            let found = elements[i].has_class(class_name);
            assert(elements@[i as int].path() == self.match_path(i as int));
            if found {
                return Some(i);
            }
            i += 1;
        }
        None
    }

    /// The first matching element that has the class, ASCII letters compared without case.
    pub fn pick_one_by_class(&'a self, class_name: &str) -> (r: Result<
        PickedElement<'a>,
        PickElementError,
    >)
        ensures
            match r {
                Ok(e) => exists|i: int|
                    #[trigger] self.first_with_class(i, class_name@) && e.html() == self.html()
                        && e.path() == self.match_path(i),
                Err(err) => err is ElementNotFound && self.none_with_class(class_name@),
            },
    {
        let elements = self.selected();
        match self.first_with_class_in(&elements, class_name) {
            Some(i) => {
                let e = elements[i];
                assert(self.first_with_class(i as int, class_name@));
                Ok(e)
            },
            None => Err(PickElementError::ElementNotFound {  }),
        }
    }

    /// What the function makes of the first matching element that has the class.
    pub fn pick_one_by_class_and<And, V>(&'a self, class_name: &str, and: And) -> (r: Result<
        V,
        PickElementError,
    >) where And: FnOnce(PickedElement<'a>) -> V
        requires
            forall|e: PickedElement<'a>| #[trigger] and.requires((e,)),
        ensures
            match r {
                Ok(v) => exists|i: int, e: PickedElement<'a>|
                    #![trigger self.first_with_class(i, class_name@), and.ensures((e,), v)]
                    self.first_with_class(i, class_name@) && e.html() == self.html() && e.path()
                        == self.match_path(i) && and.ensures((e,), v),
                Err(err) => err is ElementNotFound && self.none_with_class(class_name@),
            },
    {
        let elements = self.selected();
        match self.first_with_class_in(&elements, class_name) {
            Some(i) => {
                let e = elements[i];
                let v = and(e);
                let r: Result<V, PickElementError> = Ok(v);
                assert(self.first_with_class(i as int, class_name@));
                assert(and.ensures((e,), r->Ok_0));
                r
            },
            None => Err(PickElementError::ElementNotFound {  }),
        }
    }

    /// The value of the attribute of the first matching element that has the class: the
    /// error that no element was found, or that it has no such attribute.
    pub fn pick_one_by_class_and_get_attr<V>(&'a self, class_name: &str, attr_name: &str) -> (r:
        Result<String, PickElementError>)
        ensures
            self.none_with_class(class_name@) ==> r == Err::<String, PickElementError>(
                PickElementError::ElementNotFound {  },
            ),
            forall|i: int|
                #[trigger] self.first_with_class(i, class_name@) ==> match attr_at(
                    self.html(),
                    self.match_path(i),
                    attr_name@,
                ) {
                    None => r == Err::<String, PickElementError>(PickElementError::AttrNotFound {  }),
                    Some(v) => r matches Ok(s) && s@ == v,
                },
    {
        let elements = self.selected();
        match self.first_with_class_in(&elements, class_name) {
            Some(i) => {
                proof {
                    lemma_first_with_class_unique(*self, i as int, class_name@);
                }
                attr_or_not_found(elements[i].attr(attr_name))
            },
            None => {
                proof {
                    lemma_none_with_class_no_first(*self, class_name@);
                }
                Err(PickElementError::ElementNotFound {  })
            },
        }
    }

    /// The matching elements for which the test answers `true`, in document order.
    pub fn pick_by<By: Fn(&PickedElement<'a>) -> bool>(&'a self, by: By) -> (r: Vec<
        PickedElement<'a>,
    >)
        requires
            forall|e: PickedElement<'a>| #[trigger] by.requires((&e,)),
        ensures
            exists|sel: Seq<PickedElement<'a>>|
                #[trigger] self.selection_of(sel) && kept_by(sel, by, r@),
    {
        let elements = self.selected();
        let r = keep_where(&elements, by);
        assert(self.selection_of(elements@));
        r
    }

    /// The matching elements for which the test answers `true`, in document order.
    pub fn pick_by_into_vec<By: Fn(&PickedElement<'a>) -> bool>(&'a self, by: By) -> (r: Vec<
        PickedElement<'a>,
    >)
        requires
            forall|e: PickedElement<'a>| #[trigger] by.requires((&e,)),
        ensures
            exists|sel: Seq<PickedElement<'a>>|
                #[trigger] self.selection_of(sel) && kept_by(sel, by, r@),
    {
        self.pick_by(by)
    }

    /// What the function makes of each matching element for which the test answers `true`, in
    /// document order.
    pub fn pick_by_and<By, And, V>(&'a self, by: By, and: And) -> (r: Vec<V>) where
        By: Fn(&PickedElement<'a>) -> bool,
        And: Fn(PickedElement<'a>) -> V,

        requires
            forall|e: PickedElement<'a>| #[trigger] by.requires((&e,)),
            forall|e: PickedElement<'a>| #[trigger] and.requires((e,)),
        ensures
            exists|sel: Seq<PickedElement<'a>>, picked: Seq<PickedElement<'a>>|
                #[trigger] self.selection_of(sel) && kept_by(sel, by, picked) && #[trigger] made_from(
                    and,
                    picked,
                    r@,
                ),
    {
        let elements = self.selected();
        let picked = keep_where(&elements, by);
        let r = map_each(&picked, and);
        assert(self.selection_of(elements@));
        assert(made_from(and, picked@, r@));
        r
    }

    /// The matching elements that have the class, ASCII letters compared without case, in
    /// document order.
    pub fn pick_by_class(&'a self, class_name: &str) -> (r: Vec<PickedElement<'a>>)
        ensures
            exists|sel: Seq<PickedElement<'a>>|
                #[trigger] self.selection_of(sel) && r@ == kept(
                    sel,
                    Self::class_answers(sel, class_name@),
                ),
    {
        let elements = self.selected();
        let mut r: Vec<PickedElement<'a>> = Vec::new();
        let mut i: usize = 0;
        while i < elements.len()
            invariant
                i <= elements.len(),
                r@ == kept(
                    elements@.take(i as int),
                    Self::class_answers(elements@.take(i as int), class_name@),
                ),
            decreases elements.len() - i,
        {
            let e = elements[i];
            let found = e.has_class(class_name);
            proof {
                let t = elements@.take(i + 1);
                assert(t.drop_last() =~= elements@.take(i as int));
                assert(Self::class_answers(t, class_name@).drop_last() =~= Self::class_answers(
                    elements@.take(i as int),
                    class_name@,
                ));
                assert(t.last() == e);
            }
            if found {
                r.push(e);
            }
            i += 1;
        }
        assert(elements@.take(elements.len() as int) =~= elements@);
        r
    }

    /// What the function makes of each matching element that has the class, in document
    /// order.
    pub fn pick_by_class_and<And, V>(&'a self, class_name: &str, and: And) -> (r: Vec<V>) where
        And: Fn(PickedElement<'a>) -> V,

        requires
            forall|e: PickedElement<'a>| #[trigger] and.requires((e,)),
        ensures
            exists|sel: Seq<PickedElement<'a>>|
                #[trigger] self.selection_of(sel) && made_from(
                    and,
                    kept(sel, Self::class_answers(sel, class_name@)),
                    r@,
                ),
    {
        let picked = self.pick_by_class(class_name);
        let r = map_each(&picked, and);
        assert(made_from(and, picked@, r@));
        r
    }

    /// For each matching element that has the class, in document order, the value of its
    /// attribute, or the error that it has no such attribute.
    pub fn pick_by_class_and_get_attr<And, V>(&'a self, class_name: &str, attr_name: &str) -> (r:
        Vec<Result<String, PickElementError>>)
        ensures
            exists|sel: Seq<PickedElement<'a>>|
                #[trigger] self.selection_of(sel) && attr_results(
                    kept(sel, Self::class_answers(sel, class_name@)),
                    attr_name@,
                    r@,
                ),
    {
        let picked = self.pick_by_class(class_name);
        let mut r: Vec<Result<String, PickElementError>> = Vec::new();
        let mut i: usize = 0;
        while i < picked.len()
            invariant
                i <= picked.len(),
                r.len() == i,
                forall|k: int|
                    0 <= k < i ==> match attr_at(picked@[k].html(), picked@[k].path(), attr_name@) {
                        None => #[trigger] r@[k] == Err::<String, PickElementError>(
                            PickElementError::AttrNotFound {  },
                        ),
                        Some(v) => r@[k] matches Ok(s) && s@ == v,
                    },
            decreases picked.len() - i,
        {
            let value = attr_or_not_found(picked[i].attr(attr_name));
            r.push(value);
            i += 1;
        }
        assert(attr_results(picked@, attr_name@, r@));
        r
    }
}

/// Only one matching element is the first that has the class.
proof fn lemma_first_with_class_unique<'a>(p: PickElement<'a>, i: int, class: Seq<char>)
    requires
        p.first_with_class(i, class),
    ensures
        forall|j: int| #[trigger] p.first_with_class(j, class) ==> j == i,
{
    assert forall|j: int| #[trigger] p.first_with_class(j, class) implies j == i by {
        if j < i {
            assert(!p.match_has_class(j, class));
        } else if i < j {
            assert(!p.match_has_class(i, class));
        }
    }
}

/// Where no matching element has the class, none is the first that has it.
proof fn lemma_none_with_class_no_first<'a>(p: PickElement<'a>, class: Seq<char>)
    requires
        p.none_with_class(class),
    ensures
        forall|j: int| !#[trigger] p.first_with_class(j, class),
{
    assert forall|j: int| !#[trigger] p.first_with_class(j, class) by {
        if 0 <= j < p.count() {
            assert(!p.match_has_class(j, class));
        }
    }
}

/// The values are what the function made of the items, one each, in order.
pub open spec fn made_from<T, V, F: Fn(T) -> V>(and: F, items: Seq<T>, made: Seq<V>) -> bool {
    made.len() == items.len() && forall|i: int|
        0 <= i < items.len() ==> and.ensures((items[i],), #[trigger] made[i])
}

/// Each item that the answers keep was answered `true`.
pub proof fn lemma_kept_answered_true<T, F: Fn(&T) -> bool>(
    items: Seq<T>,
    answers: Seq<bool>,
    by: F,
)
    requires
        answers.len() == items.len(),
        forall|i: int| 0 <= i < items.len() ==> by.ensures((&items[i],), #[trigger] answers[i]),
    ensures
        forall|i: int|
            0 <= i < kept(items, answers).len() ==> by.ensures(
                (&#[trigger] kept(items, answers)[i],),
                true,
            ),
    decreases items.len(),
{
    if items.len() > 0 {
        let n = items.len() - 1;
        assert forall|i: int| 0 <= i < items.drop_last().len() implies by.ensures(
            (&items.drop_last()[i],),
            #[trigger] answers.drop_last()[i],
        ) by {
            assert(answers.drop_last()[i] == answers[i]);
        }
        lemma_kept_answered_true(items.drop_last(), answers.drop_last(), by);
        let rest = kept(items.drop_last(), answers.drop_last());
        assert forall|i: int| 0 <= i < kept(items, answers).len() implies by.ensures(
            (&#[trigger] kept(items, answers)[i],),
            true,
        ) by {
            if i < rest.len() {
                assert(kept(items, answers)[i] == rest[i]);
            } else {
                assert(kept(items, answers)[i] == items[n]);
                assert(by.ensures((&items[n],), answers[n]));
            }
        }
    }
}

} // verus!
