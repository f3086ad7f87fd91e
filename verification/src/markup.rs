use scraper::{Html, Selector};
use vstd::prelude::*;

verus! {

/// The elements of a document that a selector matches, each as its own
/// markup, in the order the parser's tree yields them. The markup of an
/// element gives its attributes in the order of the source: the parser is
/// built to keep them so. Nothing where the selector is not one the parser
/// accepts.
pub uninterp spec fn document_elements(document: Seq<char>, selector: Seq<char>) -> Option<
    Seq<Seq<char>>,
>;

/// For each element of a document that a selector matches, the text nodes
/// below it. Nothing where the selector is not one the parser accepts.
pub uninterp spec fn document_element_texts(document: Seq<char>, selector: Seq<char>) -> Option<
    Seq<Seq<Seq<char>>>,
>;

/// The elements of a fragment that a selector matches, each as its own markup,
/// with the attributes in the order of the source. Nothing where the selector
/// is not one the parser accepts.
pub uninterp spec fn fragment_elements(fragment: Seq<char>, selector: Seq<char>) -> Option<
    Seq<Seq<char>>,
>;

/// The text nodes of a fragment.
pub uninterp spec fn fragment_texts(fragment: Seq<char>) -> Seq<Seq<char>>;

/// For each element of a fragment that `rows` matches, and each element below
/// it that `cells` matches, the text nodes below that one. Nothing where one
/// of the two selectors is not one the parser accepts.
pub uninterp spec fn fragment_cell_texts(
    fragment: Seq<char>,
    rows: Seq<char>,
    cells: Seq<char>,
) -> Option<Seq<Seq<Seq<Seq<char>>>>>;

/// `Selector::parse`, `Html::parse_document`, `Html::select` and
/// `ElementRef::html` of scraper: parses the text as a whole document and
/// returns the markup of every element the selector matches. The result is
/// `None` where the selector does not parse. With scraper's feature
/// `deterministic`, which this crate asks for, an element keeps its
/// attributes in a map that is walked in the order of insertion, so the
/// markup written out depends on the two texts alone. Nothing is proved of
/// it; `document_elements` names what comes back.
#[verifier::external_body]
pub(crate) fn select_in_document(document: &str, selector: &str) -> (found: Option<Vec<String>>)
    ensures
        found.deep_view() == document_elements(document@, selector@),
{
    let selector = Selector::parse(selector).ok()?;
    let html = Html::parse_document(document);
    Some(html.select(&selector).map(|element| element.html()).collect())
}

/// `Selector::parse`, `Html::parse_document`, `Html::select` and
/// `ElementRef::text` of scraper: parses the text as a whole document and
/// returns, for every element the selector matches, its text nodes. The
/// result is `None` where the selector does not parse. Nothing is proved of
/// it; `document_element_texts` names what comes back.
#[verifier::external_body]
pub(crate) fn select_texts_in_document(document: &str, selector: &str) -> (found: Option<
    Vec<Vec<String>>,
>)
    ensures
        found.deep_view() == document_element_texts(document@, selector@),
{
    let selector = Selector::parse(selector).ok()?;
    let html = Html::parse_document(document);
    Some(
        html.select(&selector).map(
            |element| element.text().map(|node| node.to_string()).collect(),
        ).collect(),
    )
}

/// `Selector::parse`, `Html::parse_fragment`, `Html::select` and
/// `ElementRef::html` of scraper: parses the text as a fragment and returns
/// the markup of every element the selector matches. The result is `None`
/// where the selector does not parse. With scraper's feature
/// `deterministic`, which this crate asks for, the attributes are written
/// out in the order of insertion, so the markup depends on the two texts
/// alone. Nothing is proved of it; `fragment_elements` names what comes back.
#[verifier::external_body]
pub(crate) fn select_in_fragment(fragment: &str, selector: &str) -> (found: Option<Vec<String>>)
    ensures
        found.deep_view() == fragment_elements(fragment@, selector@),
{
    let selector = Selector::parse(selector).ok()?;
    let html = Html::parse_fragment(fragment);
    Some(html.select(&selector).map(|element| element.html()).collect())
}

/// `Html::parse_fragment`, `Html::root_element` and `ElementRef::text` of
/// scraper: parses the text as a fragment and returns its text nodes. A parsed
/// fragment always has a root element. Nothing is proved of it;
/// `fragment_texts` names what comes back.
#[verifier::external_body]
pub(crate) fn texts_of_fragment(fragment: &str) -> (found: Vec<String>)
    ensures
        found.deep_view() == fragment_texts(fragment@),
{
    let html = Html::parse_fragment(fragment);
    html.root_element().text().map(|node| node.to_string()).collect()
}

/// `Selector::parse`, `Html::parse_fragment`, `Html::select`,
/// `ElementRef::select` and `ElementRef::text` of scraper: parses the text as
/// a fragment and returns, for every element that `rows` matches, the text
/// nodes of each element below it that `cells` matches. The result is `None`
/// where a selector does not parse. Nothing is proved of it;
/// `fragment_cell_texts` names what comes back.
#[verifier::external_body]
pub(crate) fn select_cells_in_fragment(fragment: &str, rows: &str, cells: &str) -> (found: Option<
    Vec<Vec<Vec<String>>>,
>)
    ensures
        found.deep_view() == fragment_cell_texts(fragment@, rows@, cells@),
{
    let rows = Selector::parse(rows).ok()?;
    let cells = Selector::parse(cells).ok()?;
    let html = Html::parse_fragment(fragment);
    Some(
        html.select(&rows).map(
            |row| row.select(&cells).map(
                |cell| cell.text().map(|node| node.to_string()).collect(),
            ).collect(),
        ).collect(),
    )
}

} // verus!
