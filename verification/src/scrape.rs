//! Reading the tables of a listing page out of its HTML, with `scraper`.
use scraper::{Html, Selector};
use vstd::prelude::*;

verus! {

/// One table row of a listing page: the link targets of its anchors and the
/// `alt` texts of its images, each `None` where the element lacks the
/// attribute.
#[derive(Debug, PartialEq, Eq)]
pub struct ListingRow {
    pub links: Vec<Option<String>>,
    pub image_alts: Vec<Option<String>>,
}

impl DeepView for ListingRow {
    type V = (Seq<Option<Seq<char>>>, Seq<Option<Seq<char>>>);

    open spec fn deep_view(&self) -> (Seq<Option<Seq<char>>>, Seq<Option<Seq<char>>>) {
        (self.links.deep_view(), self.image_alts.deep_view())
    }
}

/// What `scraper` reads out of the HTML document `html`: `None` where one of
/// the four CSS selectors does not parse; otherwise, for every element that
/// matches `table_selector`, in document order, its descendants that match
/// `row_selector`, each given by the `link_attribute` of its descendants that
/// match `link_selector` and the `image_attribute` of its descendants that
/// match `image_selector`.
pub uninterp spec fn scraped_tables(
    html: Seq<char>,
    table_selector: Seq<char>,
    row_selector: Seq<char>,
    link_selector: Seq<char>,
    image_selector: Seq<char>,
    link_attribute: Seq<char>,
    image_attribute: Seq<char>,
) -> Option<Seq<Seq<(Seq<Option<Seq<char>>>, Seq<Option<Seq<char>>>)>>>;

/// Parses `html` with `scraper::Html::parse_document`, the four selectors with
/// `scraper::Selector::parse`, and walks the matches with `Html::select` and
/// `ElementRef::select`, reading attributes with `ElementRef::attr`.
/// The contract claims that the result is a function of the arguments (named
/// `scraped_tables`), and two facts of the selector syntax and matching: the
/// selectors `table`, `tr`, `a[href]` and `img` all parse, so the result is
/// `Some`; and every element matched by `a[href]` has an `href` attribute, so
/// with that link selector and attribute every link is `Some`. HTML parsing
/// and the rest of selector matching are `scraper`'s and are not restated.
#[verifier::external_body]
pub(crate) fn scrape_tables(
    html: &str,
    table_selector: &str,
    row_selector: &str,
    link_selector: &str,
    image_selector: &str,
    link_attribute: &str,
    image_attribute: &str,
) -> (tables: Option<Vec<Vec<ListingRow>>>)
    ensures
        tables.deep_view() == scraped_tables(
            html@,
            table_selector@,
            row_selector@,
            link_selector@,
            image_selector@,
            link_attribute@,
            image_attribute@,
        ),
        table_selector@ == "table"@ && row_selector@ == "tr"@ && link_selector@ == "a[href]"@
            && image_selector@ == "img"@ ==> tables is Some,
        link_selector@ == "a[href]"@ && link_attribute@ == "href"@ ==> (tables matches Some(found)
            ==> forall|t: int, r: int, l: int|
            0 <= t < found.len() && 0 <= r < found[t].len() && 0 <= l < found[t][r].links.len()
                ==> (#[trigger] found[t][r].links.deep_view()[l]) is Some),
{
    let (Ok(t), Ok(r), Ok(a), Ok(i)) = (Selector::parse(table_selector), Selector::parse(row_selector),
        Selector::parse(link_selector), Selector::parse(image_selector)) else { return None };
    let doc = Html::parse_document(html);
    Some(doc.select(&t).map(|table| table.select(&r).map(|row| ListingRow {
        links: row.select(&a).map(|e| e.attr(link_attribute).map(String::from)).collect(),
        image_alts: row.select(&i).map(|e| e.attr(image_attribute).map(String::from)).collect(),
    }).collect()).collect())
}

} // verus!
