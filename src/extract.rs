use vstd::prelude::*;

verus! {

/// The text of the first element matching the CSS selector `inner` inside the first element
/// matching the CSS selector `region` of the HTML document `html`, all its text nodes joined
/// in document order; `None` where either element is missing or a selector does not parse.
pub uninterp spec fn region_text_of(html: Seq<char>, region: Seq<char>, inner: Seq<char>) -> Option<Seq<char>>;

/// Relies on scraper: `Html::parse_document` reads the page, `Selector::parse` reads the two
/// selectors, `select(..).next()` finds the first match of each in document order, and
/// `ElementRef::text` yields the inner element's text nodes.
#[verifier::external_body]
fn first_text_within(html: &str, region: &str, inner: &str) -> (r: Option<String>)
    ensures
        match r {
            Some(t) => region_text_of(html@, region@, inner@) == Some(t@),
            None => region_text_of(html@, region@, inner@) is None,
        },
{
    let document = scraper::Html::parse_document(html);
    let outer = scraper::Selector::parse(region).ok()?;
    let within = scraper::Selector::parse(inner).ok()?;
    let found = document.select(&outer).next()?.select(&within).next()?;
    Some(found.text().collect::<String>())
}

/// Selector of the page region that holds the next collection.
pub open spec fn waste_selector() -> Seq<char> {
    seq!['.', 'w', 'a', 's', 't', 'e']
}

/// Selector of the collection description inside that region.
pub open spec fn collection_selector() -> Seq<char> {
    seq!['.', 'w', 'a', 's', 't', 'e', 'c', 'o', 'l', 'l', 'e', 'c', 't', 'i', 'o', 'n']
}

/// Selector of the collection date text inside that region.
pub open spec fn date_selector() -> Seq<char> {
    seq!['.', 'w', 'a', 's', 't', 'e', 'd', 'a', 't', 'e']
}

/// The collection description and date text found on a page.
#[derive(Clone, Debug, PartialEq, Eq)]
pub struct WasteInfo {
    pub description: String,
    pub date_text: String,
}

/// The page does not hold the expected collection region, description or date.
#[derive(Clone, Copy, Debug, PartialEq, Eq, Structural)]
pub struct ExtractError;

/// Pairs the two texts looked up on a page; fails when either is missing.
pub fn waste_info_from(description: Option<String>, date_text: Option<String>) -> (r: Result<WasteInfo, ExtractError>)
    ensures
        r is Ok <==> description is Some && date_text is Some,
        r is Ok ==> r->Ok_0.description@ == description->0@ && r->Ok_0.date_text@ == date_text->0@,
{
    match (description, date_text) {
        (Some(d), Some(t)) => Ok(WasteInfo { description: d, date_text: t }),
        _ => Err(ExtractError),
    }
}

/// Finds the next collection's description and date text in a bin-collection page: the
/// `.wastecollection` and `.wastedate` elements of the first `.waste` region.
pub fn extract_waste(html: &str) -> (r: Result<WasteInfo, ExtractError>)
    ensures
        r is Ok <==> region_text_of(html@, waste_selector(), collection_selector()) is Some
            && region_text_of(html@, waste_selector(), date_selector()) is Some,
        r is Ok ==> Some(r->Ok_0.description@) == region_text_of(html@, waste_selector(), collection_selector())
            && Some(r->Ok_0.date_text@) == region_text_of(html@, waste_selector(), date_selector()),
{
    proof {
        reveal_strlit(".waste");
        reveal_strlit(".wastecollection");
        reveal_strlit(".wastedate");
        assert(".waste"@ =~= waste_selector());
        assert(".wastecollection"@ =~= collection_selector());
        assert(".wastedate"@ =~= date_selector());
    }
    let description = first_text_within(html, ".waste", ".wastecollection");
    let date_text = first_text_within(html, ".waste", ".wastedate");
    waste_info_from(description, date_text)
}

} // verus!
