//! The counter extractor: finds the occupied and the free counter in the
//! markup of a status page.
//!
//! Two ways of marking the counters up are known. In the nested-content form
//! the number is the content of a `span` inside a container of its own; the
//! first such element counts. In the flat-attribute form the number is an
//! attribute of an element that carries a marker class; the last such element
//! counts. A counter that is absent or unreadable is reported as such and
//! counts as zero.

use vstd::prelude::*;
use vstd::string::*;
use crate::decimal::{integer_value, parse_i32};

verus! {

/// The largest page, in characters, that is handed to the HTML parser.
pub const MAX_PAGE_CHARS: usize = 67_108_864;

/// Selects the element whose content is the occupied counter.
pub const OCCUPIED_CONTENT_SELECTOR: &'static str = "div.actcounter-content > span";

/// Selects the element whose content is the free counter.
pub const FREE_CONTENT_SELECTOR: &'static str = "div.freecounter-content > span";

/// Selects the highlighted elements that carry the occupied marker and a value.
pub const OCCUPIED_MARKER_SELECTOR: &'static str = "[data-value].zoom.actcounter";

/// Selects the highlighted elements that carry the free marker and a value.
pub const FREE_MARKER_SELECTOR: &'static str = "[data-value].zoom.freecounter";

/// The attribute that holds the number of a marked element.
pub const VALUE_ATTRIBUTE: &'static str = "data-value";

/// Why a counter could not be read.
#[derive(Clone, Copy, Debug, PartialEq, Eq, Structural)]
pub enum ExtractError {
    /// The page is larger than `MAX_PAGE_CHARS`.
    PageTooLarge,
    /// The selector is no CSS selector.
    InvalidSelector,
    /// The element that counts has no value attribute.
    MissingValue,
    /// The text is no decimal numeral of an `i32`.
    NotANumber,
    /// The text is the numeral of a negative number.
    Negative,
}

/// What the markup says of one counter.
#[derive(Clone, Copy, Debug, PartialEq, Eq, Structural)]
pub enum Reading {
    /// The counter is there and holds this number, which is not negative.
    Value(i32),
    /// No element matches.
    Absent,
    /// An element matches, or would, and the counter cannot be read.
    Failed(ExtractError),
}

/// The way a page marks its counters up.
#[derive(Clone, Copy, Debug, PartialEq, Eq, Structural)]
pub enum Strategy {
    /// The number is the content of the first matching element.
    NestedContent,
    /// The number is the value attribute of the last matching element.
    FlatAttribute,
}

/// The readings of both counters of one page.
#[derive(Clone, Copy, Debug, PartialEq, Eq, Structural)]
pub struct PageReadings {
    pub occupied: Reading,
    pub free: Reading,
}

/// Whether `scraper::Selector::parse` accepts the text.
pub uninterp spec fn selector_is_valid(selector: Seq<char>) -> bool;

/// How many elements `scraper::Html::select` yields for the parsed selector in
/// the document that `scraper::Html::parse_document` makes of `body`.
pub uninterp spec fn match_count(body: Seq<char>, selector: Seq<char>) -> nat;

/// The value of `attribute` on each element that `scraper::Html::select`
/// yields, in the order in which it yields them; `None` for an element
/// without that attribute.
pub uninterp spec fn matched_attributes(
    body: Seq<char>,
    selector: Seq<char>,
    attribute: Seq<char>,
) -> Seq<Option<Seq<char>>>;

/// What the library reads of one element that a selector matches.
#[derive(Debug)]
pub struct Matched {
    /// The markup inside the element.
    pub content: String,
    /// The value of the attribute that was asked for, if the element has it.
    pub value: Option<String>,
}

/// The contents of the matched elements.
pub open spec fn contents_of(elements: Seq<Matched>) -> Seq<Seq<char>> {
    elements.map_values(|m: Matched| m.content@)
}

/// The values of the matched elements.
pub open spec fn values_of(elements: Seq<Matched>) -> Seq<Option<Seq<char>>> {
    elements.map_values(
        |m: Matched|
            match m.value {
                Some(s) => Some(s@),
                None => None,
            },
    )
}

/// Parses the page with `scraper::Html::parse_document` and the selector with
/// `scraper::Selector::parse`, and returns, for each element that
/// `Html::select` yields and in that order, its `ElementRef::inner_html` and
/// its `Element::attr` for `attribute`; `None` where the selector does not
/// parse. The contract gives the number of elements and their values. It
/// says nothing of a content: that is not a function of the page alone, since
/// scraper writes the attributes of nested elements in the order of a hash
/// map. The bound on the page keeps every buffer of the parser far below the
/// four gigabytes at which it would stop.
#[verifier::external_body]
fn select_elements(body: &str, selector: &str, attribute: &str) -> (r: Option<Vec<Matched>>)
    requires
        body@.len() <= MAX_PAGE_CHARS,
    ensures
        r.is_some() == selector_is_valid(selector@),
        r matches Some(elements) ==> elements.len() == match_count(body@, selector@)
            && values_of(elements@) == matched_attributes(body@, selector@, attribute@),
{
    match scraper::Selector::parse(selector) {
        Ok(parsed) => Some(
            scraper::Html::parse_document(body).select(&parsed).map(
                |e|
                    Matched {
                        content: e.inner_html(),
                        value: e.value().attr(attribute).map(|v| v.to_string()),
                    },
            ).collect(),
        ),
        Err(_) => None,
    }
}

impl Reading {
    /// Whether a value that is there is not negative.
    pub open spec fn wf(&self) -> bool {
        self matches Reading::Value(v) ==> v >= 0
    }

    /// The number that the reading stands for: its value, or zero.
    pub open spec fn count_spec(&self) -> int {
        match self {
            Reading::Value(v) => if *v >= 0 {
                *v as int
            } else {
                0
            },
            _ => 0,
        }
    }

    /// The number that the reading stands for: the value where the counter
    /// was read, zero where it is absent or unreadable.
    pub fn count(&self) -> (r: i32)
        ensures
            r == self.count_spec(),
            r >= 0,
    {
        match self {
            Reading::Value(v) => if *v >= 0 {
                *v
            } else {
                0
            },
            _ => 0,
        }
    }
}

/// The reading that a counter's text gives.
pub open spec fn text_reading(text: Seq<char>) -> Reading {
    match integer_value(text) {
        Some(v) => if v >= 0 {
            Reading::Value(v as i32)
        } else {
            Reading::Failed(ExtractError::Negative)
        },
        None => Reading::Failed(ExtractError::NotANumber),
    }
}

/// The reading of the nested-content form: that of the first text.
pub open spec fn first_reading(texts: Seq<Seq<char>>) -> Reading {
    if texts.len() == 0 {
        Reading::Absent
    } else {
        text_reading(texts[0])
    }
}

/// The reading of the flat-attribute form: that of the last value.
pub open spec fn last_reading(values: Seq<Option<Seq<char>>>) -> Reading {
    if values.len() == 0 {
        Reading::Absent
    } else {
        match values.last() {
            Some(text) => text_reading(text),
            None => Reading::Failed(ExtractError::MissingValue),
        }
    }
}

/// Reads a counter from its text: a numeral of a number from zero to
/// `i32::MAX`, with nothing around it.
pub fn reading_from_text(text: &str) -> (r: Reading)
    ensures
        r == text_reading(text@),
        r.wf(),
        !(r is Absent),
{
    match parse_i32(text) {
        Some(v) => if v >= 0 {
            Reading::Value(v)
        } else {
            Reading::Failed(ExtractError::Negative)
        },
        None => Reading::Failed(ExtractError::NotANumber),
    }
}

/// Reads a counter from the contents of the elements that match, in the
/// order in which the selection yields them: the first one counts, and none
/// at all means that the counter is absent.
pub fn reading_from_contents(elements: &Vec<Matched>) -> (r: Reading)
    ensures
        r == first_reading(contents_of(elements@)),
        r.wf(),
        !(r matches Reading::Failed(ExtractError::MissingValue)),
{
    if elements.len() == 0 {
        Reading::Absent
    } else {
        reading_from_text(elements[0].content.as_str())
    }
}

/// Reads a counter from the values of the elements that match, in the order
/// in which the selection yields them: the last one counts, and none at all
/// means that the counter is absent.
pub fn reading_from_values(elements: &Vec<Matched>) -> (r: Reading)
    ensures
        r == last_reading(values_of(elements@)),
        r.wf(),
{
    if elements.len() == 0 {
        Reading::Absent
    } else {
        match &elements[elements.len() - 1].value {
            Some(text) => reading_from_text(text.as_str()),
            None => Reading::Failed(ExtractError::MissingValue),
        }
    }
}

/// Reads the counter that `selector` marks in the nested-content form.
///
/// A page over the size limit and a selector that does not parse are
/// failures. On a page without a matching element the counter is absent.
/// Otherwise the content of the first element that the selection yields is
/// read as `reading_from_text` reads it.
pub fn extract_count(body: &str, selector: &str) -> (r: Reading)
    ensures
        reads_counter(body@, selector@, r),
        !(r matches Reading::Failed(ExtractError::MissingValue)),
        body@.len() <= MAX_PAGE_CHARS && selector_is_valid(selector@) && match_count(
            body@,
            selector@,
        ) > 0 ==> exists|text: Seq<char>| r == #[trigger] text_reading(text),
{
    if body.unicode_len() > MAX_PAGE_CHARS {
        return Reading::Failed(ExtractError::PageTooLarge);
    }
    match select_elements(body, selector, VALUE_ATTRIBUTE) {
        None => Reading::Failed(ExtractError::InvalidSelector),
        Some(elements) => {
            let r = reading_from_contents(&elements);
            proof {
                if elements.len() > 0 {
                    assert(r == text_reading(contents_of(elements@)[0]));
                }
            }
            r
        },
    }
}

/// What `extract_marked` returns.
pub open spec fn marked_reading(
    body: Seq<char>,
    selector: Seq<char>,
    attribute: Seq<char>,
) -> Reading {
    if body.len() > MAX_PAGE_CHARS {
        Reading::Failed(ExtractError::PageTooLarge)
    } else if !selector_is_valid(selector) {
        Reading::Failed(ExtractError::InvalidSelector)
    } else {
        last_reading(matched_attributes(body, selector, attribute))
    }
}

/// Reads the counter that `selector` marks in the flat-attribute form: the
/// value of `attribute` on the last element that the selection yields.
pub fn extract_marked(body: &str, selector: &str, attribute: &str) -> (r: Reading)
    ensures
        r == marked_reading(body@, selector@, attribute@),
        reads_counter(body@, selector@, r),
{
    if body.unicode_len() > MAX_PAGE_CHARS {
        return Reading::Failed(ExtractError::PageTooLarge);
    }
    match select_elements(body, selector, attribute) {
        None => Reading::Failed(ExtractError::InvalidSelector),
        Some(elements) => reading_from_values(&elements),
    }
}

/// What holds of the reading `r` that the page gives for the counter that
/// `selector` marks, whichever form of markup is read.
pub open spec fn reads_counter(body: Seq<char>, selector: Seq<char>, r: Reading) -> bool {
    &&& r.wf()
    &&& body.len() > MAX_PAGE_CHARS ==> r == Reading::Failed(ExtractError::PageTooLarge)
    &&& body.len() <= MAX_PAGE_CHARS && !selector_is_valid(selector) ==> r == Reading::Failed(
        ExtractError::InvalidSelector,
    )
    &&& body.len() <= MAX_PAGE_CHARS && selector_is_valid(selector) ==> (r is Absent
        <==> match_count(body, selector) == 0) && !(r matches Reading::Failed(
        ExtractError::PageTooLarge,
    )) && !(r matches Reading::Failed(ExtractError::InvalidSelector))
}

/// What holds of the readings `r` that the page gives in the given form of
/// markup. In the flat-attribute form this fixes both readings.
pub open spec fn reads_page(body: Seq<char>, strategy: Strategy, r: PageReadings) -> bool {
    &&& reads_counter(body, occupied_selector(strategy), r.occupied)
    &&& reads_counter(body, free_selector(strategy), r.free)
    &&& strategy == Strategy::FlatAttribute ==> r.occupied == marked_reading(
        body,
        OCCUPIED_MARKER_SELECTOR@,
        VALUE_ATTRIBUTE@,
    ) && r.free == marked_reading(body, FREE_MARKER_SELECTOR@, VALUE_ATTRIBUTE@)
    &&& strategy == Strategy::NestedContent ==> !(r.occupied matches Reading::Failed(
        ExtractError::MissingValue,
    )) && !(r.free matches Reading::Failed(ExtractError::MissingValue))
}

/// Reads both counters of a page that is marked up in the given way.
pub fn read_page(body: &str, strategy: Strategy) -> (r: PageReadings)
    ensures
        reads_page(body@, strategy, r),
{
    match strategy {
        Strategy::NestedContent => PageReadings {
            occupied: extract_count(body, OCCUPIED_CONTENT_SELECTOR),
            free: extract_count(body, FREE_CONTENT_SELECTOR),
        },
        Strategy::FlatAttribute => PageReadings {
            occupied: extract_marked(body, OCCUPIED_MARKER_SELECTOR, VALUE_ATTRIBUTE),
            free: extract_marked(body, FREE_MARKER_SELECTOR, VALUE_ATTRIBUTE),
        },
    }
}

/// The selector of the occupied counter in the given form of markup.
pub open spec fn occupied_selector(strategy: Strategy) -> Seq<char> {
    match strategy {
        Strategy::NestedContent => OCCUPIED_CONTENT_SELECTOR@,
        Strategy::FlatAttribute => OCCUPIED_MARKER_SELECTOR@,
    }
}

/// The selector of the free counter in the given form of markup.
pub open spec fn free_selector(strategy: Strategy) -> Seq<char> {
    match strategy {
        Strategy::NestedContent => FREE_CONTENT_SELECTOR@,
        Strategy::FlatAttribute => FREE_MARKER_SELECTOR@,
    }
}

} // verus!
