//! The notices on line disruptions that the service publishes as a list in a page.

use vstd::prelude::*;
use scraper::{Html, Selector};
use crate::error::TrainError;
use crate::text::{chars_of, contains_chars, contains_spec, string_of, trimmed};

verus! {

/// One element of the page as plain values.
#[derive(Clone, Debug, PartialEq, Eq)]
pub struct NewsElement {
    /// The markup inside the element.
    pub inner_html: String,
    /// The value of its `class` attribute.
    pub class: Option<String>,
    /// The text of all its descendants, joined.
    pub text: String,
}

pub struct NewsElementView {
    pub inner_html: Seq<char>,
    pub class: Option<Seq<char>>,
    pub text: Seq<char>,
}

impl View for NewsElement {
    type V = NewsElementView;

    open spec fn view(&self) -> NewsElementView {
        NewsElementView { inner_html: self.inner_html@, class: self.class.deep_view(), text: self.text@ }
    }
}

impl DeepView for NewsElement {
    type V = NewsElementView;

    open spec fn deep_view(&self) -> NewsElementView {
        self@
    }
}

/// The selector of the notices in the page.
pub const NOTICE_SELECTOR: &'static str = "li";

/// The class that marks the title of a notice as highlighted.
pub const HIGHLIGHT_CLASS: &'static str = "inEvidenza";

/// For each element of a page that a selector matches, in the order in which the
/// selection yields them, its child elements in their order, as the parser of the
/// page sees them.
pub uninterp spec fn selected_children(page: Seq<char>, selector: Seq<char>) -> Seq<Seq<NewsElementView>>;

/// Parses the page as a fragment with `scraper::Html::parse_fragment`, selects with
/// `Html::select` the elements that the selector matches, and hands out the child
/// elements of each with their inner markup, class attribute and text.
#[verifier::external_body]
fn select_children(page: &str, selector: &str) -> (items: Vec<Vec<NewsElement>>)
    requires
        selector@ == NOTICE_SELECTOR@,
    ensures
        items.deep_view() == selected_children(page@, selector@),
{
    let fragment = Html::parse_fragment(page);
    let selector = Selector::parse(selector).unwrap();
    fragment.select(&selector).map(
        |item| item.child_elements().map(
            |child| NewsElement {
                inner_html: child.inner_html(),
                class: child.value().attr("class").map(|class| class.to_string()),
                text: child.text().collect::<String>(),
            },
        ).collect(),
    ).collect()
}

/// The notices of a page: for each list item, its child elements.
pub fn notices(page: &str) -> (items: Vec<Vec<NewsElement>>)
    ensures
        items.deep_view() == selected_children(page@, NOTICE_SELECTOR@),
{
    select_children(page, NOTICE_SELECTOR)
}

/// The text without any occurrence of a character.
pub open spec fn without_char(text: Seq<char>, c: char) -> Seq<char>
    decreases text.len(),
{
    if text.len() == 0 {
        Seq::<char>::empty()
    } else if text.last() == c {
        without_char(text.drop_last(), c)
    } else {
        without_char(text.drop_last(), c).push(text.last())
    }
}

/// The text of a notice as it is shown: without white space around it, and then
/// without tabs.
pub open spec fn notice_text(text: Seq<char>) -> Seq<char> {
    without_char(trimmed(text), '\t')
}

/// The text of a notice as it is shown.
pub fn clean_notice_text(text: &str) -> (r: String)
    ensures
        r@ == notice_text(text@),
{
    let chars = chars_of(text.trim());
    let mut kept: Vec<char> = Vec::new();
    let mut i: usize = 0;
    while i < chars.len()
        invariant
            i <= chars.len(),
            kept@ == without_char(chars@.take(i as int), '\t'),
        decreases chars.len() - i,
    {
        proof {
            assert(chars@.take(i + 1).drop_last() =~= chars@.take(i as int));
        }
        if chars[i] != '\t' {
            kept.push(chars[i]);
        }
        i += 1;
    }
    assert(chars@.take(i as int) =~= chars@);
    string_of(&kept)
}

/// One notice of the listing.
#[derive(Clone, Debug, PartialEq, Eq)]
pub struct NewsItem {
    pub title: String,
    pub highlighted: bool,
    /// The text of the notice, in a listing that shows the texts.
    pub body: Option<String>,
}

pub struct NewsItemView {
    pub title: Seq<char>,
    pub highlighted: bool,
    pub body: Option<Seq<char>>,
}

impl View for NewsItem {
    type V = NewsItemView;

    open spec fn view(&self) -> NewsItemView {
        NewsItemView { title: self.title@, highlighted: self.highlighted, body: self.body.deep_view() }
    }
}

impl DeepView for NewsItem {
    type V = NewsItemView;

    open spec fn deep_view(&self) -> NewsItemView {
        self@
    }
}

/// The text of a notice: that of its second element.
pub open spec fn body_of(notice: Seq<NewsElementView>) -> Result<Seq<char>, TrainError> {
    if notice.len() < 2 {
        Err(TrainError::MalformedResponse)
    } else {
        Ok(notice_text(notice[1].text))
    }
}

/// What the listing shows of a notice with a title. The title is the markup of the
/// first element, whose class says whether it is highlighted; with `verbose` the
/// text is shown too.
pub open spec fn item_of(notice: Seq<NewsElementView>, verbose: bool) -> Result<NewsItemView, TrainError> {
    if notice.len() == 0 || notice[0].class is None {
        Err(TrainError::MalformedResponse)
    } else if verbose && body_of(notice) is Err {
        Err(TrainError::MalformedResponse)
    } else {
        Ok(
            NewsItemView {
                title: notice[0].inner_html,
                highlighted: contains_spec(notice[0].class->0, HIGHLIGHT_CLASS@),
                body: if verbose {
                    Some(body_of(notice)->Ok_0)
                } else {
                    None
                },
            },
        )
    }
}

/// The listing of the notices up to `count`: it ends before the first notice that has
/// no element at all, and fails with the first notice that is malformed.
pub open spec fn listing_of(notices: Seq<Seq<NewsElementView>>, verbose: bool, count: int) -> Result<Seq<NewsItemView>, TrainError>
    decreases count,
{
    if count <= 0 {
        Ok(Seq::<NewsItemView>::empty())
    } else {
        match listing_of(notices, verbose, count - 1) {
            Err(e) => Err(e),
            Ok(items) => if items.len() < count - 1 || notices[count - 1].len() == 0 {
                Ok(items)
            } else {
                match item_of(notices[count - 1], verbose) {
                    Ok(item) => Ok(items.push(item)),
                    Err(e) => Err(e),
                }
            },
        }
    }
}

pub open spec fn body_result_view(r: Result<String, TrainError>) -> Result<Seq<char>, TrainError> {
    match r {
        Ok(text) => Ok(text@),
        Err(e) => Err(e),
    }
}

pub open spec fn item_result_view(r: Result<NewsItem, TrainError>) -> Result<NewsItemView, TrainError> {
    match r {
        Ok(item) => Ok(item@),
        Err(e) => Err(e),
    }
}

pub open spec fn listing_result_view(r: Result<Vec<NewsItem>, TrainError>) -> Result<Seq<NewsItemView>, TrainError> {
    match r {
        Ok(items) => Ok(items.deep_view()),
        Err(e) => Err(e),
    }
}

/// The text of one notice.
pub fn notice_body(notice: &Vec<NewsElement>) -> (r: Result<String, TrainError>)
    ensures
        body_result_view(r) == body_of(notice.deep_view()),
{
    if notice.len() < 2 {
        return Err(TrainError::MalformedResponse);
    }
    Ok(clean_notice_text(notice[1].text.as_str()))
}

/// What the listing shows of one notice.
pub fn news_item(notice: &Vec<NewsElement>, verbose: bool) -> (r: Result<NewsItem, TrainError>)
    ensures
        item_result_view(r) == item_of(notice.deep_view(), verbose),
{
    if notice.len() == 0 {
        return Err(TrainError::MalformedResponse);
    }
    let highlighted = match &notice[0].class {
        Some(class) => {
            let class_chars = chars_of(class.as_str());
            let mark = chars_of(HIGHLIGHT_CLASS);
            contains_chars(&class_chars, &mark)
        },
        None => {
            return Err(TrainError::MalformedResponse);
        },
    };
    let body = if verbose {
        match notice_body(notice) {
            Ok(text) => Some(text),
            Err(e) => {
                return Err(e);
            },
        }
    } else {
        None
    };
    Ok(NewsItem { title: notice[0].inner_html.clone(), highlighted, body })
}

proof fn lemma_listing_settles(notices: Seq<Seq<NewsElementView>>, verbose: bool, k: int, count: int)
    requires
        0 <= k <= count,
        listing_of(notices, verbose, k) is Err || (listing_of(notices, verbose, k) matches Ok(items) && items.len() < k),
    ensures
        listing_of(notices, verbose, count) == listing_of(notices, verbose, k),
    decreases count - k,
{
    if k < count {
        lemma_listing_settles(notices, verbose, k, count - 1);
    }
}

/// The listing of the notices of a page.
pub fn news_listing(notices: &Vec<Vec<NewsElement>>, verbose: bool) -> (r: Result<Vec<NewsItem>, TrainError>)
    ensures
        listing_result_view(r) == listing_of(notices.deep_view(), verbose, notices.len() as int),
{
    let ghost views = notices.deep_view();
    let mut items: Vec<NewsItem> = Vec::new();
    let mut i: usize = 0;
    assert(items.deep_view() =~= Seq::<NewsItemView>::empty());
    while i < notices.len()
        invariant
            views == notices.deep_view(),
            i <= notices.len(),
            items.len() == i,
            listing_of(views, verbose, i as int) == Ok::<Seq<NewsItemView>, TrainError>(items.deep_view()),
        decreases notices.len() - i,
    {
        if notices[i].len() == 0 {
            proof {
                lemma_listing_settles(views, verbose, i + 1, notices.len() as int);
            }
            return Ok(items);
        }
        let ghost before = items.deep_view();
        match news_item(&notices[i], verbose) {
            Ok(item) => {
                let ghost view = item@;
                items.push(item);
                assert(items.deep_view() =~= before.push(view));
            },
            Err(e) => {
                proof {
                    lemma_listing_settles(views, verbose, i + 1, notices.len() as int);
                }
                return Err(e);
            },
        }
        i += 1;
    }
    Ok(items)
}

/// What an answer to the question for a notice asks.
#[derive(Clone, Copy, Debug, PartialEq, Eq, Structural)]
pub enum NewsChoice {
    /// Zero: leave.
    Leave,
    /// The answer names no notice.
    Invalid,
    /// Show the text of the notice at this index.
    Show(usize),
}

/// Answers count the notices from one, and zero leaves.
pub open spec fn news_choice_spec(answer: usize, count: nat) -> NewsChoice {
    if answer == 0 {
        NewsChoice::Leave
    } else if answer > count {
        NewsChoice::Invalid
    } else {
        NewsChoice::Show((answer - 1) as usize)
    }
}

/// Decides what an answer to the question for a notice asks.
pub fn news_choice(answer: usize, count: usize) -> (r: NewsChoice)
    ensures
        r == news_choice_spec(answer, count as nat),
{
    if answer == 0 {
        NewsChoice::Leave
    } else if answer > count {
        NewsChoice::Invalid
    } else {
        NewsChoice::Show(answer - 1)
    }
}

} // verus!
