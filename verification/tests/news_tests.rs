use train_tracker::error::TrainError;
use train_tracker::news::{
    clean_notice_text, news_choice, news_item, news_listing, notice_body, notices, NewsChoice,
    NewsElement, NewsItem,
};

const PAGE: &str = "<ul>\
<li><a class=\"headingNewsAccordion inEvidenza\">Linea <b>Genova</b></a><div>\t Lavori\tin corso \n</div></li>\
<li><a class=\"headingNewsAccordion\">Sciopero</a><div><p>Dalle 9</p><p> alle 17</p></div></li>\
</ul>";

fn element(html: &str, class: Option<&str>, text: &str) -> NewsElement {
    NewsElement { inner_html: html.to_string(), class: class.map(|c| c.to_string()), text: text.to_string() }
}

#[test]
fn notices_are_the_list_items_with_their_children() {
    let found = notices(PAGE);
    assert_eq!(
        found,
        vec![
            vec![
                element("Linea <b>Genova</b>", Some("headingNewsAccordion inEvidenza"), "Linea Genova"),
                element("\t Lavori\tin corso \n", None, "\t Lavori\tin corso \n"),
            ],
            vec![
                element("Sciopero", Some("headingNewsAccordion"), "Sciopero"),
                element("<p>Dalle 9</p><p> alle 17</p>", None, "Dalle 9 alle 17"),
            ],
        ]
    );
}

#[test]
fn page_without_list_items_has_no_notices() {
    assert_eq!(notices(""), Vec::<Vec<NewsElement>>::new());
    assert_eq!(notices("<p>nothing</p>"), Vec::<Vec<NewsElement>>::new());
    assert_eq!(notices("<ul><li>bare text</li></ul>"), vec![Vec::<NewsElement>::new()]);
}

#[test]
fn notice_text_loses_outer_space_and_all_tabs() {
    assert_eq!(clean_notice_text("\t Lavori\tin corso \n"), "Lavoriin corso");
    assert_eq!(clean_notice_text("a\t\tb"), "ab");
    assert_eq!(clean_notice_text("  "), "");
    assert_eq!(clean_notice_text("plain"), "plain");
}

#[test]
fn listing_of_a_page_shows_titles_and_highlights() {
    let found = notices(PAGE);
    assert_eq!(
        news_listing(&found, false),
        Ok(vec![
            NewsItem { title: "Linea <b>Genova</b>".to_string(), highlighted: true, body: None },
            NewsItem { title: "Sciopero".to_string(), highlighted: false, body: None },
        ])
    );
}

#[test]
fn verbose_listing_shows_the_texts_too() {
    let found = notices(PAGE);
    assert_eq!(
        news_listing(&found, true),
        Ok(vec![
            NewsItem { title: "Linea <b>Genova</b>".to_string(), highlighted: true, body: Some("Lavoriin corso".to_string()) },
            NewsItem { title: "Sciopero".to_string(), highlighted: false, body: Some("Dalle 9 alle 17".to_string()) },
        ])
    );
}

#[test]
fn listing_ends_before_a_notice_without_elements() {
    let found = vec![
        vec![element("one", Some(""), "one"), element("", None, "text")],
        Vec::new(),
        vec![element("three", Some(""), "three")],
    ];
    assert_eq!(news_listing(&found, false).map(|l| l.len()), Ok(1));
    assert_eq!(news_listing(&vec![Vec::new()], true), Ok(Vec::new()));
    assert_eq!(news_listing(&Vec::new(), true), Ok(Vec::new()));
}

#[test]
fn listing_fails_with_a_malformed_notice() {
    let no_class = vec![vec![element("one", None, "one"), element("", None, "text")]];
    assert_eq!(news_listing(&no_class, false), Err(TrainError::MalformedResponse));
    let no_body = vec![vec![element("one", Some("x"), "one")]];
    assert_eq!(news_listing(&no_body, false).map(|l| l.len()), Ok(1));
    assert_eq!(news_listing(&no_body, true), Err(TrainError::MalformedResponse));
    let late = vec![vec![element("one", Some("x"), "one")], Vec::new(), vec![element("bad", None, "")]];
    assert_eq!(news_listing(&late, false).map(|l| l.len()), Ok(1));
}

#[test]
fn item_is_highlighted_by_its_class() {
    let marked = vec![element("t", Some("inEvidenza"), "t")];
    assert_eq!(news_item(&marked, false).map(|i| i.highlighted), Ok(true));
    let almost = vec![element("t", Some("inevidenza"), "t")];
    assert_eq!(news_item(&almost, false).map(|i| i.highlighted), Ok(false));
    assert_eq!(news_item(&Vec::new(), false), Err(TrainError::MalformedResponse));
}

#[test]
fn body_is_the_text_of_the_second_element() {
    let notice = vec![element("t", Some(""), "t"), element("<p> x\t</p>", None, " x\t"), element("", None, "z")];
    assert_eq!(notice_body(&notice), Ok("x".to_string()));
    assert_eq!(notice_body(&vec![element("t", Some(""), "t")]), Err(TrainError::MalformedResponse));
    assert_eq!(notice_body(&Vec::new()), Err(TrainError::MalformedResponse));
}

#[test]
fn zero_leaves_and_other_answers_count_from_one() {
    assert_eq!(news_choice(0, 3), NewsChoice::Leave);
    assert_eq!(news_choice(1, 3), NewsChoice::Show(0));
    assert_eq!(news_choice(3, 3), NewsChoice::Show(2));
    assert_eq!(news_choice(4, 3), NewsChoice::Invalid);
    assert_eq!(news_choice(1, 0), NewsChoice::Invalid);
    assert_eq!(news_choice(0, 0), NewsChoice::Leave);
}
