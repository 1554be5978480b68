use apodex::date::ApodDate;
use apodex::parsing::document::Document;
use apodex::parsing::explanation;
use apodex::parsing::media_url;
use apodex::parsing::media_url::MediaUrl;
use apodex::parsing::media_url::MediaUrlKind;
use apodex::parsing::parse_html;
use apodex::parsing::title;
use apodex::parsing::ParseError;

const PAGE: &str = r#"<!doctype html>
<html><head><title>APOD: 2005 June 3 - Shooting Star over Temple</title></head>
<body>
<center><h1>Astronomy Picture of the Day</h1>
<p>2005 June 3<br>
<a href="image/0506/star_big.jpg"><img src="image/0506/star.jpg" alt="x"></a>
</center>
<center><b> Shooting Star   over Temple </b><br><b>Credit:</b> Someone</center>
<p><b>Explanation:</b> Stars   twinkle.
<p><center><b>Tomorrow's picture:</b> none</center>
</body></html>"#;

fn s(text: &str) -> String {
    text.to_string()
}

#[test]
fn title_from_the_title_element_without_centered_blocks() {
    let doc = Document::parse(
        "<html><head><title>APOD: 2005 June 3 - Shooting Star over Temple</title></head><body><p>x</p></body></html>",
    );
    assert_eq!(title::parse_title(&doc), Ok(s("Shooting Star over Temple")));
    assert_eq!(title::extract_from_center(&doc), None);
    assert_eq!(title::extract_from_title_tag(&doc), Some(s("Shooting Star over Temple")));
}

#[test]
fn title_from_the_second_of_two_centered_blocks() {
    let doc = Document::parse(
        "<html><head><title>T - Other</title></head><body><center><b>First</b></center><center><b> Real  Title </b> <b>second bold</b></center></body></html>",
    );
    assert_eq!(title::extract_from_center(&doc), Some(s(" Real  Title ")));
    assert_eq!(title::parse_title(&doc), Ok(s("Real Title")));
}

#[test]
fn title_from_the_first_centered_block_where_there_are_not_two() {
    let one = Document::parse("<body><center><i>x</i><b>Only</b></center></body>");
    assert_eq!(title::parse_title(&one), Ok(s("Only")));
    let three = Document::parse(
        "<body><center><b>One</b></center><center><b>Two</b></center><center><b>Three</b></center></body>",
    );
    assert_eq!(title::parse_title(&three), Ok(s("One")));
}

#[test]
fn title_falls_back_where_the_centered_block_has_no_bold_run() {
    let doc = Document::parse(
        "<html><head><title>A - B - The Title</title></head><body><center>plain</center></body></html>",
    );
    assert_eq!(title::extract_from_center(&doc), None);
    assert_eq!(title::parse_title(&doc), Ok(s("The Title")));
}

#[test]
fn title_falls_back_where_the_bold_run_is_blank() {
    let doc = Document::parse(
        "<html><head><title>Day - Fallback</title></head><body><center><b>  </b></center></body></html>",
    );
    assert_eq!(title::extract_from_center(&doc), Some(s("  ")));
    assert_eq!(title::parse_title(&doc), Ok(s("Fallback")));
}

#[test]
fn title_not_found() {
    let doc = Document::parse("<html><body><p>nothing here</p></body></html>");
    assert_eq!(title::parse_title(&doc), Err(ParseError::TitleNotFound));
    let blank = Document::parse("<html><head><title>   </title></head><body></body></html>");
    assert_eq!(title::parse_title(&blank), Err(ParseError::TitleNotFound));
    assert_eq!(title::parse_title(&Document::parse("")), Err(ParseError::TitleNotFound));
}

#[test]
fn title_candidates_on_given_values() {
    let groups = vec![vec![s("a")], vec![s("b"), s("c")]];
    assert_eq!(title::pick_center_title(&groups), Some(s("b")));
    assert_eq!(title::pick_center_title(&vec![vec![s("a"), s("z")]]), Some(s("a")));
    assert_eq!(title::pick_center_title(&vec![vec![], vec![s("b")], vec![s("c")]]), None);
    assert_eq!(title::pick_center_title(&vec![vec![s("a")], vec![]]), None);
    assert_eq!(title::pick_center_title(&vec![]), None);
    assert_eq!(title::pick_title_tag_title(&vec![s("x - y - z"), s("other")]), Some(s("z")));
    assert_eq!(title::pick_title_tag_title(&vec![s("plain")]), Some(s("plain")));
    assert_eq!(title::pick_title_tag_title(&vec![]), None);
}

#[test]
fn title_from_two_candidates() {
    assert_eq!(title::title_from(&Some(s(" A  b ")), &Some(s("T"))), Ok(s("A b")));
    assert_eq!(title::title_from(&Some(s(" \n")), &Some(s("T"))), Ok(s("T")));
    assert_eq!(title::title_from(&None, &Some(s(" T\nsecond line"))), Ok(s("T")));
    assert_eq!(title::title_from(&None, &None), Err(ParseError::TitleNotFound));
    assert_eq!(title::title_from(&Some(s("")), &Some(s("  "))), Err(ParseError::TitleNotFound));
    assert_eq!(title::title_from(&Some(s("Credit: NASA")), &Some(s("T"))), Ok(s("")));
}

#[test]
fn clean_title_takes_the_first_line_up_to_the_credit() {
    assert_eq!(title::clean_title("Moon  Rise\nCredit: X"), "Moon Rise");
    assert_eq!(title::clean_title("Moon Rise Credit: X Credit: Y"), "Moon Rise");
    assert_eq!(title::clean_title("Moon\tRise"), "Moon Rise");
    assert_eq!(title::clean_title("Moon\r\nRise"), "Moon");
    assert_eq!(title::clean_title(""), "");
    assert_eq!(title::clean_title("credit: lower case stays"), "credit: lower case stays");
}

#[test]
fn explanation_from_a_table_cell() {
    let doc = Document::parse(
        "<body><table><tr><td>intro</td><td><b>Explanation:</b>  From   a cell. </td></tr></table><p>Explanation: from a paragraph</p></body>",
    );
    assert_eq!(explanation::extract_explanation_from_td(&doc), Some(s("From   a cell.")));
    assert_eq!(explanation::parse_explanation(&doc), Ok(s("From a cell.")));
}

#[test]
fn explanation_from_a_paragraph() {
    let doc = Document::parse(
        "<body><p>first</p><p><b>Explanation:</b> Stars   twinkle.</p><p>Explanation: later</p></body>",
    );
    assert_eq!(explanation::extract_explanation_from_td(&doc), None);
    assert_eq!(explanation::extract_explanation_from_p(&doc), Some(s("Stars   twinkle.")));
    assert_eq!(explanation::parse_explanation(&doc), Ok(s("Stars twinkle.")));
}

#[test]
fn explanation_from_the_whole_text() {
    let doc = Document::parse("<body><div><b>Explanation:</b> In a div.</div></body>");
    assert_eq!(explanation::extract_explanation_from_td(&doc), None);
    assert_eq!(explanation::extract_explanation_from_p(&doc), None);
    assert_eq!(explanation::extract_explanation_from_text(&doc), Some(s("In a div.")));
    assert_eq!(explanation::parse_explanation(&doc), Ok(s("In a div.")));
}

#[test]
fn explanation_not_found() {
    let none = Document::parse("<body><p>No marker at all.</p></body>");
    assert_eq!(explanation::parse_explanation(&none), Err(ParseError::ExplanationNotFound));
    let blank = Document::parse("<body><p>Explanation:   </p></body>");
    assert_eq!(explanation::parse_explanation(&blank), Err(ParseError::ExplanationNotFound));
}

#[test]
fn the_first_cell_with_the_marker_decides() {
    let cells = vec![s("no marker"), s("Explanation: "), s("Explanation: later")];
    assert_eq!(explanation::find_explanation_in(&cells), None);
    let cells = vec![s("x"), s("a Explanation: one Explanation: two")];
    assert_eq!(explanation::find_explanation_in(&cells), Some(s("one")));
    assert_eq!(explanation::find_explanation_in(&vec![]), None);
}

#[test]
fn explanation_from_three_sources_in_order() {
    let with = vec![s("Explanation: cell")];
    let without = vec![s("nothing")];
    assert_eq!(explanation::explanation_from(&with, &with, "Explanation: whole"), Ok(s("cell")));
    assert_eq!(
        explanation::explanation_from(&without, &vec![s("Explanation: para")], "Explanation: whole"),
        Ok(s("para"))
    );
    assert_eq!(explanation::explanation_from(&without, &without, "Explanation: whole"), Ok(s("whole")));
    assert_eq!(
        explanation::explanation_from(&without, &without, "nothing"),
        Err(ParseError::ExplanationNotFound)
    );
}

#[test]
fn cleaned_explanation_of_the_twinkling_stars() {
    let found = explanation::find_explanation_in_text(
        "Explanation:  Stars twinkle.   Tomorrow's picture: none.",
    )
    .unwrap();
    assert_eq!(explanation::clean_explanation(&found), "Stars twinkle.");
}

#[test]
fn explanation_is_cut_at_the_first_marker_of_the_list() {
    assert_eq!(
        explanation::clean_explanation("Text here. Author: me. Tomorrow's picture: x"),
        "Text here. Author: me."
    );
    assert_eq!(explanation::clean_explanation("Text. Tomorrow's Picture: x"), "Text.");
    assert_eq!(explanation::clean_explanation("Text. Authors & editors: a, b"), "Text.");
    assert_eq!(explanation::clean_explanation("Text. Author: me"), "Text.");
    assert_eq!(explanation::clean_explanation("Text. We keep an archive file. More"), "Text.");
    assert_eq!(explanation::clean_explanation("  No   marker  "), "No marker");
    assert_eq!(explanation::clean_explanation("Tomorrow's picture: all gone"), "");
    assert_eq!(explanation::clean_explanation("Text. Tomorrow's\n picture: x"), "Text.");
}

#[test]
fn cut_at_takes_the_markers_in_their_order() {
    let text: Vec<char> = "one two three".chars().collect();
    let markers: Vec<Vec<char>> = vec!["three".chars().collect(), "two".chars().collect()];
    let cut: String = explanation::cut_at(&text, &markers).into_iter().collect();
    assert_eq!(cut, "one two ");
    let cut: String = explanation::cut_at(&text, &vec![]).into_iter().collect();
    assert_eq!(cut, "one two three");
}

#[test]
fn media_of_an_image_with_a_larger_one() {
    let doc = Document::parse(
        r#"<body><a href="ap1.html">prev</a><a href="image/big.jpg"><img src="image/small.jpg"></a><a href="image/other.jpg">x</a></body>"#,
    );
    assert_eq!(
        media_url::extract_image_urls(&doc),
        Some((
            s("https://apod.nasa.gov/apod/image/small.jpg"),
            s("https://apod.nasa.gov/apod/image/big.jpg")
        ))
    );
    assert_eq!(
        media_url::parse_media(&doc),
        Ok(MediaUrl {
            url: Some(s("https://apod.nasa.gov/apod/image/small.jpg")),
            hd_url: Some(s("https://apod.nasa.gov/apod/image/big.jpg")),
        })
    );
}

#[test]
fn media_of_an_image_without_a_larger_one() {
    let doc = Document::parse(r#"<body><a href="other.html">x</a><img src="pic.gif"></body>"#);
    assert_eq!(
        media_url::parse_media(&doc),
        Ok(MediaUrl {
            url: Some(s("https://apod.nasa.gov/apod/pic.gif")),
            hd_url: Some(s("https://apod.nasa.gov/apod/pic.gif")),
        })
    );
}

#[test]
fn media_of_a_frame() {
    let doc = Document::parse(
        r#"<body><iframe src="https://www.youtube.com/embed/abc?rel=0"></iframe><video src="v.mp4"></video></body>"#,
    );
    assert_eq!(media_url::extract_image_urls(&doc), None);
    assert_eq!(
        media_url::parse_media(&doc),
        Ok(MediaUrl { url: Some(s("https://www.youtube.com/embed/abc?rel=0")), hd_url: None })
    );
}

#[test]
fn media_of_a_video() {
    let with_source = Document::parse(
        r#"<body><video src="outer.mp4"><source src="image/inner.mp4"></video></body>"#,
    );
    assert_eq!(
        media_url::extract_video_url(&with_source),
        Some(s("https://apod.nasa.gov/apod/image/inner.mp4"))
    );
    let bare = Document::parse(r#"<body><video src="outer.mp4"></video></body>"#);
    assert_eq!(
        media_url::extract_video_url(&bare),
        Some(s("https://apod.nasa.gov/apod/outer.mp4"))
    );
    let frame_without_source = Document::parse(
        r#"<body><iframe></iframe><video src="outer.mp4"></video></body>"#,
    );
    assert_eq!(
        media_url::extract_video_url(&frame_without_source),
        Some(s("https://apod.nasa.gov/apod/outer.mp4"))
    );
}

#[test]
fn media_of_a_page_without_any() {
    let doc = Document::parse("<body><p>text only</p></body>");
    assert_eq!(media_url::parse_media(&doc), Ok(MediaUrl { url: None, hd_url: None }));
    let no_source = Document::parse("<body><img alt='x'><iframe src='f'></iframe></body>");
    assert_eq!(
        media_url::parse_media(&no_source),
        Ok(MediaUrl { url: Some(s("f")), hd_url: None })
    );
}

#[test]
fn media_addresses_on_given_values() {
    let sources = vec![Some(s("a.jpg")), Some(s("b.jpg"))];
    let links = vec![None, Some(s("index.html")), Some(s("image/a_big.jpg")), Some(s("image/z.jpg"))];
    assert_eq!(
        media_url::image_urls_from(&sources, &links),
        Some((s("https://apod.nasa.gov/apod/a.jpg"), s("https://apod.nasa.gov/apod/image/a_big.jpg")))
    );
    assert_eq!(media_url::image_urls_from(&vec![None, Some(s("b.jpg"))], &links), None);
    assert_eq!(media_url::image_urls_from(&vec![], &links), None);
    assert_eq!(media_url::find_with_prefix(&links, "image"), Some(s("image/a_big.jpg")));
    assert_eq!(media_url::find_with_prefix(&links, "video"), None);
    assert_eq!(
        media_url::video_url_from(&vec![None], &vec![vec![None, Some(s("x"))]], &vec![Some(s("v.mp4"))]),
        Some(s("https://apod.nasa.gov/apod/v.mp4"))
    );
    assert_eq!(
        media_url::video_url_from(&vec![], &vec![vec![Some(s("s.mp4"))]], &vec![Some(s("v.mp4"))]),
        Some(s("https://apod.nasa.gov/apod/s.mp4"))
    );
    assert_eq!(media_url::video_url_from(&vec![], &vec![], &vec![None]), None);
    assert_eq!(media_url::absolute_url("x/y"), "https://apod.nasa.gov/apod/x/y");
}

#[test]
fn the_last_address_of_a_text() {
    assert_eq!(media_url::get_last_url("https://a/b https://c/d"), "https://c/d");
    assert_eq!(media_url::get_last_url("see http://c/d"), "http://c/d");
    assert_eq!(media_url::get_last_url("https://a/b"), "https://a/b");
    assert_eq!(media_url::get_last_url("no address"), "no address");
    assert_eq!(media_url::get_last_url("https://a/b "), "https://a/b ");
    assert_eq!(
        media_url::get_last_url("https://apod.nasa.gov/apod/ https://www.youtube.com/embed/x"),
        "https://www.youtube.com/embed/x"
    );
    assert_eq!(media_url::last_url_or("text", Some(vec![s("first"), s("last")])), "last");
    assert_eq!(media_url::last_url_or("text", Some(vec![s("only")])), "only");
    assert_eq!(media_url::last_url_or("text", Some(vec![])), "text");
    assert_eq!(media_url::last_url_or("text", None), "text");
}

#[test]
fn kind_of_an_address() {
    let kind = |url: &str| MediaUrl { url: Some(s(url)), hd_url: None }.kind();
    assert_eq!(kind("https://www.youtube.com/embed/abc"), Some(MediaUrlKind::YoutubeVideo));
    assert_eq!(kind("https://apod.nasa.gov/apod/image/a.png"), Some(MediaUrlKind::ImagePNG));
    assert_eq!(kind("https://apod.nasa.gov/apod/image/a.PNG"), Some(MediaUrlKind::ImagePNG));
    assert_eq!(kind("https://apod.nasa.gov/apod/image/a.jpg"), Some(MediaUrlKind::ImageJPG));
    assert_eq!(kind("https://apod.nasa.gov/apod/image/a.JPEG"), Some(MediaUrlKind::ImageJPG));
    assert_eq!(kind("https://apod.nasa.gov/apod/image/a.gif"), Some(MediaUrlKind::ImageGIF));
    assert_eq!(kind("https://apod.nasa.gov/apod/image/a.mp4?t=1.png"), Some(MediaUrlKind::VideoMP4));
    assert_eq!(kind("https://apod.nasa.gov/apod/image/a.tar.gz"), None);
    assert_eq!(kind("https://apod.nasa.gov/apod/image"), None);
    assert_eq!(kind("nodot"), None);
    assert_eq!(kind("https://youtube.com/embed/abc"), None);
    assert_eq!(MediaUrl { url: None, hd_url: Some(s("a.png")) }.kind(), None);
    assert_eq!(media_url::classify("x.Gif"), Some(MediaUrlKind::ImageGIF));
}

#[test]
fn highest_quality_prefers_the_larger_one() {
    let both = MediaUrl { url: Some(s("small")), hd_url: Some(s("big")) };
    assert_eq!(both.highest_quality(), Some("big"));
    let one = MediaUrl { url: Some(s("small")), hd_url: None };
    assert_eq!(one.highest_quality(), Some("small"));
    let none = MediaUrl { url: None, hd_url: None };
    assert_eq!(none.highest_quality(), None);
    assert!(both.same_as(&both.clone()));
    assert!(!both.same_as(&one));
}

#[test]
fn entry_of_a_whole_page() {
    let entry = parse_html(ApodDate(3640), PAGE).unwrap();
    assert_eq!(entry.date, ApodDate(3640));
    assert_eq!(entry.title, "Shooting Star over Temple");
    assert_eq!(entry.explanation, "Stars twinkle.");
    assert_eq!(entry.media.url.as_deref(), Some("https://apod.nasa.gov/apod/image/0506/star.jpg"));
    assert_eq!(
        entry.media.hd_url.as_deref(),
        Some("https://apod.nasa.gov/apod/image/0506/star_big.jpg")
    );
    assert_eq!(entry.date(), ApodDate(3640));
    assert_eq!(entry.link(), Some(s("https://apod.nasa.gov/apod/ap050603.html")));
}

#[test]
fn extraction_gives_the_same_twice() {
    let a = parse_html(ApodDate(5), PAGE).unwrap();
    let b = parse_html(ApodDate(5), PAGE).unwrap();
    assert!(a.same_as(&b));
    let c = parse_html(ApodDate(6), PAGE).unwrap();
    assert!(!a.same_as(&c));
    assert_eq!(
        parse_html(ApodDate(5), "<p>x</p>").err(),
        parse_html(ApodDate(5), "<p>x</p>").err()
    );
}

#[test]
fn the_title_is_looked_for_first() {
    assert_eq!(parse_html(ApodDate(1), "<p>no title, no text</p>").err(), Some(ParseError::TitleNotFound));
    assert_eq!(
        parse_html(ApodDate(1), "<title>A - T</title><p>no marker</p>").err(),
        Some(ParseError::ExplanationNotFound)
    );
    assert_eq!(ParseError::TitleNotFound.message(), "Title not found");
    assert_eq!(ParseError::ExplanationNotFound.message(), "Explanation not found");
}

#[test]
fn questions_to_a_document() {
    let doc = Document::parse(
        r#"<html><body><p class="a">one <b>bold</b></p><p>two</p><a href="x">l</a><a>no</a></body></html>"#,
    );
    assert_eq!(doc.texts("p"), vec![s("one bold"), s("two")]);
    assert_eq!(doc.texts("p.a b"), vec![s("bold")]);
    assert_eq!(doc.texts("td"), Vec::<String>::new());
    assert_eq!(doc.texts("p["), Vec::<String>::new());
    assert_eq!(doc.attributes("a", "href"), vec![Some(s("x")), None]);
    assert_eq!(doc.attributes("a[href]", "href"), vec![Some(s("x"))]);
    assert_eq!(doc.nested_texts("p", "b"), vec![vec![s("bold")], vec![]]);
    assert_eq!(doc.nested_attributes("body", "a", "href"), vec![vec![Some(s("x")), None]]);
    assert_eq!(doc.nested_attributes("body", "a[", "href"), Vec::<Vec<Option<String>>>::new());
    assert_eq!(doc.full_text(), "one boldtwolno");
}
