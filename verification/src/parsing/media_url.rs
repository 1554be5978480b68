//! The media that a page shows.

use crate::parsing::document::attributes_of;
use crate::parsing::document::nested_attributes_of;
use crate::parsing::document::Document;
use crate::parsing::ParseError;
use crate::text::before_first;
use crate::text::chars_of;
use crate::text::copy_range;
use crate::text::eq_ignore_ascii_case;
use crate::text::equals_ignoring_case;
use crate::text::has_prefix;
use crate::text::last_index_of;
use crate::text::rfind_char;
use crate::text::starts_with;
use crate::text::take_before;
use crate::APOD_BASE_URL;
use regex::Regex;
use vstd::prelude::*;
use vstd::string::StringExecFns;

verus! {

/// The addresses of a page's media: the one shown, and the one of the
/// highest resolution where there is one.
#[derive(Debug, PartialEq, Eq, PartialOrd, Ord, Hash)]
pub struct MediaUrl {
    pub url: Option<String>,
    pub hd_url: Option<String>,
}

/// The addresses of a page's media, as values.
pub struct MediaUrlView {
    pub url: Option<Seq<char>>,
    pub hd_url: Option<Seq<char>>,
}

impl View for MediaUrl {
    type V = MediaUrlView;

    open spec fn view(&self) -> MediaUrlView {
        MediaUrlView { url: self.url.deep_view(), hd_url: self.hd_url.deep_view() }
    }
}

/// What an address points to.
#[derive(Debug, Clone, Copy, PartialEq, Eq, Structural, PartialOrd, Ord, Hash)]
pub enum MediaUrlKind {
    ImagePNG,
    ImageJPG,
    ImageGIF,
    VideoMP4,
    YoutubeVideo,
}

/// The pattern of an absolute address that runs to the end of a text.
pub const LAST_URL_PATTERN: &'static str = r"https?://\S+$";

/// The matches that `regex` finds for `pattern` in `text`, from left to
/// right and without overlap; `None` where `pattern` is no regular
/// expression.
pub uninterp spec fn all_matches(pattern: Seq<char>, text: Seq<char>) -> Option<Seq<Seq<char>>>;

/// `regex::Regex::find_iter` under the expression that `regex::Regex::new`
/// reads from `pattern`: every match in `text`.
#[verifier::external_body]
fn find_matches(pattern: &str, text: &str) -> (r: Option<Vec<String>>)
    ensures
        r.deep_view() == all_matches(pattern@, text@),
{
    let re = Regex::new(pattern).ok()?;
    Some(re.find_iter(text).map(|m| m.as_str().to_string()).collect())
}

/// An address below the publication's root.
pub open spec fn absolute(path: Seq<char>) -> Seq<char> {
    APOD_BASE_URL@ + "/"@ + path
}

/// The address that a text ends in, where it ends in one; else the text.
pub open spec fn last_url(data: Seq<char>) -> Seq<char> {
    last_url_from(data, all_matches(LAST_URL_PATTERN@, data))
}

/// What the matches found in a text stand for: the last of them, or the
/// text where there is none.
pub open spec fn last_url_from(data: Seq<char>, found: Option<Seq<Seq<char>>>) -> Seq<char> {
    match found {
        Some(matches) => if matches.len() > 0 {
            matches.last()
        } else {
            data
        },
        None => data,
    }
}

/// The first of `values` that is there and begins with `prefix`.
pub open spec fn first_with_prefix(values: Seq<Option<Seq<char>>>, prefix: Seq<char>) -> Option<
    Seq<char>,
>
    decreases values.len(),
{
    if values.len() == 0 {
        None
    } else {
        match values[0] {
            Some(v) => if starts_with(v, prefix) {
                Some(v)
            } else {
                first_with_prefix(values.drop_first(), prefix)
            },
            None => first_with_prefix(values.drop_first(), prefix),
        }
    }
}

/// The addresses of a page's image, given the sources of its images and
/// the targets of its links: the first image, and the first link to below
/// `image` where there is one, else the image again. `None` where the page
/// has no image or the first one has no source.
pub open spec fn image_urls(sources: Seq<Option<Seq<char>>>, links: Seq<Option<Seq<char>>>)
    -> Option<(Seq<char>, Seq<char>)> {
    if sources.len() > 0 && sources[0] is Some {
        let url = absolute(sources[0].unwrap());
        match first_with_prefix(links, "image"@) {
            Some(href) => Some((url, absolute(href))),
            None => Some((url, url)),
        }
    } else {
        None
    }
}

/// The address of a page's video, given the sources of its frames, of the
/// source elements below each video element, and of its video elements.
pub open spec fn video_url(
    frames: Seq<Option<Seq<char>>>,
    video_sources: Seq<Seq<Option<Seq<char>>>>,
    videos: Seq<Option<Seq<char>>>,
) -> Option<Seq<char>> {
    if frames.len() > 0 && frames[0] is Some {
        frames[0]
    } else if video_sources.len() > 0 && video_sources[0].len() > 0 && video_sources[0][0] is Some {
        Some(absolute(video_sources[0][0].unwrap()))
    } else if videos.len() > 0 && videos[0] is Some {
        Some(absolute(videos[0].unwrap()))
    } else {
        None
    }
}

/// The media of a page, given its image addresses and its video address.
pub open spec fn media_from_urls(image: Option<(Seq<char>, Seq<char>)>, video: Option<Seq<char>>)
    -> MediaUrlView {
    match image {
        Some((url, hd_url)) => MediaUrlView {
            url: Some(last_url(url)),
            hd_url: Some(last_url(hd_url)),
        },
        None => match video {
            Some(url) => MediaUrlView { url: Some(last_url(url)), hd_url: None },
            None => MediaUrlView { url: None, hd_url: None },
        },
    }
}

/// The image addresses of the page `html`.
pub open spec fn parsed_image_urls(html: Seq<char>) -> Option<(Seq<char>, Seq<char>)> {
    image_urls(attributes_of(html, "img"@, "src"@), attributes_of(html, "a[href]"@, "href"@))
}

/// The video address of the page `html`.
pub open spec fn parsed_video_url(html: Seq<char>) -> Option<Seq<char>> {
    video_url(
        attributes_of(html, "iframe"@, "src"@),
        nested_attributes_of(html, "video"@, "source"@, "src"@),
        attributes_of(html, "video"@, "src"@),
    )
}

/// The media of the page `html`.
pub open spec fn parsed_media(html: Seq<char>) -> MediaUrlView {
    media_from_urls(parsed_image_urls(html), parsed_video_url(html))
}

/// What lies behind the last dot of the part of `url` before a question
/// mark.
pub open spec fn extension_of(url: Seq<char>) -> Option<Seq<char>> {
    let path = before_first(url, seq!['?']);
    match last_index_of(path, '.') {
        Some(i) => Some(path.skip(i + 1)),
        None => None,
    }
}

/// What an address points to: a YouTube player by its prefix, else by its
/// extension, whatever its case.
pub open spec fn kind_of(url: Seq<char>) -> Option<MediaUrlKind> {
    if starts_with(url, "https://www.youtube.com/embed/"@) {
        Some(MediaUrlKind::YoutubeVideo)
    } else {
        match extension_of(url) {
            Some(ext) => if eq_ignore_ascii_case(ext, "png"@) {
                Some(MediaUrlKind::ImagePNG)
            } else if eq_ignore_ascii_case(ext, "jpg"@) || eq_ignore_ascii_case(ext, "jpeg"@) {
                Some(MediaUrlKind::ImageJPG)
            } else if eq_ignore_ascii_case(ext, "gif"@) {
                Some(MediaUrlKind::ImageGIF)
            } else if eq_ignore_ascii_case(ext, "mp4"@) {
                Some(MediaUrlKind::VideoMP4)
            } else {
                None
            },
            None => None,
        }
    }
}

impl Clone for MediaUrl {
    fn clone(&self) -> (r: Self)
        ensures
            r@ == self@,
    {
        MediaUrl { url: self.url.clone(), hd_url: self.hd_url.clone() }
    }
}

/// Whether two optional texts hold the same.
fn same_text(a: &Option<String>, b: &Option<String>) -> (r: bool)
    ensures
        r == (a.deep_view() == b.deep_view()),
{
    match a {
        Some(x) => match b {
            Some(y) => *x == *y,
            None => false,
        },
        None => b.is_none(),
    }
}

impl MediaUrl {
    /// Whether two values hold the same addresses.
    pub fn same_as(&self, other: &MediaUrl) -> (r: bool)
        ensures
            r == (self@ == other@),
    {
        same_text(&self.url, &other.url) && same_text(&self.hd_url, &other.hd_url)
    }

    /// The address of the highest resolution: the high-resolution one where
    /// there is one, else the one shown.
    pub fn highest_quality(&self) -> (r: Option<&str>)
        ensures
            r.deep_view() == if self@.hd_url is Some {
                self@.hd_url
            } else {
                self@.url
            },
    {
        match &self.hd_url {
            Some(url) => Some(url.as_str()),
            None => match &self.url {
                Some(url) => Some(url.as_str()),
                None => None,
            },
        }
    }

    /// What the address shown points to.
    pub fn kind(&self) -> (r: Option<MediaUrlKind>)
        ensures
            r == match self@.url {
                Some(url) => kind_of(url),
                None => None,
            },
    {
        match &self.url {
            Some(url) => classify(url.as_str()),
            None => None,
        }
    }
}

/// What an address points to.
pub fn classify(url: &str) -> (r: Option<MediaUrlKind>)
    ensures
        r == kind_of(url@),
{
    let chars = chars_of(url);
    let youtube = chars_of("https://www.youtube.com/embed/");
    if has_prefix(chars.as_slice(), youtube.as_slice()) {
        return Some(MediaUrlKind::YoutubeVideo);
    }
    let question: Vec<char> = vec!['?'];
    assert(question@ == seq!['?']);
    let path = take_before(chars.as_slice(), question.as_slice());
    match rfind_char(path.as_slice(), '.') {
        Some(i) => {
            let ext = copy_range(path.as_slice(), i + 1, path.len());
            let png = chars_of("png");
            let jpg = chars_of("jpg");
            let jpeg = chars_of("jpeg");
            let gif = chars_of("gif");
            let mp4 = chars_of("mp4");
            if equals_ignoring_case(ext.as_slice(), png.as_slice()) {
                Some(MediaUrlKind::ImagePNG)
            } else if equals_ignoring_case(ext.as_slice(), jpg.as_slice()) || equals_ignoring_case(
                ext.as_slice(),
                jpeg.as_slice(),
            ) {
                Some(MediaUrlKind::ImageJPG)
            } else if equals_ignoring_case(ext.as_slice(), gif.as_slice()) {
                Some(MediaUrlKind::ImageGIF)
            } else if equals_ignoring_case(ext.as_slice(), mp4.as_slice()) {
                Some(MediaUrlKind::VideoMP4)
            } else {
                None
            }
        },
        None => None,
    }
}

/// An address below the publication's root.
pub fn absolute_url(path: &str) -> (r: String)
    ensures
        r@ == absolute(path@),
{
    let mut r = String::from_str(APOD_BASE_URL);
    r.append("/");
    r.append(path);
    r
}

/// What the matches found in a text stand for: the last of them, or the
/// text where there is none.
pub fn last_url_or(data: &str, found: Option<Vec<String>>) -> (r: String)
    ensures
        r@ == last_url_from(data@, found.deep_view()),
{
    match found {
        Some(matches) => {
            if matches.len() > 0 {
                let last = matches.len() - 1;
                assert(matches.deep_view().last() == matches[last as int]@);
                matches[last].clone()
            } else {
                String::from_str(data)
            }
        },
        None => String::from_str(data),
    }
}

/// The address that a text ends in, where it ends in one; else the text.
pub fn get_last_url(data: &str) -> (r: String)
    ensures
        r@ == last_url(data@),
{
    let found = find_matches(LAST_URL_PATTERN, data);
    last_url_or(data, found)
}

/// The first of `values` that is there and begins with `prefix`.
pub fn find_with_prefix(values: &Vec<Option<String>>, prefix: &str) -> (r: Option<String>)
    ensures
        r.deep_view() == first_with_prefix(values.deep_view(), prefix@),
{
    let prefix_chars = chars_of(prefix);
    let mut i: usize = 0;
    assert(values.deep_view().skip(0) =~= values.deep_view());
    while i < values.len()
        invariant
            i <= values.len(),
            prefix_chars@ == prefix@,
            first_with_prefix(values.deep_view(), prefix@) == first_with_prefix(
                values.deep_view().skip(i as int),
                prefix@,
            ),
        decreases values.len() - i,
    {
        assert(values.deep_view().skip(i as int)[0] == values[i as int].deep_view());
        match &values[i] {
            Some(v) => {
                let chars = chars_of(v.as_str());
                if has_prefix(chars.as_slice(), prefix_chars.as_slice()) {
                    return Some(v.clone());
                }
            },
            None => {},
        }
        assert(values.deep_view().skip(i as int).drop_first() =~= values.deep_view().skip(
            i as int + 1,
        ));
        i += 1;
    }
    None
}

/// The addresses of a page's image, given the sources of its images and
/// the targets of its links.
pub fn image_urls_from(sources: &Vec<Option<String>>, links: &Vec<Option<String>>) -> (r: Option<
    (String, String),
>)
    ensures
        r.deep_view() == image_urls(sources.deep_view(), links.deep_view()),
{
    if sources.len() == 0 {
        return None;
    }
    assert(sources.deep_view()[0] == sources[0].deep_view());
    match &sources[0] {
        Some(src) => {
            let url = absolute_url(src.as_str());
            match find_with_prefix(links, "image") {
                Some(href) => Some((url, absolute_url(href.as_str()))),
                None => {
                    let hd_url = url.clone();
                    Some((url, hd_url))
                },
            }
        },
        None => None,
    }
}

/// The address of a page's video, given the sources of its frames, of the
/// source elements below each video element, and of its video elements.
pub fn video_url_from(
    frames: &Vec<Option<String>>,
    video_sources: &Vec<Vec<Option<String>>>,
    videos: &Vec<Option<String>>,
) -> (r: Option<String>)
    ensures
        r.deep_view() == video_url(
            frames.deep_view(),
            video_sources.deep_view(),
            videos.deep_view(),
        ),
{
    if frames.len() > 0 {
        assert(frames.deep_view()[0] == frames[0].deep_view());
        match &frames[0] {
            Some(src) => {
                return Some(src.clone());
            },
            None => {},
        }
    }
    if video_sources.len() > 0 {
        assert(video_sources.deep_view()[0] == video_sources[0].deep_view());
        if video_sources[0].len() > 0 {
            assert(video_sources[0].deep_view()[0] == video_sources[0][0].deep_view());
            match &video_sources[0][0] {
                Some(src) => {
                    return Some(absolute_url(src.as_str()));
                },
                None => {},
            }
        }
    }
    if videos.len() > 0 {
        assert(videos.deep_view()[0] == videos[0].deep_view());
        match &videos[0] {
            Some(src) => {
                return Some(absolute_url(src.as_str()));
            },
            None => {},
        }
    }
    None
}

pub fn extract_image_urls(doc: &Document) -> (r: Option<(String, String)>)
    ensures
        r.deep_view() == parsed_image_urls(doc@),
{
    let sources = doc.attributes("img", "src");
    let links = doc.attributes("a[href]", "href");
    image_urls_from(&sources, &links)
}

pub fn extract_video_url(doc: &Document) -> (r: Option<String>)
    ensures
        r.deep_view() == parsed_video_url(doc@),
{
    let frames = doc.attributes("iframe", "src");
    let video_sources = doc.nested_attributes("video", "source", "src");
    let videos = doc.attributes("video", "src");
    video_url_from(&frames, &video_sources, &videos)
}

/// The media of a page: its image in both resolutions or, failing that,
/// its video, or nothing. This never fails.
pub fn parse_media(doc: &Document) -> (r: Result<MediaUrl, ParseError>)
    ensures
        r matches Ok(media) && media@ == parsed_media(doc@),
{
    if let Some((url, hd_url)) = extract_image_urls(doc) {
        return Ok(
            MediaUrl {
                url: Some(get_last_url(url.as_str())),
                hd_url: Some(get_last_url(hd_url.as_str())),
            },
        );
    }
    if let Some(url) = extract_video_url(doc) {
        return Ok(MediaUrl { url: Some(get_last_url(url.as_str())), hd_url: None });
    }
    Ok(MediaUrl { url: None, hd_url: None })
}

} // verus!
