//! The tool by which the agent searches the web: the address that is
//! asked, and how the page that comes back is read.

use crate::text::chars_of;
use crate::text::find_from;
use crate::text::first_match_from;
use crate::text::replace_all;
use crate::text::replaced;
use crate::text::text_of;
use crate::text::trim;
use crate::text::trimmed;
use vstd::prelude::*;
use vstd::string::*;
use vstd::utf8::encode_utf8;

verus! {

/// What the agent passes to the tool.
#[derive(Debug, Clone)]
pub struct WebSearchArgs {
    pub query: String,
}

/// One hit of a search.
#[derive(Debug, Clone)]
pub struct SearchResultItem {
    pub title: String,
    pub url: String,
    pub snippet: String,
}

/// What a [`SearchResultItem`] holds, as mathematical values.
pub struct SearchResultItemView {
    pub title: Seq<char>,
    pub url: Seq<char>,
    pub snippet: Seq<char>,
}

impl View for SearchResultItem {
    type V = SearchResultItemView;

    open spec fn view(&self) -> SearchResultItemView {
        SearchResultItemView { title: self.title@, url: self.url@, snippet: self.snippet@ }
    }
}

/// What the tool answers.
#[derive(Debug, Clone)]
pub struct WebSearchResult {
    pub query: String,
    pub results: Vec<SearchResultItem>,
}

/// Why the tool failed.
#[derive(Debug, Clone)]
pub struct WebSearchError(pub String);

impl WebSearchError {
    /// The message of the error.
    pub open spec fn text(self) -> Seq<char> {
        "Web search error: "@ + self.0@
    }

    /// Writes the message of the error.
    pub fn message(&self) -> (text: String)
        ensures
            text@ == self.text(),
    {
        let mut text = String::from_str("Web search error: ");
        text.append(self.0.as_str());
        text
    }
}

/// The name of the tool.
pub const NAME: &'static str = "web_search";

/// The most hits that are read from a page.
pub const MAX_RESULTS: usize = 5;

// ---------------------------------------------------------------------
// The address
// ---------------------------------------------------------------------

/// Whether the byte `b` stands for itself in an address: a letter, a digit,
/// or one of `-`, `.`, `_`, `~`.
pub open spec fn is_unreserved(b: u8) -> bool {
    ||| 0x30 <= b <= 0x39
    ||| 0x41 <= b <= 0x5a
    ||| 0x61 <= b <= 0x7a
    ||| b == 0x2d
    ||| b == 0x2e
    ||| b == 0x5f
    ||| b == 0x7e
}

/// The character that writes `n`, below sixteen, in base sixteen, with
/// capital letters.
pub open spec fn hex_char(n: int) -> char {
    if n < 10 {
        (0x30 + n) as char
    } else {
        (0x41 + n - 10) as char
    }
}

/// How the byte `b` is written in an address: as itself, or as `%` and two
/// digits in base sixteen.
pub open spec fn encoded_byte(b: u8) -> Seq<char> {
    if is_unreserved(b) {
        seq![b as char]
    } else {
        seq!['%', hex_char(b as int / 16), hex_char(b as int % 16)]
    }
}

/// How `bytes` are written in an address.
pub open spec fn percent_encoded(bytes: Seq<u8>) -> Seq<char>
    decreases bytes.len(),
{
    if bytes.len() == 0 {
        Seq::empty()
    } else {
        percent_encoded(bytes.drop_last()) + encoded_byte(bytes.last())
    }
}

/// The text that an address part `text` stands for, with each `%` and two
/// digits in base sixteen read as a byte; `None` where the bytes are no
/// UTF-8.
pub uninterp spec fn url_decoded(text: Seq<char>) -> Option<Seq<char>>;

/// Calls `urlencoding::encode`. The contract claims what its documentation
/// says: every byte of the UTF-8 form of `text` is percent-encoded, except
/// letters and digits of ASCII and `-`, `_`, `.`, `~`.
#[verifier::external_body]
fn url_encode(text: &str) -> (out: String)
    ensures
        out@ == percent_encoded(encode_utf8(text@)),
{
    urlencoding::encode(text).into_owned()
}

/// Calls `urlencoding::decode` and drops its error. The contract claims
/// that the outcome is fixed by `text`.
#[verifier::external_body]
fn url_decode(text: &str) -> (out: Option<String>)
    ensures
        text_of(out) == url_decoded(text@),
{
    match urlencoding::decode(text) {
        Ok(decoded) => Some(decoded.into_owned()),
        Err(_) => None,
    }
}

/// The address that is asked for the hits of `query`.
pub open spec fn search_url_text(query: Seq<char>) -> Seq<char> {
    "https://html.duckduckgo.com/html/?q="@ + percent_encoded(encode_utf8(query))
}

/// Writes the address that is asked for the hits of `query`.
pub fn search_url(query: &str) -> (url: String)
    ensures
        url@ == search_url_text(query@),
{
    let mut url = String::from_str("https://html.duckduckgo.com/html/?q=");
    let encoded = url_encode(query);
    url.append(encoded.as_str());
    url
}

// ---------------------------------------------------------------------
// The page
// ---------------------------------------------------------------------

/// What stands in `text` between the first `start` and the first `end`
/// behind it; `None` where either is missing.
pub open spec fn between(text: Seq<char>, start: Seq<char>, end: Seq<char>) -> Option<Seq<char>> {
    match first_match_from(text, start, 0) {
        Some(i) => match first_match_from(text, end, i + start.len()) {
            Some(j) => Some(text.subrange(i + start.len(), j)),
            None => None,
        },
        None => None,
    }
}

/// Takes from `text` what stands between the first `start` and the first
/// `end` behind it.
pub fn extract_between(text: &str, start: &str, end: &str) -> (found: Option<String>)
    ensures
        text_of(found) == between(text@, start@, end@),
{
    let cs = chars_of(text);
    let ss = chars_of(start);
    let es = chars_of(end);
    match find_from(&cs, &ss, 0) {
        Some(i) => {
            let from = i + ss.len();
            match find_from(&cs, &es, from) {
                Some(j) => Some(text.substring_char(from, j).to_owned()),
                None => None,
            }
        },
        None => None,
    }
}

/// `text` without bold marks and with the entities `&amp;`, `&lt;`, `&gt;`
/// and `&quot;` written out, in this order.
pub open spec fn unescaped(text: Seq<char>) -> Seq<char> {
    replaced(
        replaced(
            replaced(
                replaced(replaced(replaced(text, "<b>"@, ""@), "</b>"@, ""@), "&amp;"@, "&"@),
                "&lt;"@,
                "<"@,
            ),
            "&gt;"@,
            ">"@,
        ),
        "&quot;"@,
        "\""@,
    )
}

/// `text` as it is shown: unescaped, and without white space at its ends.
pub open spec fn cleaned(text: Seq<char>) -> Seq<char> {
    trimmed(unescaped(text))
}

/// Writes `text` as it is shown.
pub fn clean_html(text: &str) -> (out: String)
    ensures
        out@ == cleaned(text@),
{
    let a = replace_all(text, "<b>", "");
    let b = replace_all(a.as_str(), "</b>", "");
    let c = replace_all(b.as_str(), "&amp;", "&");
    let d = replace_all(c.as_str(), "&lt;", "<");
    let e = replace_all(d.as_str(), "&gt;", ">");
    let f = replace_all(e.as_str(), "&quot;", "\"");
    trim(f.as_str()).to_owned()
}

/// The text of `found`, or the empty text.
pub open spec fn or_empty(found: Option<Seq<char>>) -> Seq<char> {
    match found {
        Some(t) => t,
        None => Seq::empty(),
    }
}

/// The address of the hit in `block`: what follows `uddg=` up to the next
/// quote, decoded; empty where there is none or it cannot be decoded.
pub open spec fn block_url(block: Seq<char>) -> Seq<char> {
    match between(block, "uddg="@, "\""@) {
        Some(raw) => or_empty(url_decoded(raw)),
        None => Seq::empty(),
    }
}

/// The hit that `block` holds: it has a title link, and neither its title
/// nor its address is empty.
pub open spec fn item_of(block: Seq<char>) -> Option<SearchResultItemView> {
    match between(block, "result__a\">"@, "</a>"@) {
        Some(title) => if title.len() > 0 && block_url(block).len() > 0 {
            Some(
                SearchResultItemView {
                    title: cleaned(title),
                    url: block_url(block),
                    snippet: cleaned(or_empty(between(block, "result__snippet\">"@, "</a>"@))),
                },
            )
        } else {
            None
        },
        None => None,
    }
}

/// Reads the hit that `block` holds, if it holds one.
pub fn parse_result_block(block: &str) -> (item: Option<SearchResultItem>)
    ensures
        match item {
            Some(it) => item_of(block@) == Some(it@),
            None => item_of(block@) is None,
        },
{
    match extract_between(block, "result__a\">", "</a>") {
        Some(title) => {
            let url = match extract_between(block, "uddg=", "\"") {
                Some(raw) => match url_decode(raw.as_str()) {
                    Some(decoded) => decoded,
                    None => String::new(),
                },
                None => String::new(),
            };
            let snippet = match extract_between(block, "result__snippet\">", "</a>") {
                Some(snippet) => snippet,
                None => String::new(),
            };
            if !title.as_str().is_empty() && !url.as_str().is_empty() {
                Some(
                    SearchResultItem {
                        title: clean_html(title.as_str()),
                        url,
                        snippet: clean_html(snippet.as_str()),
                    },
                )
            } else {
                None
            }
        },
        None => None,
    }
}

/// The mark that begins the block of a hit.
pub open spec fn block_mark() -> Seq<char> {
    "result__body"@
}

/// The hits of the first `limit` blocks of `html` behind the place `from`.
/// A block begins behind a mark and ends before the next mark, or with the
/// page.
pub open spec fn results_from(html: Seq<char>, from: int, limit: nat) -> Seq<SearchResultItemView>
    decreases limit,
{
    if limit == 0 {
        Seq::empty()
    } else {
        match first_match_from(html, block_mark(), from) {
            Some(p) => {
                let start = p + block_mark().len();
                let end = match first_match_from(html, block_mark(), start) {
                    Some(q) => q,
                    None => html.len() as int,
                };
                let rest = results_from(html, start, (limit - 1) as nat);
                match item_of(html.subrange(start, end)) {
                    Some(item) => seq![item] + rest,
                    None => rest,
                }
            },
            None => Seq::empty(),
        }
    }
}

/// The hits of the page `html`: those of its first five blocks.
pub open spec fn parsed_results(html: Seq<char>) -> Seq<SearchResultItemView> {
    results_from(html, 0, MAX_RESULTS as nat)
}

/// The items of `results` as mathematical values.
pub open spec fn views(results: Seq<SearchResultItem>) -> Seq<SearchResultItemView> {
    results.map_values(|item: SearchResultItem| item@)
}

/// Reads the hits of the page `html`.
pub fn parse_duckduckgo_html(html: &str) -> (results: Vec<SearchResultItem>)
    ensures
        views(results@) == parsed_results(html@),
{
    let cs = chars_of(html);
    let mark = chars_of("result__body");
    let mut results: Vec<SearchResultItem> = Vec::new();
    let mut from: usize = 0;
    let mut count: usize = 0;
    while count < MAX_RESULTS
        invariant
            cs@ == html@,
            mark@ == block_mark(),
            count <= MAX_RESULTS,
            from <= cs.len(),
            views(results@) + results_from(html@, from as int, (MAX_RESULTS - count) as nat)
                == parsed_results(html@),
        decreases MAX_RESULTS - count,
    {
        match find_from(&cs, &mark, from) {
            Some(p) => {
                let start = p + mark.len();
                let end = match find_from(&cs, &mark, start) {
                    Some(q) => q,
                    None => cs.len(),
                };
                let block = html.substring_char(start, end);
                match parse_result_block(block) {
                    Some(item) => {
                        results.push(item);
                    },
                    None => {},
                }
                from = start;
                count = count + 1;
            },
            None => {
                return results;
            },
        }
    }
    results
}

/// What the search comes to: its hits, or the failure that there are none.
pub fn search_outcome(results: Vec<SearchResultItem>) -> (r: Result<
    Vec<SearchResultItem>,
    WebSearchError,
>)
    ensures
        results@.len() > 0 ==> r == Ok::<Vec<SearchResultItem>, WebSearchError>(results),
        results@.len() == 0 ==> (r matches Err(e) && e.0@ == "未找到搜索结果"@),
{
    if results.len() == 0 {
        Err(WebSearchError(String::from_str("未找到搜索结果")))
    } else {
        Ok(results)
    }
}

/// The failure that the page could not be asked for, for `reason`.
pub fn request_failed(reason: &str) -> (e: WebSearchError)
    ensures
        e.0@ == "请求失败: "@ + reason@,
{
    let mut text = String::from_str("请求失败: ");
    text.append(reason);
    WebSearchError(text)
}

/// The failure that the page could not be read, for `reason`.
pub fn read_failed(reason: &str) -> (e: WebSearchError)
    ensures
        e.0@ == "读取响应失败: "@ + reason@,
{
    let mut text = String::from_str("读取响应失败: ");
    text.append(reason);
    WebSearchError(text)
}

/// The tool's answer to `query` with the hits `results`.
pub fn answer(query: String, results: Vec<SearchResultItem>) -> (r: WebSearchResult)
    ensures
        r.query == query,
        r.results == results,
{
    WebSearchResult { query, results }
}

} // verus!
