//! Station presets and the assembly of search results.

use vstd::prelude::*;
use vstd::string::StringExecFns;
use crate::chance::random_below;
use crate::text::decimal;
use crate::text::digit;
use crate::text::digit_char;
use crate::text::push_char;
use crate::text::u64_to_decimal;

verus! {

/// A preset that is played by searching for `query`.
#[derive(Debug, Clone, PartialEq, Eq)]
pub struct YTStation {
    pub key: String,
    pub name: String,
    pub query: String,
}

/// A preset that is played from the stream at `url`.
#[derive(Debug, Clone, PartialEq, Eq)]
pub struct RadioStation {
    pub key: String,
    pub name: String,
    pub url: String,
}

/// One hit of a search.
#[derive(Debug, Clone, PartialEq, Eq)]
pub struct YTSearchResult {
    pub title: String,
    pub url: String,
    pub duration: String,
    pub channel: String,
}

/// Key, name and search text of the preset stations, in menu order.
pub open spec fn station_table() -> Seq<(Seq<char>, Seq<char>, Seq<char>)> {
    seq![
        ("lofi"@, "Lofi Girl"@, "lofi hip hop radio beats to relax/study to"@),
        ("jazz"@, "Jazz Cafe"@, "jazz cafe smooth jazz bossa nova radio"@),
        ("classical"@, "Classical Focus"@, "classical music for studying and concentration"@),
        ("synthwave"@, "Synthwave Radio"@, "synthwave radio instrumental"@),
        ("piano"@, "Piano & Ambient"@, "calm piano ambient music for focus"@),
        ("chillhop"@, "Chillhop Radio"@, "chillhop radio beats chill study music"@),
    ]
}

/// Key, name and stream address of the preset radio stations, in menu order.
pub open spec fn radio_table() -> Seq<(Seq<char>, Seq<char>, Seq<char>)> {
    seq![
        ("rmf_fm"@, "RMF FM"@, "https://rs6-krk2.rmfstream.pl/RMFFM48"@),
        ("rmf_maxx"@, "RMF MAXX"@, "https://rs6-krk2.rmfstream.pl/rmf_maxxx"@),
        ("antyradio"@, "Antyradio"@, "http://an.cdn.eurozet.pl/ant-web.mp3"@),
        ("radio_zet"@, "Radio ZET"@, "http://zt.cdn.eurozet.pl/zet-net.mp3"@),
        ("eska"@, "Radio Eska"@, "https://ic2.smcdn.pl/6140-1.mp3"@),
        ("chillizet"@, "Chillizet"@, "http://ch.cdn.eurozet.pl/chi-net.mp3"@),
    ]
}

fn station(key: &str, name: &str, query: &str) -> (r: YTStation)
    ensures
        r.key@ == key@,
        r.name@ == name@,
        r.query@ == query@,
{
    YTStation { key: key.to_owned(), name: name.to_owned(), query: query.to_owned() }
}

fn radio(key: &str, name: &str, url: &str) -> (r: RadioStation)
    ensures
        r.key@ == key@,
        r.name@ == name@,
        r.url@ == url@,
{
    RadioStation { key: key.to_owned(), name: name.to_owned(), url: url.to_owned() }
}

/// The preset stations, in menu order.
pub fn preset_stations() -> (r: Vec<YTStation>)
    ensures
        r@.len() == station_table().len(),
        forall|i: int|
            0 <= i < r@.len() ==> (r@[i].key@, r@[i].name@, r@[i].query@)
                == #[trigger] station_table()[i],
{
    let mut v: Vec<YTStation> = Vec::new();
    v.push(station("lofi", "Lofi Girl", "lofi hip hop radio beats to relax/study to"));
    v.push(station("jazz", "Jazz Cafe", "jazz cafe smooth jazz bossa nova radio"));
    v.push(
        station("classical", "Classical Focus", "classical music for studying and concentration"),
    );
    v.push(station("synthwave", "Synthwave Radio", "synthwave radio instrumental"));
    v.push(station("piano", "Piano & Ambient", "calm piano ambient music for focus"));
    v.push(station("chillhop", "Chillhop Radio", "chillhop radio beats chill study music"));
    v
}

/// The preset radio stations, in menu order.
pub fn preset_radio_stations() -> (r: Vec<RadioStation>)
    ensures
        r@.len() == radio_table().len(),
        forall|i: int|
            0 <= i < r@.len() ==> (r@[i].key@, r@[i].name@, r@[i].url@)
                == #[trigger] radio_table()[i],
{
    let mut v: Vec<RadioStation> = Vec::new();
    v.push(radio("rmf_fm", "RMF FM", "https://rs6-krk2.rmfstream.pl/RMFFM48"));
    v.push(radio("rmf_maxx", "RMF MAXX", "https://rs6-krk2.rmfstream.pl/rmf_maxxx"));
    v.push(radio("antyradio", "Antyradio", "http://an.cdn.eurozet.pl/ant-web.mp3"));
    v.push(radio("radio_zet", "Radio ZET", "http://zt.cdn.eurozet.pl/zet-net.mp3"));
    v.push(radio("eska", "Radio Eska", "https://ic2.smcdn.pl/6140-1.mp3"));
    v.push(radio("chillizet", "Chillizet", "http://ch.cdn.eurozet.pl/chi-net.mp3"));
    v
}

/// A length of `secs` seconds written as minutes, a colon and two digits of
/// seconds.
pub open spec fn duration_text(secs: nat) -> Seq<char> {
    decimal(secs / 60).push(':').push(digit_char((secs % 60) / 10)).push(digit_char((secs % 60) % 10))
}

/// Writes a length in seconds as `m:ss`.
pub fn format_duration(secs: u64) -> (r: String)
    ensures
        r@ == duration_text(secs as nat),
{
    let m: u64 = secs / 60;
    let sec: u64 = secs % 60;
    let mut out = u64_to_decimal(m);
    push_char(&mut out, ':');
    push_char(&mut out, digit(sec / 10));
    push_char(&mut out, digit(sec % 10));
    assert((secs % 60) % 10 == secs % 10);
    out
}

/// The fields of one line of search output that a result is made from, each
/// present only if the line holds it with the right type.
#[derive(Debug, Clone, PartialEq, Eq)]
pub struct SearchEntry {
    pub title: Option<String>,
    pub id: Option<String>,
    /// Whole seconds; a fraction is cut off.
    pub duration_secs: Option<u64>,
    pub channel: Option<String>,
    pub uploader: Option<String>,
}

/// The texts and numbers of a search entry.
pub struct SearchEntryView {
    pub title: Option<Seq<char>>,
    pub id: Option<Seq<char>>,
    pub duration_secs: Option<u64>,
    pub channel: Option<Seq<char>>,
    pub uploader: Option<Seq<char>>,
}

/// The text of an optional string.
pub open spec fn text_of(s: Option<String>) -> Option<Seq<char>> {
    match s {
        Some(t) => Some(t@),
        None => None,
    }
}

impl View for SearchEntry {
    type V = SearchEntryView;

    open spec fn view(&self) -> SearchEntryView {
        SearchEntryView {
            title: text_of(self.title),
            id: text_of(self.id),
            duration_secs: self.duration_secs,
            channel: text_of(self.channel),
            uploader: text_of(self.uploader),
        }
    }
}

/// The texts of a search result.
pub struct SearchResultView {
    pub title: Seq<char>,
    pub url: Seq<char>,
    pub duration: Seq<char>,
    pub channel: Seq<char>,
}

impl View for YTSearchResult {
    type V = SearchResultView;

    open spec fn view(&self) -> SearchResultView {
        SearchResultView {
            title: self.title@,
            url: self.url@,
            duration: self.duration@,
            channel: self.channel@,
        }
    }
}

/// What a line of search output holds when it is read as a JSON document:
/// nothing if it is not one, else its members `title`, `id`, `channel` and
/// `uploader` where they are strings, and `duration` where it is a number, in
/// whole seconds (a fraction is cut off, a negative number counts as zero).
pub uninterp spec fn search_entry_of(line: Seq<char>) -> Option<SearchEntryView>;

/// Reads one line of search output with `serde_json::from_str` and picks
/// the members that a result is made from. Trusted: the outcome is a function
/// of the line alone, named [`search_entry_of`].
#[verifier::external_body]
fn read_search_entry(line: &str) -> (r: Option<SearchEntry>)
    ensures
        search_entry_of(line@) == (match r {
            Some(entry) => Some(entry@),
            None => None,
        }),
{
    let json = serde_json::from_str::<serde_json::Value>(line).ok()?;
    Some(
        SearchEntry {
            title: json["title"].as_str().map(String::from),
            id: json["id"].as_str().map(String::from),
            duration_secs: json["duration"].as_f64().map(|d| d as u64),
            channel: json["channel"].as_str().map(String::from),
            uploader: json["uploader"].as_str().map(String::from),
        },
    )
}

/// The text of an optional text; empty when it is absent.
pub open spec fn or_empty(s: Option<Seq<char>>) -> Seq<char> {
    match s {
        Some(t) => t,
        None => Seq::empty(),
    }
}

/// The result made from an entry: a missing title or identifier is empty, a
/// missing duration is zero, and the channel falls back on the uploader.
pub open spec fn result_of(entry: SearchEntryView) -> SearchResultView {
    SearchResultView {
        title: or_empty(entry.title),
        url: "https://www.youtube.com/watch?v="@ + or_empty(entry.id),
        duration: duration_text(
            match entry.duration_secs {
                Some(d) => d as nat,
                None => 0,
            },
        ),
        channel: if entry.channel is Some {
            or_empty(entry.channel)
        } else {
            or_empty(entry.uploader)
        },
    }
}

fn owned_or_empty(s: &Option<String>) -> (r: String)
    ensures
        r@ == or_empty(text_of(*s)),
{
    match s {
        Some(t) => t.clone(),
        None => String::new(),
    }
}

/// Makes a search result from the fields of an entry.
pub fn search_result(entry: &SearchEntry) -> (r: YTSearchResult)
    ensures
        r@ == result_of(entry@),
{
    let mut url = String::from_str("https://www.youtube.com/watch?v=");
    let id = owned_or_empty(&entry.id);
    url.append(id.as_str());
    let secs: u64 = match entry.duration_secs {
        Some(d) => d,
        None => 0,
    };
    let channel = match &entry.channel {
        Some(c) => c.clone(),
        None => owned_or_empty(&entry.uploader),
    };
    YTSearchResult {
        title: owned_or_empty(&entry.title),
        url,
        duration: format_duration(secs),
        channel,
    }
}

/// The results made from the lines of a search output, in order; a line
/// that is no JSON document gives none.
pub open spec fn results_of(lines: Seq<Seq<char>>) -> Seq<SearchResultView>
    decreases lines.len(),
{
    if lines.len() == 0 {
        Seq::empty()
    } else {
        match search_entry_of(lines.last()) {
            Some(entry) => results_of(lines.drop_last()).push(result_of(entry)),
            None => results_of(lines.drop_last()),
        }
    }
}

/// The texts of a list of lines.
pub open spec fn line_texts(lines: Seq<String>) -> Seq<Seq<char>> {
    lines.map_values(|l: String| l@)
}

/// The views of a list of results.
pub open spec fn result_views(results: Seq<YTSearchResult>) -> Seq<SearchResultView> {
    results.map_values(|r: YTSearchResult| r@)
}

/// Turns the lines of a search output into results.
pub fn search_results(lines: &Vec<String>) -> (r: Vec<YTSearchResult>)
    ensures
        result_views(r@) == results_of(line_texts(lines@)),
{
    let mut results: Vec<YTSearchResult> = Vec::new();
    let mut i: usize = 0;
    while i < lines.len()
        invariant
            i <= lines@.len(),
            result_views(results@) == results_of(line_texts(lines@).take(i as int)),
        decreases lines@.len() - i,
    {
        proof {
            let upto = line_texts(lines@).take(i + 1);
            assert(upto.drop_last() =~= line_texts(lines@).take(i as int));
            assert(upto.last() == lines@[i as int]@);
        }
        match read_search_entry(lines[i].as_str()) {
            Some(entry) => {
                let ghost before = results@;
                let result = search_result(&entry);
                results.push(result);
                assert(result_views(results@) =~= result_views(before).push(result_of(entry@)));
            },
            None => {},
        }
        i += 1;
    }
    assert(line_texts(lines@).take(lines@.len() as int) =~= line_texts(lines@));
    results
}

/// Number of leading results among which one is picked to play.
pub const PICK_AMONG: usize = 5;

/// Picks at random which of `count` results to play: one of the first five,
/// or none if there is no result.
pub fn pick_result(count: usize) -> (r: Option<usize>)
    ensures
        count == 0 <==> r is None,
        r matches Some(i) ==> i < count && i < PICK_AMONG,
{
    if count == 0 {
        None
    } else {
        let among: usize = if count < PICK_AMONG {
            count
        } else {
            PICK_AMONG
        };
        Some(random_below(among))
    }
}

} // verus!
