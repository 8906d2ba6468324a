//! Sanitising of advertisements before they reach the user interface, and
//! the built-in advertisements used when none can be fetched.

use vstd::prelude::*;
use vstd::string::StrSliceExecFns;
use vstd::string::StringExecFns;
use crate::chance::random_below;
use crate::text::has_prefix;
use crate::text::push_char;
use crate::text::starts_with;

verus! {

/// An advertisement as the user interface receives it.
#[derive(Debug, Clone, PartialEq, Eq)]
pub struct Ad {
    pub title: String,
    pub description: String,
    pub image_url: String,
    pub click_url: String,
    pub bg_color: String,
    pub text_color: String,
    pub ad_id: String,
}

/// What a character becomes in escaped text: the five characters that are
/// significant in markup become entities, every other character stays.
pub open spec fn escape_of(c: char) -> Seq<char> {
    if c == '&' {
        "&amp;"@
    } else if c == '<' {
        "&lt;"@
    } else if c == '>' {
        "&gt;"@
    } else if c == '"' {
        "&quot;"@
    } else if c == '\'' {
        "&#x27;"@
    } else {
        seq![c]
    }
}

/// A text with every character escaped, in order.
pub open spec fn escaped(s: Seq<char>) -> Seq<char>
    decreases s.len(),
{
    if s.len() == 0 {
        Seq::empty()
    } else {
        escaped(s.drop_last()) + escape_of(s.last())
    }
}

/// Escapes the characters that are significant in markup.
pub fn html_escape(s: &str) -> (r: String)
    ensures
        r@ == escaped(s@),
{
    let mut out = String::new();
    for c in it: s.chars()
        invariant
            it.seq() == s@,
            out@ == escaped(s@.take(it.index() as int)),
    {
        proof {
            let upto = s@.take(it.index() + 1);
            assert(upto.drop_last() =~= s@.take(it.index() as int));
            assert(upto.last() == c);
        }
        if c == '&' {
            out.append("&amp;");
        } else if c == '<' {
            out.append("&lt;");
        } else if c == '>' {
            out.append("&gt;");
        } else if c == '"' {
            out.append("&quot;");
        } else if c == '\'' {
            out.append("&#x27;");
        } else {
            push_char(&mut out, c);
        }
    }
    assert(s@.take(s@.len() as int) =~= s@);
    out
}

/// Whether `c` is a hexadecimal digit.
pub open spec fn is_hex_digit(c: char) -> bool {
    ('0' <= c <= '9') || ('a' <= c <= 'f') || ('A' <= c <= 'F')
}

/// Whether `s` is a colour written as `#` and six hexadecimal digits.
pub open spec fn is_hex_color(s: Seq<char>) -> bool {
    s.len() == 7 && s[0] == '#' && forall|i: int| 1 <= i < 7 ==> is_hex_digit(#[trigger] s[i])
}

/// Whether `s` is a colour written as `#` and six hexadecimal digits.
pub fn is_valid_hex_color(s: &str) -> (r: bool)
    ensures
        r == is_hex_color(s@),
{
    if s.unicode_len() != 7 {
        return false;
    }
    if s.get_char(0) != '#' {
        return false;
    }
    let mut i: usize = 1;
    while i < 7
        invariant
            s@.len() == 7,
            1 <= i <= 7,
            forall|k: int| 1 <= k < i ==> is_hex_digit(#[trigger] s@[k]),
        decreases 7 - i,
    {
        let c: u32 = s.get_char(i) as u32;
        let hex: bool = (48 <= c && c <= 57) || (97 <= c && c <= 102) || (65 <= c && c <= 70);
        if !hex {
            return false;
        }
        i += 1;
    }
    true
}

/// An address as it may be handed on: escaped if it is a web address, empty
/// otherwise.
pub open spec fn sanitized_url(url: Seq<char>) -> Seq<char> {
    if has_prefix(url, "https://"@) || has_prefix(url, "http://"@) {
        escaped(url)
    } else {
        Seq::empty()
    }
}

/// Keeps a web address, escaped, and drops every other address.
pub fn sanitize_url(url: &str) -> (r: String)
    ensures
        r@ == sanitized_url(url@),
{
    if starts_with(url, "https://") || starts_with(url, "http://") {
        html_escape(url)
    } else {
        String::new()
    }
}

/// The texts of an advertisement.
pub struct AdView {
    pub title: Seq<char>,
    pub description: Seq<char>,
    pub image_url: Seq<char>,
    pub click_url: Seq<char>,
    pub bg_color: Seq<char>,
    pub text_color: Seq<char>,
    pub ad_id: Seq<char>,
}

impl View for Ad {
    type V = AdView;

    open spec fn view(&self) -> AdView {
        AdView {
            title: self.title@,
            description: self.description@,
            image_url: self.image_url@,
            click_url: self.click_url@,
            bg_color: self.bg_color@,
            text_color: self.text_color@,
            ad_id: self.ad_id@,
        }
    }
}

/// An advertisement made safe to display: texts escaped, addresses
/// sanitised, and a colour that is not a hex colour replaced by the default
/// background or text colour. The identifier is kept.
pub open spec fn sanitized(ad: AdView) -> AdView {
    AdView {
        title: escaped(ad.title),
        description: escaped(ad.description),
        image_url: sanitized_url(ad.image_url),
        click_url: sanitized_url(ad.click_url),
        bg_color: if is_hex_color(ad.bg_color) {
            ad.bg_color
        } else {
            "#1a1f2b"@
        },
        text_color: if is_hex_color(ad.text_color) {
            ad.text_color
        } else {
            "#ffffff"@
        },
        ad_id: ad.ad_id,
    }
}

/// Makes an advertisement safe to display.
pub fn sanitize_ad(ad: &mut Ad)
    ensures
        final(ad)@ == sanitized(old(ad)@),
{
    ad.title = html_escape(ad.title.as_str());
    ad.description = html_escape(ad.description.as_str());
    ad.image_url = sanitize_url(ad.image_url.as_str());
    ad.click_url = sanitize_url(ad.click_url.as_str());
    if !is_valid_hex_color(ad.bg_color.as_str()) {
        ad.bg_color = "#1a1f2b".to_owned();
    }
    if !is_valid_hex_color(ad.text_color.as_str()) {
        ad.text_color = "#ffffff".to_owned();
    }
}

/// A built-in advertisement with the common colours and no image.
pub open spec fn builtin(title: Seq<char>, description: Seq<char>, click_url: Seq<char>, ad_id: Seq<char>) -> AdView {
    AdView {
        title,
        description,
        image_url: Seq::empty(),
        click_url,
        bg_color: "#1a1f2b"@,
        text_color: "#ffffff"@,
        ad_id,
    }
}

/// The three built-in advertisements, in Polish if `polish`, else in
/// English.
pub open spec fn fallback_views(polish: bool) -> Seq<AdView> {
    seq![
        builtin(
            "HealthDesk Pro"@,
            if polish {
                "Ulepsz do wersji z zaawansowanymi funkcjami"@
            } else {
                "Upgrade for advanced features"@
            },
            "https://healthdesk.app/pro"@,
            "fallback_1"@,
        ),
        builtin(
            if polish {
                "Dbaj o zdrowie"@
            } else {
                "Stay Healthy"@
            },
            if polish {
                "Rób regularne przerwy dla lepszego zdrowia"@
            } else {
                "Take regular breaks for better health"@
            },
            "https://healthdesk.app"@,
            "fallback_2"@,
        ),
        builtin(
            if polish {
                "Dbaj o wzrok"@
            } else {
                "Eye Care Tips"@
            },
            if polish {
                "Stosuj zasadę 20-20-20 każdego dnia"@
            } else {
                "Follow the 20-20-20 rule daily"@
            },
            "https://healthdesk.app/tips"@,
            "fallback_3"@,
        ),
    ]
}

fn builtin_ad(title: &str, description: &str, click_url: &str, ad_id: &str) -> (r: Ad)
    ensures
        r@ == builtin(title@, description@, click_url@, ad_id@),
{
    Ad {
        title: title.to_owned(),
        description: description.to_owned(),
        image_url: String::new(),
        click_url: click_url.to_owned(),
        bg_color: "#1a1f2b".to_owned(),
        text_color: "#ffffff".to_owned(),
        ad_id: ad_id.to_owned(),
    }
}

/// The built-in advertisements for a language tag: Polish for a tag that
/// begins with `pl`, English for every other.
pub fn fallback_ads(lang: &str) -> (r: Vec<Ad>)
    ensures
        r@.len() == 3,
        forall|i: int|
            0 <= i < 3 ==> (#[trigger] r@[i])@ == fallback_views(has_prefix(lang@, "pl"@))[i],
{
    let is_pl: bool = starts_with(lang, "pl");
    let mut v: Vec<Ad> = Vec::new();
    v.push(
        builtin_ad(
            "HealthDesk Pro",
            if is_pl {
                "Ulepsz do wersji z zaawansowanymi funkcjami"
            } else {
                "Upgrade for advanced features"
            },
            "https://healthdesk.app/pro",
            "fallback_1",
        ),
    );
    v.push(
        builtin_ad(
            if is_pl {
                "Dbaj o zdrowie"
            } else {
                "Stay Healthy"
            },
            if is_pl {
                "Rób regularne przerwy dla lepszego zdrowia"
            } else {
                "Take regular breaks for better health"
            },
            "https://healthdesk.app",
            "fallback_2",
        ),
    );
    v.push(
        builtin_ad(
            if is_pl {
                "Dbaj o wzrok"
            } else {
                "Eye Care Tips"
            },
            if is_pl {
                "Stosuj zasadę 20-20-20 każdego dnia"
            } else {
                "Follow the 20-20-20 rule daily"
            },
            "https://healthdesk.app/tips",
            "fallback_3",
        ),
    );
    v
}

/// The built-in advertisement at `idx`, made safe to display; none when
/// `idx` is not the index of one.
pub fn fallback_ad_at(lang: &str, idx: usize) -> (r: Option<Ad>)
    ensures
        idx >= 3 ==> r is None,
        idx < 3 ==> r is Some && r->0@ == sanitized(
            fallback_views(has_prefix(lang@, "pl"@))[idx as int],
        ),
{
    let mut ads = fallback_ads(lang);
    if idx < ads.len() {
        let mut ad = ads.remove(idx);
        sanitize_ad(&mut ad);
        Some(ad)
    } else {
        None
    }
}

/// One of the built-in advertisements for `lang`, picked at random and made
/// safe to display.
pub fn random_fallback_ad(lang: &str) -> (ad: Ad)
    ensures
        exists|i: int|
            0 <= i < 3 && ad@ == sanitized(#[trigger] fallback_views(has_prefix(lang@, "pl"@))[i]),
{
    let mut ads = fallback_ads(lang);
    let idx: usize = random_below(ads.len());
    let mut ad = ads.remove(idx);
    sanitize_ad(&mut ad);
    ad
}

} // verus!
