//! Discovery of a page's external assets (images, stylesheets, scripts).
use vstd::prelude::*;
use crate::text::{chars_of, seq_starts_with, starts_with_chars};

verus! {

// ---------------------------------------------------------------------------
// Outside calls
// ---------------------------------------------------------------------------

/// For each element of the HTML document that the CSS selector matches, in document
/// order, the value of the attribute, if the element has it; nothing when the
/// selector does not parse.
pub uninterp spec fn selected_attrs(html: Seq<char>, css: Seq<char>, attr: Seq<char>) -> Seq<Option<Seq<char>>>;

/// Parses `html` with `scraper::Html::parse_document`, selects with
/// `scraper::Selector::parse(css)` and reads `attr` of every match.
#[verifier::external_body]
pub(crate) fn html_attr_values(html: &str, css: &str, attr: &str) -> (r: Vec<Option<String>>)
    ensures
        r@.map_values(|o: Option<String>| match o { Some(s) => Some(s@), None => None })
            == selected_attrs(html@, css@, attr@),
{
    let doc = scraper::Html::parse_document(html);
    match scraper::Selector::parse(css) {
        Ok(sel) => doc.select(&sel).map(|e| e.value().attr(attr).map(|v| v.to_string())).collect(),
        Err(_) => Vec::new(),
    }
}

/// The serialization of `s` parsed as an absolute URL, when it parses.
pub uninterp spec fn url_parse_serialized(s: Seq<char>) -> Option<Seq<char>>;

/// `url::Url::parse(s)`, serialized back with `to_string`.
#[verifier::external_body]
pub(crate) fn parse_absolute_url(s: &str) -> (r: Option<String>)
    ensures
        match r {
            Some(u) => url_parse_serialized(s@) == Some(u@),
            None => url_parse_serialized(s@) is None,
        },
{
    url::Url::parse(s).ok().map(|u| u.to_string())
}

/// The serialization of `path` resolved against `base`, when `base` parses as an
/// absolute URL and the join succeeds.
pub uninterp spec fn url_join_serialized(base: Seq<char>, path: Seq<char>) -> Option<Seq<char>>;

/// `url::Url::parse(base)` followed by `Url::join(path)`, serialized with `to_string`.
#[verifier::external_body]
pub(crate) fn join_url(base: &str, path: &str) -> (r: Option<String>)
    ensures
        match r {
            Some(u) => url_join_serialized(base@, path@) == Some(u@),
            None => url_join_serialized(base@, path@) is None,
        },
{
    url::Url::parse(base).ok()?.join(path).ok().map(|u| u.to_string())
}

/// The host of `s` parsed as an absolute URL, when it parses and has one.
pub uninterp spec fn url_host(s: Seq<char>) -> Option<Seq<char>>;

/// `url::Url::parse(s)` followed by `host_str`.
#[verifier::external_body]
pub(crate) fn host_of(s: &str) -> (r: Option<String>)
    ensures
        match r {
            Some(h) => url_host(s@) == Some(h@),
            None => url_host(s@) is None,
        },
{
    url::Url::parse(s).ok().and_then(|u| u.host_str().map(|h| h.to_string()))
}

/// The host (if any) and the path of `s` parsed as an absolute URL, when it parses.
pub uninterp spec fn url_host_and_path(s: Seq<char>) -> Option<(Option<Seq<char>>, Seq<char>)>;

/// `url::Url::parse(s)` followed by `host_str` and `path`.
#[verifier::external_body]
pub(crate) fn host_and_path(s: &str) -> (r: Option<(Option<String>, String)>)
    ensures
        match r {
            Some((h, p)) => url_host_and_path(s@) == Some((
                match h {
                    Some(x) => Some(x@),
                    None => None::<Seq<char>>,
                },
                p@,
            )),
            None => url_host_and_path(s@) is None,
        },
{
    match url::Url::parse(s) {
        Ok(u) => Some((u.host_str().map(|h| h.to_string()), u.path().to_string())),
        Err(_) => None,
    }
}

// ---------------------------------------------------------------------------
// Assets
// ---------------------------------------------------------------------------

#[derive(Clone, Copy, PartialEq, Eq, Debug, Structural)]
pub enum AssetType {
    Image,
    Style,
    Script,
    Other,
}

/// An external resource referenced by a page.
pub struct DiscoveredAsset {
    pub url: String,
    pub asset_type: AssetType,
}

impl View for DiscoveredAsset {
    type V = (Seq<char>, AssetType);

    open spec fn view(&self) -> (Seq<char>, AssetType) {
        (self.url@, self.asset_type)
    }
}

/// Empty-marked processor of page markup.
pub struct DomProcessor;

/// An attribute value as an absolute URL: `data:` URLs are skipped, absolute URLs are
/// kept, and anything else is resolved against the page URL.
pub open spec fn make_absolute_spec(path: Seq<char>, base: Seq<char>) -> Option<Seq<char>> {
    if seq_starts_with(path, "data:"@) {
        None
    } else {
        match url_parse_serialized(path) {
            Some(u) => Some(u),
            None => url_join_serialized(base, path),
        }
    }
}

/// The assets of one kind that a list of attribute values yields, in order.
pub open spec fn assets_from(vals: Seq<Option<Seq<char>>>, base: Seq<char>, t: AssetType) -> Seq<(Seq<char>, AssetType)>
    decreases vals.len(),
{
    if vals.len() == 0 {
        Seq::empty()
    } else {
        let prev = assets_from(vals.drop_last(), base, t);
        match vals.last() {
            Some(v) => match make_absolute_spec(v, base) {
                Some(u) => prev.push((u, t)),
                None => prev,
            },
            None => prev,
        }
    }
}

/// Every image source, stylesheet link and script source, in that order.
pub open spec fn asset_candidates(html: Seq<char>, base: Seq<char>) -> Seq<(Seq<char>, AssetType)> {
    assets_from(selected_attrs(html, "img"@, "src"@), base, AssetType::Image)
        + assets_from(selected_attrs(html, "link[rel='stylesheet']"@, "href"@), base, AssetType::Style)
        + assets_from(selected_attrs(html, "script[src]"@, "src"@), base, AssetType::Script)
}

/// A sequence with later repeats removed.
pub open spec fn dedup<A>(s: Seq<A>) -> Seq<A>
    decreases s.len(),
{
    if s.len() == 0 {
        s
    } else {
        let p = dedup(s.drop_last());
        if p.contains(s.last()) { p } else { p.push(s.last()) }
    }
}

pub proof fn lemma_dedup<A>(s: Seq<A>)
    ensures
        dedup(s).no_duplicates(),
        dedup(s).to_set() == s.to_set(),
    decreases s.len(),
{
    if s.len() > 0 {
        let p = s.drop_last();
        lemma_dedup(p);
        assert(s =~= p.push(s.last()));
        crate::text::lemma_push_to_set(p, s.last());
        if !dedup(p).contains(s.last()) {
            crate::text::lemma_push_to_set(dedup(p), s.last());
        } else {
            assert(dedup(p).to_set().contains(s.last()));
            assert(dedup(p).to_set().insert(s.last()) =~= dedup(p).to_set());
        }
    } else {
        assert(s.to_set() =~= Set::<A>::empty());
        assert(dedup(s).to_set() =~= Set::<A>::empty());
    }
}

pub open spec fn assets_view(v: Seq<DiscoveredAsset>) -> Seq<(Seq<char>, AssetType)> {
    v.map_values(|a: DiscoveredAsset| a@)
}

impl DomProcessor {
    /// Resolves an attribute value to an absolute URL.
    pub fn make_absolute(path: &str, base: &str) -> (r: Option<String>)
        ensures
            match r {
                Some(u) => make_absolute_spec(path@, base@) == Some(u@),
                None => make_absolute_spec(path@, base@) is None,
            },
    {
        let pc = chars_of(path);
        let d = chars_of("data:");
        if starts_with_chars(&pc, &d) {
            return None;
        }
        match parse_absolute_url(path) {
            Some(u) => Some(u),
            None => join_url(base, path),
        }
    }

    fn add_unique(out: &mut Vec<DiscoveredAsset>, a: DiscoveredAsset)
        requires
            assets_view(old(out)@) == dedup(assets_view(old(out)@)),
        ensures
            assets_view(final(out)@) == if assets_view(old(out)@).contains(a@) {
                assets_view(old(out)@)
            } else {
                assets_view(old(out)@).push(a@)
            },
    {
        let mut i: usize = 0;
        while i < out.len()
            invariant
                i <= out.len(),
                out@ == old(out)@,
                forall|k: int| 0 <= k < i ==> out@[k]@ != a@,
            decreases out.len() - i,
        {
            if out[i].url == a.url && out[i].asset_type == a.asset_type {
                assert(assets_view(out@)[i as int] == a@);
                return;
            }
            i += 1;
        }
        assert(!assets_view(out@).contains(a@)) by {
            if assets_view(out@).contains(a@) {
                let k = choose|k: int| 0 <= k < out.len() && assets_view(out@)[k] == a@;
                assert(out@[k]@ == a@);
            }
        }
        let ghost before = out@;
        out.push(a);
        assert(assets_view(out@) =~= assets_view(before).push(a@));
    }

    fn collect(
        out: &mut Vec<DiscoveredAsset>,
        html: &str,
        css: &str,
        attr: &str,
        base: &str,
        t: AssetType,
        Ghost(prefix): Ghost<Seq<(Seq<char>, AssetType)>>,
    )
        requires
            assets_view(old(out)@) == dedup(prefix),
        ensures
            assets_view(final(out)@) == dedup(prefix + assets_from(selected_attrs(html@, css@, attr@), base@, t)),
    {
        let vals = html_attr_values(html, css, attr);
        let ghost vv = vals@.map_values(|o: Option<String>| match o { Some(s) => Some(s@), None => None });
        let mut i: usize = 0;
        assert(vv.take(0) =~= Seq::<Option<Seq<char>>>::empty());
        assert(prefix + assets_from(vv.take(0), base@, t) =~= prefix);
        while i < vals.len()
            invariant
                i <= vals.len(),
                vv == vals@.map_values(|o: Option<String>| match o { Some(s) => Some(s@), None => None }),
                vv == selected_attrs(html@, css@, attr@),
                assets_view(out@) == dedup(prefix + assets_from(vv.take(i as int), base@, t)),
            decreases vals.len() - i,
        {
            let ghost acc = prefix + assets_from(vv.take(i as int), base@, t);
            assert(vv.take(i + 1).drop_last() =~= vv.take(i as int));
            assert(vv.take(i + 1).last() == vv[i as int]);
            proof {
                lemma_dedup_is_dedup(acc);
            }
            match &vals[i] {
                Some(v) => {
                    match DomProcessor::make_absolute(v.as_str(), base) {
                        Some(u) => {
                            let ghost c = (u@, t);
                            assert(acc.push(c).drop_last() =~= acc);
                            assert(acc.push(c).last() == c);
                            DomProcessor::add_unique(out, DiscoveredAsset { url: u, asset_type: t });
                            assert(prefix + assets_from(vv.take(i + 1), base@, t) =~= acc.push(c));
                        },
                        None => {
                            assert(prefix + assets_from(vv.take(i + 1), base@, t) =~= acc);
                        },
                    }
                },
                None => {
                    assert(prefix + assets_from(vv.take(i + 1), base@, t) =~= acc);
                },
            }
            i += 1;
        }
        assert(vv.take(vals.len() as int) =~= vv);
    }

    /// Finds the distinct external assets of a page: image sources, stylesheet links and
    /// script sources, made absolute against the page URL, each (URL, kind) once.
    pub fn discover_assets(html_content: &str, base_url: &str) -> (r: Vec<DiscoveredAsset>)
        ensures
            assets_view(r@) == dedup(asset_candidates(html_content@, base_url@)),
            assets_view(r@).no_duplicates(),
            assets_view(r@).to_set() == asset_candidates(html_content@, base_url@).to_set(),
    {
        let mut out: Vec<DiscoveredAsset> = Vec::new();
        let ghost e = Seq::<(Seq<char>, AssetType)>::empty();
        assert(assets_view(out@) =~= dedup(e));
        DomProcessor::collect(&mut out, html_content, "img", "src", base_url, AssetType::Image, Ghost(e));
        let ghost p1 = e + assets_from(selected_attrs(html_content@, "img"@, "src"@), base_url@, AssetType::Image);
        DomProcessor::collect(&mut out, html_content, "link[rel='stylesheet']", "href", base_url, AssetType::Style, Ghost(p1));
        let ghost p2 = p1 + assets_from(selected_attrs(html_content@, "link[rel='stylesheet']"@, "href"@), base_url@, AssetType::Style);
        DomProcessor::collect(&mut out, html_content, "script[src]", "src", base_url, AssetType::Script, Ghost(p2));
        let ghost p3 = p2 + assets_from(selected_attrs(html_content@, "script[src]"@, "src"@), base_url@, AssetType::Script);
        assert(p3 =~= asset_candidates(html_content@, base_url@));
        proof {
            lemma_dedup(p3);
        }
        out
    }
}

proof fn lemma_dedup_is_dedup<A>(s: Seq<A>)
    ensures
        dedup(dedup(s)) == dedup(s),
{
    lemma_dedup(s);
    lemma_dedup_of_distinct(dedup(s));
}

proof fn lemma_dedup_of_distinct<A>(s: Seq<A>)
    requires
        s.no_duplicates(),
    ensures
        dedup(s) == s,
    decreases s.len(),
{
    if s.len() > 0 {
        let p = s.drop_last();
        assert(p.no_duplicates());
        lemma_dedup_of_distinct(p);
        assert(!p.contains(s.last())) by {
            if p.contains(s.last()) {
                let k = choose|k: int| 0 <= k < p.len() && p[k] == s.last();
                assert(s[k] == s[s.len() - 1]);
            }
        }
        assert(p.push(s.last()) =~= s);
    }
}

} // verus!
