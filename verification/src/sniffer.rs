//! What a tab's network listener makes of the browser's events: the request
//! rows, the responses waiting for their body, the console lines and the
//! media taken from finished responses.
use vstd::prelude::*;
use crate::panels::{classify_media, is_sniffable_spec, is_video_spec, MediaClass};
use crate::state::{MediaAsset, NetworkRequest};
use crate::strmap::StrMap;
use crate::text::{chars_of, own, string_from_chars};
use vstd::string::StringSliceAdditionalSpecFns;
use crate::video::{after_last, after_last_chars};

verus! {

/// A request row for a request the browser is about to send; its type is
/// `Other` where the browser names none.
pub fn request_sent(request_id: String, url: String, method: String, resource_type: Option<String>) -> (r: NetworkRequest)
    ensures
        r.request_id@ == request_id@,
        r.url@ == url@,
        r.method@ == method@,
        r.resource_type@ == (match resource_type {
            Some(t) => t@,
            None => "Other"@,
        }),
        r.status is None,
        r.request_body is None,
        r.response_body is None,
{
    let t = match resource_type {
        Some(t) => t,
        None => own("Other"),
    };
    NetworkRequest { request_id, url, method, resource_type: t, status: None, request_body: None, response_body: None }
}

/// A console call's arguments joined by spaces, `undefined` for an argument
/// without a value.
pub open spec fn console_text_spec(args: Seq<Option<String>>) -> Seq<char>
    decreases args.len(),
{
    if args.len() == 0 {
        Seq::empty()
    } else if args.len() == 1 {
        arg_text(args[0])
    } else {
        console_text_spec(args.drop_last()) + " "@ + arg_text(args.last())
    }
}

pub open spec fn arg_text(a: Option<String>) -> Seq<char> {
    match a {
        Some(v) => v@,
        None => "undefined"@,
    }
}

pub fn console_text(args: &Vec<Option<String>>) -> (r: String)
    ensures
        r@ == console_text_spec(args@),
{
    let mut out = String::new();
    let mut i: usize = 0;
    while i < args.len()
        invariant
            i <= args.len(),
            out@ == console_text_spec(args@.take(i as int)),
        decreases args.len() - i,
    {
        if i > 0 {
            out.append(" ");
        }
        match &args[i] {
            Some(v) => out.append(v.as_str()),
            None => out.append("undefined"),
        }
        i += 1;
        proof {
            assert(args@.take(i as int).drop_last() =~= args@.take(i - 1));
        }
    }
    assert(args@.take(args.len() as int) =~= args@);
    out
}

/// The responses whose bodies are still to come, by request id.
pub struct ResponseTable {
    pub urls: StrMap,
    pub mimes: StrMap,
}

impl ResponseTable {
    pub open spec fn wf(&self) -> bool {
        &&& self.urls.wf()
        &&& self.mimes.wf()
        &&& self.urls@.dom() == self.mimes@.dom()
    }

    pub fn new() -> (r: Self)
        ensures
            r.wf(),
            r.urls@ == Map::<Seq<char>, Seq<char>>::empty(),
    {
        ResponseTable { urls: StrMap::new(), mimes: StrMap::new() }
    }

    /// A response arrived: its URL and MIME type wait under its request id.
    pub fn insert(&mut self, request_id: String, url: String, mime: String)
        requires
            old(self).wf(),
        ensures
            final(self).wf(),
            final(self).urls@ == old(self).urls@.insert(request_id@, url@),
            final(self).mimes@ == old(self).mimes@.insert(request_id@, mime@),
    {
        self.urls.insert(request_id.clone(), url);
        self.mimes.insert(request_id, mime);
        assert(self.urls@.dom() =~= self.mimes@.dom());
    }

    /// Loading finished: the waiting URL and MIME type leave the table.
    pub fn take(&mut self, request_id: &str) -> (r: Option<(String, String)>)
        requires
            old(self).wf(),
        ensures
            final(self).wf(),
            final(self).urls@ == old(self).urls@.remove(request_id@),
            final(self).mimes@ == old(self).mimes@.remove(request_id@),
            match r {
                Some((u, m)) => old(self).urls@.contains_key(request_id@) && old(self).urls@[request_id@] == u@
                    && old(self).mimes@[request_id@] == m@,
                None => !old(self).urls@.contains_key(request_id@),
            },
    {
        let u = self.urls.remove(request_id);
        let m = self.mimes.remove(request_id);
        assert(self.urls@.dom() =~= self.mimes@.dom());
        match (u, m) {
            (Some(u), Some(m)) => Some((u, m)),
            _ => None,
        }
    }
}

/// What happens to a finished response: nothing where it is not media,
/// else its body is fetched and kept (with a thumbnail taken for a video
/// playlist).
pub fn media_to_capture(table: &mut ResponseTable, request_id: &str) -> (r: Option<(String, String, MediaClass)>)
    requires
        old(table).wf(),
    ensures
        final(table).wf(),
        final(table).urls@ == old(table).urls@.remove(request_id@),
        match r {
            Some((u, m, c)) => old(table).urls@.contains_key(request_id@) && old(table).urls@[request_id@] == u@
                && old(table).mimes@[request_id@] == m@ && c.sniffable && is_sniffable_spec(m@, u@)
                && c.is_video == is_video_spec(m@, u@),
            None => !old(table).urls@.contains_key(request_id@) || !is_sniffable_spec(
                old(table).mimes@[request_id@],
                old(table).urls@[request_id@],
            ),
        },
{
    match table.take(request_id) {
        None => None,
        Some((url, mime)) => {
            let class = classify_media(mime.as_str(), url.as_str());
            if class.sniffable {
                Some((url, mime, class))
            } else {
                None
            }
        },
    }
}

/// The bytes that base64 (standard alphabet, padded) decodes `s` to, when it decodes.
pub uninterp spec fn base64_standard_decoded(s: Seq<char>) -> Option<Seq<u8>>;

/// `BASE64_STANDARD.decode` of the `base64` crate.
#[verifier::external_body]
fn base64_decode(s: &str) -> (r: Option<Vec<u8>>)
    ensures
        match r {
            Some(b) => base64_standard_decoded(s@) == Some(b@),
            None => base64_standard_decoded(s@) is None,
        },
{
    base64::Engine::decode(&base64::prelude::BASE64_STANDARD, s).ok()
}

/// The bytes of a response body as the browser handed it over: base64 text
/// is decoded, other text taken as its UTF-8 bytes.
pub fn body_bytes(body: &str, base64_encoded: bool) -> (r: Option<Vec<u8>>)
    ensures
        base64_encoded ==> match r {
            Some(b) => base64_standard_decoded(body@) == Some(b@),
            None => base64_standard_decoded(body@) is None,
        },
        !base64_encoded ==> (r matches Some(b) && b@ == body.spec_bytes()),
{
    if base64_encoded {
        base64_decode(body)
    } else {
        Some(body.as_bytes_vec())
    }
}

/// The asset kept for a captured body: named after the URL's last segment.
pub fn captured_asset(url: String, mime: String, data: Vec<u8>) -> (r: MediaAsset)
    ensures
        r.name@ == after_last(url@, '/'),
        r.url@ == url@,
        r.mime_type@ == mime@,
        r.size_bytes == data.len(),
        r.data matches Some(d) && d@ == data@,
{
    let c = chars_of(url.as_str());
    let n = after_last_chars(&c, '/');
    let size = data.len();
    MediaAsset { name: string_from_chars(&n), url, mime_type: mime, size_bytes: size, data: Some(data) }
}


/// What a response stores under its request id is what taking that id gives
/// back, and taking it leaves the other waiting responses as they were.
pub proof fn lemma_take_after_insert(
    urls: Map<Seq<char>, Seq<char>>,
    mimes: Map<Seq<char>, Seq<char>>,
    id: Seq<char>,
    url: Seq<char>,
    mime: Seq<char>,
)
    ensures
        urls.insert(id, url).contains_key(id),
        urls.insert(id, url)[id] == url,
        mimes.insert(id, mime)[id] == mime,
        urls.insert(id, url).remove(id) == urls.remove(id),
        mimes.insert(id, mime).remove(id) == mimes.remove(id),
{
    assert(urls.insert(id, url).remove(id) =~= urls.remove(id));
    assert(mimes.insert(id, mime).remove(id) =~= mimes.remove(id));
}

} // verus!
