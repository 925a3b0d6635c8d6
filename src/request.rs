//! What to answer to one request: path validation, client identity,
//! format negotiation and the headers of the response.
use vstd::prelude::*;
use crate::format::{
    configured_bits, configured_format, content_type, content_type_of, framing, framing_of,
    implied_bits, negotiate, negotiated, Framing,
    StreamerConfig, StreamingFormat,
};

verus! {

/// The request methods the server distinguishes.
#[derive(Debug, Clone, Copy, PartialEq, Eq, Structural)]
pub enum HttpMethod {
    Get,
    Head,
    Post,
    Other,
}

/// `a` and `b` are the same character up to ASCII letter case.
pub open spec fn same_letter(a: char, b: char) -> bool {
    ||| a == b
    ||| (65 <= a as u32 <= 90 && a as u32 + 32 == b as u32)
    ||| (65 <= b as u32 <= 90 && b as u32 + 32 == a as u32)
}

/// `s` and `t` are equal up to ASCII letter case.
pub open spec fn eq_ignore_case(s: Seq<char>, t: Seq<char>) -> bool {
    s.len() == t.len() && forall|i: int| 0 <= i < s.len() ==> same_letter(#[trigger] s[i], t[i])
}

/// The format implied by a request path, for the four recognized paths.
pub open spec fn path_format(p: Seq<char>) -> Option<StreamingFormat> {
    if eq_ignore_case(p, "/stream/swyh.wav"@) {
        Some(StreamingFormat::Wav)
    } else if eq_ignore_case(p, "/stream/swyh.raw"@) {
        Some(StreamingFormat::Lpcm)
    } else if eq_ignore_case(p, "/stream/swyh.flac"@) {
        Some(StreamingFormat::Flac)
    } else if eq_ignore_case(p, "/stream/swyh.rf64"@) {
        Some(StreamingFormat::Rf64)
    } else {
        None
    }
}

fn same_letter_exec(a: char, b: char) -> (r: bool)
    ensures
        r == same_letter(a, b),
{
    let x = a as u32;
    let y = b as u32;
    x == y || (65 <= x && x <= 90 && x + 32 == y) || (65 <= y && y <= 90 && y + 32 == x)
}

/// Compares two strings up to ASCII letter case.
pub fn str_eq_ignore_case(s: &str, t: &str) -> (r: bool)
    ensures
        r == eq_ignore_case(s@, t@),
{
    let n = s.unicode_len();
    if n != t.unicode_len() {
        return false;
    }
    let mut i: usize = 0;
    while i < n
        invariant
            n == s@.len(),
            n == t@.len(),
            i <= n,
            forall|j: int| 0 <= j < i ==> same_letter(#[trigger] s@[j], t@[j]),
        decreases n - i,
    {
        if !same_letter_exec(s.get_char(i), t.get_char(i)) {
            return false;
        }
        i = i + 1;
    }
    true
}

/// The format implied by `url`, or `None` for a path that is not served.
pub fn recognize_path(url: &str) -> (r: Option<StreamingFormat>)
    ensures
        r == path_format(url@),
{
    if str_eq_ignore_case(url, "/stream/swyh.wav") {
        Some(StreamingFormat::Wav)
    } else if str_eq_ignore_case(url, "/stream/swyh.raw") {
        Some(StreamingFormat::Lpcm)
    } else if str_eq_ignore_case(url, "/stream/swyh.flac") {
        Some(StreamingFormat::Flac)
    } else if str_eq_ignore_case(url, "/stream/swyh.rf64") {
        Some(StreamingFormat::Rf64)
    } else {
        None
    }
}

/// Index of the last `c` in `s`, or -1.
pub open spec fn last_index_of(s: Seq<char>, c: char) -> int
    decreases s.len(),
{
    if s.len() == 0 {
        -1
    } else if s.last() == c {
        s.len() - 1
    } else {
        last_index_of(s.drop_last(), c)
    }
}

proof fn lemma_last_index_bounds(s: Seq<char>, c: char)
    ensures
        -1 <= last_index_of(s, c) < s.len(),
    decreases s.len(),
{
    if s.len() > 0 {
        lemma_last_index_bounds(s.drop_last(), c);
    }
}

/// A peer address without its trailing `:port`.
pub open spec fn bare_ip_of(addr: Seq<char>) -> Seq<char> {
    let k = last_index_of(addr, ':');
    if k < 0 {
        addr
    } else {
        addr.subrange(0, k)
    }
}

/// Strips the port from a peer address (`192.168.1.5:50123` gives
/// `192.168.1.5`); an address without a colon is kept whole.
pub fn bare_ip(addr: &str) -> (r: String)
    ensures
        r@ == bare_ip_of(addr@),
{
    let n = addr.unicode_len();
    let mut i: usize = 0;
    let mut last: Option<usize> = None;
    while i < n
        invariant
            n == addr@.len(),
            i <= n,
            last_index_of(addr@.subrange(0, i as int), ':') == match last {
                Some(k) => k as int,
                None => -1,
            },
            last matches Some(k) ==> k < i,
        decreases n - i,
    {
        proof {
            let s = addr@.subrange(0, i + 1);
            assert(s.drop_last() =~= addr@.subrange(0, i as int));
            assert(s.last() == addr@[i as int]);
        }
        if addr.get_char(i) == ':' {
            last = Some(i);
        }
        i = i + 1;
    }
    assert(addr@.subrange(0, n as int) =~= addr@);
    match last {
        None => String::from_str(addr),
        Some(k) => String::from_str(addr.substring_char(0, k)),
    }
}

/// What the body of a streaming (or HEAD) response is made of.
pub struct MediaPlan {
    pub format: StreamingFormat,
    pub bits_per_sample: u16,
    pub content_type: String,
    pub framing: Framing,
}

/// A media plan as plain values.
pub struct MediaModel {
    pub format: StreamingFormat,
    pub bits_per_sample: u16,
    pub content_type: Seq<char>,
    pub framing: Framing,
}

impl MediaPlan {
    /// The plan as plain values.
    pub open spec fn view(&self) -> MediaModel {
        MediaModel {
            format: self.format,
            bits_per_sample: self.bits_per_sample,
            content_type: self.content_type@,
            framing: self.framing,
        }
    }
}

/// The answer decided for one request.
pub enum RequestPlan {
    /// Path not served: 404.
    NotFound,
    /// GET: register a session and stream.
    Stream(MediaPlan),
    /// HEAD: the streaming headers, no body, no session.
    Head(MediaPlan),
    /// POST: a bare 200, no session.
    Acknowledge,
    /// Any other method: left unanswered.
    Unanswered,
}

/// A request plan as plain values.
pub enum PlanModel {
    NotFound,
    Stream(MediaModel),
    Head(MediaModel),
    Acknowledge,
    Unanswered,
}

impl RequestPlan {
    /// The plan as plain values.
    pub open spec fn view(&self) -> PlanModel {
        match self {
            RequestPlan::NotFound => PlanModel::NotFound,
            RequestPlan::Stream(m) => PlanModel::Stream(m@),
            RequestPlan::Head(m) => PlanModel::Head(m@),
            RequestPlan::Acknowledge => PlanModel::Acknowledge,
            RequestPlan::Unanswered => PlanModel::Unanswered,
        }
    }
}

/// The media served for a path implying `requested`.
pub open spec fn media_for(requested: StreamingFormat, cfg: StreamerConfig, rate: u32) -> MediaModel {
    let (f, b) = negotiated(requested, cfg);
    MediaModel {
        format: f,
        bits_per_sample: b,
        content_type: content_type_of(f, b, rate),
        framing: framing_of(f),
    }
}

/// The plan for a request with `method` on `url`, under `cfg`, for a source
/// sampled at `rate` Hz.
pub open spec fn plan_of(method: HttpMethod, url: Seq<char>, cfg: StreamerConfig, rate: u32) -> PlanModel {
    match path_format(url) {
        None => PlanModel::NotFound,
        Some(f) => match method {
            HttpMethod::Get => PlanModel::Stream(media_for(f, cfg, rate)),
            HttpMethod::Head => PlanModel::Head(media_for(f, cfg, rate)),
            HttpMethod::Post => PlanModel::Acknowledge,
            HttpMethod::Other => PlanModel::Unanswered,
        },
    }
}

fn media_plan(requested: StreamingFormat, cfg: &StreamerConfig, rate: u32) -> (r: MediaPlan)
    ensures
        r@ == media_for(requested, *cfg, rate),
{
    let (format, bits) = negotiate(requested, cfg);
    let ct = content_type(format, bits, rate);
    MediaPlan { format, bits_per_sample: bits, content_type: ct, framing: framing(format) }
}

/// Decides how to answer a request: validates the path, negotiates the
/// format and dispatches on the method.
pub fn plan_request(method: HttpMethod, url: &str, cfg: &StreamerConfig, rate: u32) -> (r: RequestPlan)
    ensures
        r@ == plan_of(method, url@, *cfg, rate),
{
    match recognize_path(url) {
        None => RequestPlan::NotFound,
        Some(f) => match method {
            HttpMethod::Get => RequestPlan::Stream(media_plan(f, cfg, rate)),
            HttpMethod::Head => RequestPlan::Head(media_plan(f, cfg, rate)),
            HttpMethod::Post => RequestPlan::Acknowledge,
            HttpMethod::Other => RequestPlan::Unanswered,
        },
    }
}

/// Headers carried by every response.
pub open spec fn common_headers() -> Seq<(Seq<char>, Seq<char>)> {
    seq![
        ("Server"@, "swyh-rs tiny-http"@),
        ("icy-name"@, "swyh-rs"@),
        ("Connection"@, "close"@),
        ("Accept-Ranges"@, "none"@),
    ]
}

/// The headers of the response to a plan: the common ones, plus the content
/// type and the DLNA streaming marker for GET and HEAD.
pub open spec fn headers_of(p: PlanModel) -> Seq<(Seq<char>, Seq<char>)> {
    match p {
        PlanModel::Stream(m) | PlanModel::Head(m) => common_headers().push(
            ("Content-Type"@, m.content_type),
        ).push(("TransferMode.dlna.org"@, "Streaming"@)),
        _ => common_headers(),
    }
}

/// The status of the response to a plan; `None` where none is sent.
pub open spec fn status_of(p: PlanModel) -> Option<u16> {
    match p {
        PlanModel::NotFound => Some(404),
        PlanModel::Unanswered => None,
        _ => Some(200),
    }
}

/// Header lines as plain values.
pub open spec fn header_lines(v: Seq<(String, String)>) -> Seq<(Seq<char>, Seq<char>)> {
    v.map_values(|h: (String, String)| (h.0@, h.1@))
}

fn push_header(v: &mut Vec<(String, String)>, name: &str, value: &str)
    ensures
        header_lines(final(v)@) == header_lines(old(v)@).push((name@, value@)),
{
    v.push((String::from_str(name), String::from_str(value)));
    assert(header_lines(v@) =~= header_lines(old(v)@).push((name@, value@)));
}

impl RequestPlan {
    /// The response status; `None` for a request left unanswered.
    pub fn status(&self) -> (r: Option<u16>)
        ensures
            r == status_of(self@),
    {
        match self {
            RequestPlan::NotFound => Some(404),
            RequestPlan::Unanswered => None,
            _ => Some(200),
        }
    }

    /// The response header lines, in order.
    pub fn response_headers(&self) -> (r: Vec<(String, String)>)
        ensures
            header_lines(r@) == headers_of(self@),
    {
        let mut v: Vec<(String, String)> = Vec::new();
        assert(header_lines(v@) =~= Seq::<(Seq<char>, Seq<char>)>::empty());
        push_header(&mut v, "Server", "swyh-rs tiny-http");
        push_header(&mut v, "icy-name", "swyh-rs");
        push_header(&mut v, "Connection", "close");
        push_header(&mut v, "Accept-Ranges", "none");
        assert(header_lines(v@) =~= common_headers());
        match self {
            RequestPlan::Stream(m) | RequestPlan::Head(m) => {
                push_header(&mut v, "Content-Type", m.content_type.as_str());
                push_header(&mut v, "TransferMode.dlna.org", "Streaming");
            },
            _ => {},
        }
        v
    }
}

/// The four served paths and the format each implies.
pub proof fn lemma_recognized_paths()
    ensures
        path_format("/stream/swyh.wav"@) == Some(StreamingFormat::Wav),
        path_format("/stream/swyh.raw"@) == Some(StreamingFormat::Lpcm),
        path_format("/stream/swyh.flac"@) == Some(StreamingFormat::Flac),
        path_format("/stream/swyh.rf64"@) == Some(StreamingFormat::Rf64),
{
    reveal_strlit("/stream/swyh.wav");
    reveal_strlit("/stream/swyh.raw");
    reveal_strlit("/stream/swyh.flac");
    reveal_strlit("/stream/swyh.rf64");
    assert(!same_letter("/stream/swyh.raw"@[13], "/stream/swyh.wav"@[13]));
    assert(!same_letter("/stream/swyh.rf64"@[13], "/stream/swyh.flac"@[13]));
}

/// A GET on a served path streams the format the path implies, at the path's
/// own bit depth unless the configuration names that same format with another
/// depth.
pub proof fn lemma_get_serves_path_default(url: Seq<char>, cfg: StreamerConfig, rate: u32)
    requires
        path_format(url) is Some,
        configured_format(cfg) != path_format(url)->0
            || configured_bits(cfg) == implied_bits(path_format(url)->0),
    ensures
        plan_of(HttpMethod::Get, url, cfg, rate) matches PlanModel::Stream(m)
            && m.format == path_format(url)->0
            && m.bits_per_sample == implied_bits(path_format(url)->0),
{
}

/// A path that is not served gets a 404, whatever the method, and so no
/// session and no feedback.
pub proof fn lemma_unknown_path_not_found(method: HttpMethod, url: Seq<char>, cfg: StreamerConfig, rate: u32)
    requires
        path_format(url) is None,
    ensures
        plan_of(method, url, cfg, rate) == PlanModel::NotFound,
        status_of(plan_of(method, url, cfg, rate)) == Some(404u16),
{
}

/// Only a GET streams: a HEAD (or any other method) never leads to a
/// session, hence never to a registry change or a feedback event.
pub proof fn lemma_only_get_streams(method: HttpMethod, url: Seq<char>, cfg: StreamerConfig, rate: u32)
    requires
        method != HttpMethod::Get,
    ensures
        !(plan_of(method, url, cfg, rate) is Stream),
{
}

} // verus!
