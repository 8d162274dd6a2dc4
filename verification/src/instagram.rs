//! The extractor for Instagram posts: which addresses it claims, the
//! request it sends for a post, and how it reads the reply.

use vstd::prelude::*;
use vstd::utf8::encode_utf8;
use crate::text::{
    chars_equal, chars_of, digit_char, find_char, lemma_position, position, push_all, slice_chars,
    string_of,
};

verus! {

/// `s` without `prefix` at its front, where it starts with it.
pub open spec fn strip_prefix(s: Seq<char>, prefix: Seq<char>) -> Option<Seq<char>> {
    if prefix.is_prefix_of(s) {
        Some(s.skip(prefix.len() as int))
    } else {
        None
    }
}

/// What follows the scheme of a web address: `https://` or `http://`.
pub open spec fn after_scheme(url: Seq<char>) -> Option<Seq<char>> {
    match strip_prefix(url, "https://"@) {
        Some(rest) => Some(rest),
        None => strip_prefix(url, "http://"@),
    }
}

/// What follows the host: an optional `www.`, then `instagram`, one
/// character that is no line feed, and `com/`.
pub open spec fn after_host(rest: Seq<char>) -> Option<Seq<char>> {
    let bare = match strip_prefix(rest, "www."@) {
        Some(r) => r,
        None => rest,
    };
    match strip_prefix(bare, "instagram"@) {
        Some(r) => if r.len() > 0 && r[0] != '\n' {
            strip_prefix(r.skip(1), "com/"@)
        } else {
            None
        },
        None => None,
    }
}

/// What follows the kind of post: `p/` or `reel/`.
pub open spec fn after_kind(rest: Seq<char>) -> Option<Seq<char>> {
    match strip_prefix(rest, "p/"@) {
        Some(r) => Some(r),
        None => strip_prefix(rest, "reel/"@),
    }
}

/// The characters at the front of `rest` up to the first `/` or `?`.
pub open spec fn id_run(rest: Seq<char>) -> Seq<char> {
    if position(rest, '/') <= position(rest, '?') {
        rest.take(position(rest, '/'))
    } else {
        rest.take(position(rest, '?'))
    }
}

/// The post that an address names: the address has a scheme, the host of
/// Instagram and the kind of post, and then an identifier of at least one
/// character, which ends at the first `/` or `?`.
pub open spec fn post_id_of(url: Seq<char>) -> Option<Seq<char>> {
    match after_scheme(url) {
        Some(a) => match after_host(a) {
            Some(b) => match after_kind(b) {
                Some(c) => if id_run(c).len() > 0 {
                    Some(id_run(c))
                } else {
                    None
                },
                None => None,
            },
            None => None,
        },
        None => None,
    }
}

fn strip(v: &Vec<char>, prefix: &str) -> (rest: Option<Vec<char>>)
    ensures
        match rest {
            Some(r) => strip_prefix(v@, prefix@) == Some(r@),
            None => strip_prefix(v@, prefix@) is None,
        },
{
    let p = chars_of(prefix);
    if p.len() > v.len() {
        return None;
    }
    let head = slice_chars(v, 0, p.len());
    if chars_equal(&head, &p) {
        let rest = slice_chars(v, p.len(), v.len());
        assert(v@.subrange(p.len() as int, v.len() as int) == v@.skip(p.len() as int));
        Some(rest)
    } else {
        None
    }
}

fn scheme_end(url: &Vec<char>) -> (rest: Option<Vec<char>>)
    ensures
        match rest {
            Some(r) => after_scheme(url@) == Some(r@),
            None => after_scheme(url@) is None,
        },
{
    match strip(url, "https://") {
        Some(r) => Some(r),
        None => strip(url, "http://"),
    }
}

fn host_end(rest: &Vec<char>) -> (out: Option<Vec<char>>)
    ensures
        match out {
            Some(r) => after_host(rest@) == Some(r@),
            None => after_host(rest@) is None,
        },
{
    let bare = match strip(rest, "www.") {
        Some(r) => r,
        None => {
            let all = slice_chars(rest, 0, rest.len());
            assert(rest@.subrange(0, rest.len() as int) == rest@);
            all
        },
    };
    match strip(&bare, "instagram") {
        Some(r) => {
            if r.len() > 0 && r[0] != '\n' {
                let tail = slice_chars(&r, 1, r.len());
                assert(r@.subrange(1, r.len() as int) == r@.skip(1));
                strip(&tail, "com/")
            } else {
                None
            }
        },
        None => None,
    }
}

fn kind_end(rest: &Vec<char>) -> (out: Option<Vec<char>>)
    ensures
        match out {
            Some(r) => after_kind(rest@) == Some(r@),
            None => after_kind(rest@) is None,
        },
{
    match strip(rest, "p/") {
        Some(r) => Some(r),
        None => strip(rest, "reel/"),
    }
}

/// The extractor for Instagram posts.
#[derive(Debug, Default, Clone, Copy)]
pub struct Instagram;

impl Instagram {
    /// What this extractor does, in a sentence.
    pub fn description(&self) -> (text: &'static str)
        ensures
            text@ == "Get images and videos from Instagram posts"@,
    {
        "Get images and videos from Instagram posts"
    }

    /// The identifier of the post that `url` names, if it names one.
    pub fn post_id(url: &str) -> (id: Option<String>)
        ensures
            match id {
                Some(text) => post_id_of(url@) == Some(text@),
                None => post_id_of(url@) is None,
            },
    {
        let chars = chars_of(url);
        let a = match scheme_end(&chars) {
            Some(a) => a,
            None => {
                return None;
            },
        };
        let b = match host_end(&a) {
            Some(b) => b,
            None => {
                return None;
            },
        };
        let c = match kind_end(&b) {
            Some(c) => c,
            None => {
                return None;
            },
        };
        let slash = find_char(&c, '/');
        let mark = find_char(&c, '?');
        proof {
            lemma_position(c@, '/');
            lemma_position(c@, '?');
        }
        let end = if slash <= mark {
            slash
        } else {
            mark
        };
        if end == 0 {
            return None;
        }
        let id = slice_chars(&c, 0, end);
        assert(c@.subrange(0, end as int) == c@.take(end as int));
        Some(string_of(&id))
    }

    /// Whether `url` names an Instagram post.
    pub fn is_post_url(url: &str) -> (yes: bool)
        ensures
            yes == post_id_of(url@).is_some(),
    {
        Instagram::post_id(url).is_some()
    }
}

/// A node of the media tree of a post: one video, one image, or a carousel
/// of further nodes.
#[derive(Debug)]
pub enum InstagramXDTGraphMedia {
    XDTGraphVideo { video_url: String },
    XDTGraphImage { display_url: String },
    XDTGraphSidecar { edge_sidecar_to_children: XDTGraphEdges },
}

/// One entry of a carousel.
#[derive(Debug)]
pub struct XDTGraphEdge {
    pub node: InstagramXDTGraphMedia,
}

/// The entries of a carousel, in order.
#[derive(Debug)]
pub struct XDTGraphEdges {
    pub edges: Vec<XDTGraphEdge>,
}

/// The addresses of the media under `node`, from left to right.
pub open spec fn media_urls(node: InstagramXDTGraphMedia) -> Seq<String>
    decreases node, 0int,
{
    match node {
        InstagramXDTGraphMedia::XDTGraphVideo { video_url } => seq![video_url],
        InstagramXDTGraphMedia::XDTGraphImage { display_url } => seq![display_url],
        InstagramXDTGraphMedia::XDTGraphSidecar { edge_sidecar_to_children } => edge_urls(
            edge_sidecar_to_children.edges@,
        ),
    }
}

/// The addresses of the media under the entries `edges`, entry by entry.
pub open spec fn edge_urls(edges: Seq<XDTGraphEdge>) -> Seq<String>
    decreases edges, 1int,
{
    if edges.len() == 0 {
        Seq::empty()
    } else {
        edge_urls(edges.drop_last()) + media_urls(edges.last().node)
    }
}

impl InstagramXDTGraphMedia {
    /// The addresses of the media under this node, from left to right.
    pub fn get_media_urls(&self) -> (urls: Vec<String>)
        ensures
            urls@ == media_urls(*self),
        decreases self,
    {
        match self {
            InstagramXDTGraphMedia::XDTGraphVideo { video_url } => {
                let mut urls: Vec<String> = Vec::new();
                urls.push(video_url.clone());
                urls
            },
            InstagramXDTGraphMedia::XDTGraphImage { display_url } => {
                let mut urls: Vec<String> = Vec::new();
                urls.push(display_url.clone());
                urls
            },
            InstagramXDTGraphMedia::XDTGraphSidecar { edge_sidecar_to_children } => {
                edge_sidecar_to_children.get_media_urls()
            },
        }
    }
}

impl XDTGraphEdges {
    /// The addresses of the media under these entries, entry by entry.
    pub fn get_media_urls(&self) -> (urls: Vec<String>)
        ensures
            urls@ == edge_urls(self.edges@),
        decreases self,
    {
        let mut urls: Vec<String> = Vec::new();
        let mut i: usize = 0;
        while i < self.edges.len()
            invariant
                i <= self.edges.len(),
                urls@ == edge_urls(self.edges@.take(i as int)),
            decreases self.edges.len() - i,
        {
            let mut more = self.edges[i].node.get_media_urls();
            urls.append(&mut more);
            i += 1;
            proof {
                assert(self.edges@.take(i as int).drop_last() == self.edges@.take(i - 1));
                assert(self.edges@.take(i as int).last() == self.edges@[i - 1]);
            }
        }
        proof {
            assert(self.edges@.take(self.edges.len() as int) == self.edges@);
        }
        urls
    }
}

/// Why no media could be had for an address.
#[derive(Debug)]
pub enum InstagramError {
    /// The address names no post.
    NotAPost,
    /// The query for the post could not be written down.
    QueryNotWritable,
    /// The request did not get through; the text says why.
    RequestFailed(String),
    /// The service answered 403: it refuses to show the post to this
    /// caller.
    AccessForbidden,
    /// The service answered 429: this caller has asked too often.
    RateLimited,
    /// The reply was not JSON; the text says why.
    UnreadableReply(String),
    /// The reply holds no media for the post, which is what the service
    /// answers for a post that not everyone may see.
    AccessRestricted,
    /// The reply holds something else where the media should be.
    UnreadableMedia,
}

impl InstagramError {
    /// The text shown to the user.
    pub open spec fn text(self) -> Seq<char> {
        match self {
            InstagramError::NotAPost => "URL is not a valid Instagram post"@,
            InstagramError::QueryNotWritable => "Failed to stringify json"@,
            InstagramError::RequestFailed(detail) => "Failed to send request to instagram API: "@
                + detail@,
            InstagramError::AccessForbidden => "Instagram API returned 403. Access to this post is forbidden."@,
            InstagramError::RateLimited => "Instagram API returned 429. The request is being rate limited. Try again later."@,
            InstagramError::UnreadableReply(detail) => "Failed to parse response from instagram API: "@
                + detail@,
            InstagramError::AccessRestricted => "No media found. Post is probably age restricted."@,
            InstagramError::UnreadableMedia => "Failed to parse media from response"@,
        }
    }

    /// The text shown to the user.
    pub fn message(&self) -> (text: String)
        ensures
            text@ == self.text(),
    {
        match self {
            InstagramError::NotAPost => string_of(&chars_of("URL is not a valid Instagram post")),
            InstagramError::QueryNotWritable => string_of(&chars_of("Failed to stringify json")),
            InstagramError::RequestFailed(detail) => {
                let mut out = chars_of("Failed to send request to instagram API: ");
                push_all(&mut out, &chars_of(detail.as_str()));
                string_of(&out)
            },
            InstagramError::AccessForbidden => string_of(
                &chars_of("Instagram API returned 403. Access to this post is forbidden."),
            ),
            InstagramError::RateLimited => string_of(
                &chars_of(
                    "Instagram API returned 429. The request is being rate limited. Try again later.",
                ),
            ),
            InstagramError::UnreadableReply(detail) => {
                let mut out = chars_of("Failed to parse response from instagram API: ");
                push_all(&mut out, &chars_of(detail.as_str()));
                string_of(&out)
            },
            InstagramError::AccessRestricted => string_of(
                &chars_of("No media found. Post is probably age restricted."),
            ),
            InstagramError::UnreadableMedia => string_of(
                &chars_of("Failed to parse media from response"),
            ),
        }
    }
}

/// Whether the form encoding leaves a byte as it is: `*`, `-`, `.`, `_`,
/// the digits and the ASCII letters.
pub open spec fn form_keeps(b: u8) -> bool {
    ||| b == 0x2A
    ||| b == 0x2D
    ||| b == 0x2E
    ||| b == 0x5F
    ||| 0x30 <= b <= 0x39
    ||| 0x41 <= b <= 0x5A
    ||| 0x61 <= b <= 0x7A
}

/// The upper-case hexadecimal digit for `n`.
pub open spec fn hex_digit(n: int) -> char
    recommends
        0 <= n < 16,
{
    if n < 10 {
        digit_char(n)
    } else if n == 10 {
        'A'
    } else if n == 11 {
        'B'
    } else if n == 12 {
        'C'
    } else if n == 13 {
        'D'
    } else if n == 14 {
        'E'
    } else {
        'F'
    }
}

/// One byte in form encoding: itself where the encoding keeps it, `+` for a
/// space, and otherwise `%` and its two hexadecimal digits.
pub open spec fn form_byte(b: u8) -> Seq<char> {
    if form_keeps(b) {
        seq![b as char]
    } else if b == 0x20 {
        seq!['+']
    } else {
        seq!['%', hex_digit(b as int / 16), hex_digit(b as int % 16)]
    }
}

/// A byte string in form encoding.
pub open spec fn form_bytes(bytes: Seq<u8>) -> Seq<char>
    decreases bytes.len(),
{
    if bytes.len() == 0 {
        Seq::empty()
    } else {
        form_bytes(bytes.drop_last()) + form_byte(bytes.last())
    }
}

/// A text in form encoding: that of its bytes in UTF-8.
pub open spec fn form_text(text: Seq<char>) -> Seq<char> {
    form_bytes(encode_utf8(text))
}

/// A list of names and values in form encoding: each name, `=` and its
/// value, with `&` between one pair and the next.
pub open spec fn form_body(pairs: Seq<(Seq<char>, Seq<char>)>) -> Seq<char>
    decreases pairs.len(),
{
    if pairs.len() == 0 {
        Seq::empty()
    } else {
        let pair = form_text(pairs.last().0) + seq!['='] + form_text(pairs.last().1);
        if pairs.len() == 1 {
            pair
        } else {
            form_body(pairs.drop_last()) + seq!['&'] + pair
        }
    }
}

/// The names and values in `pairs` as sequences.
pub open spec fn pair_texts(pairs: Seq<(String, String)>) -> Seq<(Seq<char>, Seq<char>)> {
    pairs.map_values(|p: (String, String)| (p.0@, p.1@))
}

/// `form_urlencoded::Serializer` over an empty string, fed with `pairs`
/// and finished. The contract states the serializer's output as its source
/// gives it: every pair is written as name, `=`, value; a `&` stands before
/// every pair but the first; names and values go through the byte
/// serializer, which keeps `*-._`, digits and ASCII letters, writes a space
/// as `+` and any other byte as `%` with two upper-case hexadecimal digits.
#[verifier::external_body]
fn form_urlencode(pairs: &Vec<(String, String)>) -> (body: String)
    ensures
        body@ == form_body(pair_texts(pairs@)),
{
    let mut serializer = form_urlencoded::Serializer::new(String::new());
    serializer.extend_pairs(pairs.iter());
    serializer.finish()
}

/// The error of `serde_json`.
#[verifier::external_type_specification]
#[verifier::external_body]
pub struct ExJsonError(serde_json::Error);

/// The JSON text that `serde_json` writes for an object whose members have
/// the names `names` and, place by place, the values `values`: a string, or
/// `null` where there is none.
pub uninterp spec fn json_object_text(names: Seq<Seq<char>>, values: Seq<Option<Seq<char>>>) -> Seq<char>;

/// The values in `values` as sequences.
pub open spec fn value_texts(values: Seq<Option<String>>) -> Seq<Option<Seq<char>>> {
    values.map_values(
        |v: Option<String>|
            match v {
                Some(text) => Some(text@),
                None => None,
            },
    )
}

/// The names in `names` as sequences.
pub open spec fn member_names(names: Seq<String>) -> Seq<Seq<char>> {
    names.map_values(|n: String| n@)
}

/// `serde_json::to_string` of the object with the given member names and
/// values. The call succeeds, and the text is the one that the name above
/// stands for. It succeeds because the text is written into a byte vector,
/// which takes every write, and because strings, `null` and an object with
/// string keys are all that is written: the serializer fails on nothing
/// else than a failed write or a key that is no string.
#[verifier::external_body]
fn json_object(names: &Vec<String>, values: &Vec<Option<String>>) -> (text: Result<
    String,
    serde_json::Error,
>)
    ensures
        text is Ok,
        text matches Ok(t) ==> t@ == json_object_text(member_names(names@), value_texts(values@)),
{
    let values = values.iter().map(|v| v.clone().map_or(serde_json::Value::Null, serde_json::Value::String));
    let members: serde_json::Map<String, serde_json::Value> = names.iter().cloned().zip(values).collect();
    serde_json::to_string(&serde_json::Value::Object(members))
}

/// A request to the service: where it goes, the type of its body, and the
/// body.
#[derive(Debug)]
pub struct ApiRequest {
    pub url: String,
    pub content_type: String,
    pub body: String,
}

/// The member names of the query for a post.
pub open spec fn query_names() -> Seq<Seq<char>> {
    seq![
        "shortcode"@,
        "fetch_tagged_user_count"@,
        "hoisted_comment_id"@,
        "hoisted_reply_id"@,
    ]
}

/// The member values of the query for the post `post_id`: the post, and
/// nothing for the other three.
pub open spec fn query_values(post_id: Seq<char>) -> Seq<Option<Seq<char>>> {
    seq![Some(post_id), None, None, None]
}

/// The body of the request that carries the query `variables`.
pub open spec fn request_body(variables: Seq<char>) -> Seq<char> {
    form_body(
        seq![
            ("variables"@, variables),
            ("server_timestamps"@, "true"@),
            ("doc_id"@, "9510064595728286"@),
        ],
    )
}

/// Whether `request` is the request that carries the query `variables`.
pub open spec fn is_request_with(request: ApiRequest, variables: Seq<char>) -> bool {
    &&& request.url@ == "https://www.instagram.com/graphql/query/"@
    &&& request.content_type@ == "application/x-www-form-urlencoded"@
    &&& request.body@ == request_body(variables)
}

/// The request that carries the query `variables`.
pub fn request_with_variables(variables: String) -> (request: ApiRequest)
    ensures
        is_request_with(request, variables@),
{
    let mut pairs: Vec<(String, String)> = Vec::new();
    pairs.push((string_of(&chars_of("variables")), variables));
    pairs.push((string_of(&chars_of("server_timestamps")), string_of(&chars_of("true"))));
    pairs.push((string_of(&chars_of("doc_id")), string_of(&chars_of("9510064595728286"))));
    assert(pair_texts(pairs@) == seq![
        ("variables"@, variables@),
        ("server_timestamps"@, "true"@),
        ("doc_id"@, "9510064595728286"@),
    ]);
    ApiRequest {
        url: string_of(&chars_of("https://www.instagram.com/graphql/query/")),
        content_type: string_of(&chars_of("application/x-www-form-urlencoded")),
        body: form_urlencode(&pairs),
    }
}

/// The request that asks for the media of the post `post_id`. There is
/// one for every post.
pub fn plan_request(post_id: &str) -> (planned: Result<ApiRequest, InstagramError>)
    ensures
        planned matches Ok(request) && is_request_with(
            request,
            json_object_text(query_names(), query_values(post_id@)),
        ),
{
    let mut names: Vec<String> = Vec::new();
    names.push(string_of(&chars_of("shortcode")));
    names.push(string_of(&chars_of("fetch_tagged_user_count")));
    names.push(string_of(&chars_of("hoisted_comment_id")));
    names.push(string_of(&chars_of("hoisted_reply_id")));
    let mut values: Vec<Option<String>> = Vec::new();
    values.push(Some(string_of(&chars_of(post_id))));
    values.push(None);
    values.push(None);
    values.push(None);
    assert(member_names(names@) == query_names());
    assert(value_texts(values@) == query_values(post_id@));
    match json_object(&names, &values) {
        Ok(variables) => Ok(request_with_variables(variables)),
        Err(_) => Err(InstagramError::QueryNotWritable),
    }
}

/// The request that asks for the media behind `url`. There is one where
/// the address names a post, and only there.
pub fn plan_request_for_url(url: &str) -> (planned: Result<ApiRequest, InstagramError>)
    ensures
        match post_id_of(url@) {
            Some(id) => planned matches Ok(request) && is_request_with(
                request,
                json_object_text(query_names(), query_values(id)),
            ),
            None => planned matches Err(e) && e == InstagramError::NotAPost,
        },
{
    match Instagram::post_id(url) {
        Some(id) => plan_request(id.as_str()),
        None => Err(InstagramError::NotAPost),
    }
}

/// What the reply holds where the media of the post should be.
#[derive(Debug)]
pub enum MediaField {
    /// Nothing: the reply has no such member.
    Absent,
    /// `null`.
    Null,
    /// Something that is no media node.
    Unreadable,
    /// The media of the post.
    Media(InstagramXDTGraphMedia),
}

/// The status with which the service refuses a caller.
pub const STATUS_FORBIDDEN: u16 = 403;

/// The status with which the service turns away a caller that asks too
/// often.
pub const STATUS_TOO_MANY_REQUESTS: u16 = 429;

/// What a reply says: the media addresses of the post, or why there are
/// none. The status is looked at first: a refusal and a turning away for
/// asking too often are each their own kind of failure, whatever the body
/// holds. Then comes whether the body could be read, and then what it
/// holds.
pub open spec fn reply_outcome(status: u16, body: Result<MediaField, String>) -> Result<
    Seq<String>,
    InstagramError,
> {
    if status == STATUS_FORBIDDEN {
        Err(InstagramError::AccessForbidden)
    } else if status == STATUS_TOO_MANY_REQUESTS {
        Err(InstagramError::RateLimited)
    } else {
        match body {
            Err(detail) => Err(InstagramError::UnreadableReply(detail)),
            Ok(MediaField::Null) => Err(InstagramError::AccessRestricted),
            Ok(MediaField::Absent) => Err(InstagramError::UnreadableMedia),
            Ok(MediaField::Unreadable) => Err(InstagramError::UnreadableMedia),
            Ok(MediaField::Media(node)) => Ok(media_urls(node)),
        }
    }
}

/// Reads a reply: `status` is its status code, and `body` what was found
/// in its body, or why the body could not be read.
pub fn read_reply(status: u16, body: Result<MediaField, String>) -> (urls: Result<
    Vec<String>,
    InstagramError,
>)
    ensures
        match urls {
            Ok(list) => reply_outcome(status, body) == Ok::<Seq<String>, InstagramError>(list@),
            Err(e) => reply_outcome(status, body) == Err::<Seq<String>, InstagramError>(e),
        },
{
    if status == STATUS_FORBIDDEN {
        return Err(InstagramError::AccessForbidden);
    }
    if status == STATUS_TOO_MANY_REQUESTS {
        return Err(InstagramError::RateLimited);
    }
    match body {
        Err(detail) => Err(InstagramError::UnreadableReply(detail)),
        Ok(MediaField::Null) => Err(InstagramError::AccessRestricted),
        Ok(MediaField::Absent) => Err(InstagramError::UnreadableMedia),
        Ok(MediaField::Unreadable) => Err(InstagramError::UnreadableMedia),
        Ok(MediaField::Media(node)) => Ok(node.get_media_urls()),
    }
}

} // verus!
