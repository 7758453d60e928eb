//! The route handlers of the image service.
//!
//! Five routes: an index redirect, the image list, the per-image detail, the
//! raw image bytes, and a small adder. Every handler is a function from plain
//! request data to the exact response value; the HTTP server around the
//! library extracts that data and sends the result back.

use vstd::prelude::*;
use crate::json::json_escape;
use crate::json::spec_json_escape;
use crate::num::i32_to_string;
use crate::num::parse_i32;
use crate::num::spec_i32_string;
use crate::num::spec_parse_i32;

verus! {

/// The value of the request's `Host` header.
pub struct HostHeader<'a>(pub &'a str);

impl<'a> HostHeader<'a> {
    /// The routing guard for the `Host` header: a route that builds absolute
    /// URLs matches only a request that carries the header, and an absent
    /// header makes the request fall through to the no-match outcome.
    pub fn from_request(header: Option<&'a str>) -> (r: Option<HostHeader<'a>>)
        ensures
            r is Some <==> header is Some,
            r matches Some(h) ==> h.0@ == header->0@,
    {
        match header {
            Some(h) => Some(HostHeader(h)),
            None => None,
        }
    }
}

/// A redirect response, reduced to the location the client is sent to.
pub struct Redirect {
    pub location: String,
}

/// `GET /`: redirects to the image list.
pub fn index() -> (r: Redirect)
    ensures
        r.location@ == "/images"@,
{
    Redirect { location: String::from_str("/images") }
}

/// An image as the service reports it: an opaque id and the host the request
/// was addressed to, from which the absolute raw URL is built.
pub struct WebImage {
    pub id: String,
    pub host: String,
}

/// The on-disk location of an image's bytes.
pub open spec fn spec_raw_path(id: Seq<char>) -> Seq<char> {
    "static/images/"@ + id + ".jpg"@
}

/// The absolute URL of the raw-bytes route for an image.
pub open spec fn spec_raw_url(host: Seq<char>, id: Seq<char>) -> Seq<char> {
    "http://"@ + host + "/images/"@ + id + "/raw"@
}

/// The JSON body of the detail route.
pub open spec fn spec_image_json(id: Seq<char>, host: Seq<char>) -> Seq<char> {
    "{\"id\":\""@ + spec_json_escape(id) + "\",\"raw_url\":\""@ + spec_json_escape(
        spec_raw_url(host, id),
    ) + "\"}"@
}

impl WebImage {
    /// Binds an id to the current request's host.
    pub fn from(id: &str, host: &str) -> (r: WebImage)
        ensures
            r.id@ == id@,
            r.host@ == host@,
    {
        WebImage { id: id.to_owned(), host: host.to_owned() }
    }

    /// The path under which the image's bytes are looked up on disk. The id
    /// is spliced in unchanged.
    pub fn get_raw_path(&self) -> (r: String)
        ensures
            r@ == spec_raw_path(self.id@),
    {
        let mut r = String::from_str("static/images/");
        r.append(self.id.as_str());
        r.append(".jpg");
        proof {
            assert(r@ =~= spec_raw_path(self.id@));
        }
        r
    }

    /// The absolute URL of the image's raw-bytes route.
    pub fn get_raw_url(&self) -> (r: String)
        ensures
            r@ == spec_raw_url(self.host@, self.id@),
    {
        let mut r = String::from_str("http://");
        r.append(self.host.as_str());
        r.append("/images/");
        r.append(self.id.as_str());
        r.append("/raw");
        proof {
            assert(r@ =~= spec_raw_url(self.host@, self.id@));
        }
        r
    }

    /// Renders the image as the detail route's JSON object, field order
    /// fixed: id first, then the raw URL.
    pub fn to_json(&self) -> (r: String)
        ensures
            r@ == spec_image_json(self.id@, self.host@),
    {
        let mut r = String::from_str("{\"id\":\"");
        let escaped_id = json_escape(self.id.as_str());
        r.append(escaped_id.as_str());
        r.append("\",\"raw_url\":\"");
        let url = self.get_raw_url();
        let escaped_url = json_escape(url.as_str());
        r.append(escaped_url.as_str());
        r.append("\"}");
        proof {
            assert(r@ =~= spec_image_json(self.id@, self.host@));
        }
        r
    }
}

/// The ordered list of images the service advertises.
pub struct WebImageList {
    pub images: Vec<WebImage>,
}

/// The elements of the list's JSON array, joined with commas, in list order.
pub open spec fn spec_image_list_items(imgs: Seq<WebImage>) -> Seq<char>
    decreases imgs.len(),
{
    if imgs.len() == 0 {
        Seq::empty()
    } else if imgs.len() == 1 {
        spec_image_json(imgs[0].id@, imgs[0].host@)
    } else {
        spec_image_list_items(imgs.drop_last()) + ","@ + spec_image_json(
            imgs.last().id@,
            imgs.last().host@,
        )
    }
}

/// The JSON body of the list route.
pub open spec fn spec_image_list_json(imgs: Seq<WebImage>) -> Seq<char> {
    "{\"images\":["@ + spec_image_list_items(imgs) + "]}"@
}

impl WebImageList {
    /// An empty list.
    pub fn new() -> (r: WebImageList)
        ensures
            r.images@ =~= Seq::<WebImage>::empty(),
    {
        WebImageList { images: Vec::new() }
    }

    /// Renders the list as the list route's JSON object: the images as a JSON
    /// array under the single key `images`, in list order.
    pub fn to_json(&self) -> (r: String)
        ensures
            r@ == spec_image_list_json(self.images@),
    {
        let mut out = String::from_str("{\"images\":[");
        let mut i: usize = 0;
        while i < self.images.len()
            invariant
                i <= self.images@.len(),
                out@ == "{\"images\":["@ + spec_image_list_items(self.images@.subrange(0, i as int)),
            decreases self.images@.len() - i,
        {
            let ghost done = self.images@.subrange(0, i as int);
            if i > 0 {
                out.append(",");
            }
            let item = self.images[i].to_json();
            out.append(item.as_str());
            i = i + 1;
            proof {
                assert(self.images@.subrange(0, i as int).drop_last() =~= done);
                assert(out@ =~= "{\"images\":["@ + spec_image_list_items(
                    self.images@.subrange(0, i as int),
                ));
            }
        }
        out.append("]}");
        proof {
            assert(self.images@.subrange(0, self.images@.len() as int) =~= self.images@);
            assert(out@ =~= spec_image_list_json(self.images@));
        }
        out
    }
}

/// The ids of the images the list route advertises, in their fixed order.
pub open spec fn spec_example_ids() -> Seq<Seq<char>> {
    seq!["11111"@, "22222"@, "33333"@, "23333"@]
}

/// `GET /images`: the four example images, in their fixed order, each bound
/// to the request's host.
pub fn images(host: HostHeader) -> (r: WebImageList)
    ensures
        r.images@.len() == spec_example_ids().len(),
        forall|i: int|
            0 <= i < r.images@.len() ==> r.images@[i].id@ == spec_example_ids()[i]
                && r.images@[i].host@ == host.0@,
{
    let example_id: Vec<&str> = vec!["11111", "22222", "33333", "23333"];
    let mut image_list: WebImageList = WebImageList::new();
    let mut i: usize = 0;
    while i < example_id.len()
        invariant
            i <= example_id@.len(),
            example_id@.len() == 4,
            example_id@[0]@ == "11111"@,
            example_id@[1]@ == "22222"@,
            example_id@[2]@ == "33333"@,
            example_id@[3]@ == "23333"@,
            image_list.images@.len() == i,
            forall|j: int|
                0 <= j < i ==> image_list.images@[j].id@ == spec_example_ids()[j]
                    && image_list.images@[j].host@ == host.0@,
        decreases example_id@.len() - i,
    {
        image_list.images.push(WebImage::from(example_id[i], host.0));
        i = i + 1;
    }
    image_list
}

/// `GET /images/<id>`: the detail object for an id, built without looking at
/// the disk; it exists for every id string.
pub fn image_detail(id: String, host: HostHeader) -> (r: WebImage)
    ensures
        r.id@ == id@,
        r.host@ == host.0@,
{
    let pic: WebImage = WebImage::from(id.as_str(), host.0);
    pic
}

/// A raw-bytes response: the status code and the body that go back to the
/// client.
pub struct RawResponse {
    pub status: u16,
    pub body: Vec<u8>,
}

/// `GET /images/<id>/raw`, after the disk has been consulted: a successful
/// read is served as-is, and every failure to read collapses into a not-found
/// response with an empty body.
pub fn raw_response(contents: Option<Vec<u8>>) -> (r: RawResponse)
    ensures
        contents is Some ==> r.status == 200 && r.body@ == contents->0@,
        contents is None ==> r.status == 404 && r.body@ == Seq::<u8>::empty(),
{
    match contents {
        Some(bytes) => RawResponse { status: 200, body: bytes },
        None => RawResponse { status: 404, body: Vec::new() },
    }
}

/// The adder's response text.
pub open spec fn spec_adder_text(a: int, b: int) -> Seq<char> {
    spec_i32_string(a) + " + "@ + spec_i32_string(b) + " = "@ + spec_i32_string(a + b)
}

/// `GET /example/adder?a=<a>&b=<b>`, once both parameters are bound:
/// the plain-text sum line.
pub fn example_adder(a: i32, b: i32) -> (r: String)
    requires
        i32::MIN <= a as int + b as int <= i32::MAX,
    ensures
        r@ == spec_adder_text(a as int, b as int),
{
    let mut r = i32_to_string(a);
    r.append(" + ");
    let b_text = i32_to_string(b);
    r.append(b_text.as_str());
    r.append(" = ");
    let sum_text = i32_to_string(a + b);
    r.append(sum_text.as_str());
    proof {
        assert(r@ =~= spec_adder_text(a as int, b as int));
    }
    r
}

/// The adder route as the router sees it: both query parameters must be
/// present and parse as decimal integers, else the request does not match the
/// route.
pub fn adder_route(a: Option<&str>, b: Option<&str>) -> (r: Option<String>)
    requires
        (a is Some && b is Some && spec_parse_i32(a->0@) is Some && spec_parse_i32(b->0@) is Some)
            ==> i32::MIN <= spec_parse_i32(a->0@)->0 + spec_parse_i32(b->0@)->0 <= i32::MAX,
    ensures
        r is Some <==> (a is Some && b is Some && spec_parse_i32(a->0@) is Some && spec_parse_i32(
            b->0@,
        ) is Some),
        r is Some ==> r->0@ == spec_adder_text(spec_parse_i32(a->0@)->0, spec_parse_i32(b->0@)->0),
{
    match (a, b) {
        (Some(a_text), Some(b_text)) => {
            match (parse_i32(a_text), parse_i32(b_text)) {
                (Some(a_val), Some(b_val)) => Some(example_adder(a_val, b_val)),
                _ => None,
            }
        },
        _ => None,
    }
}

} // verus!
