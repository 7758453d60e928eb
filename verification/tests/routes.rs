use image_server::web::HostHeader;
use image_server::web::WebImage;
use image_server::web::WebImageList;
use image_server::web::adder_route;
use image_server::web::example_adder;
use image_server::web::image_detail;
use image_server::web::images;
use image_server::web::index;
use image_server::web::raw_response;

#[test]
fn index_redirects_to_images() {
    let r = index();
    assert_eq!(r.location, "/images");
}

#[test]
fn host_header_present_matches() {
    let r = HostHeader::from_request(Some("example.com"));
    match r {
        Some(h) => assert_eq!(h.0, "example.com"),
        None => panic!("route must match when the Host header is present"),
    }
}

#[test]
fn host_header_absent_forwards() {
    let r = HostHeader::from_request(None);
    assert!(r.is_none());
}

#[test]
fn images_lists_four_in_fixed_order() {
    let list = images(HostHeader("example.com"));
    let ids: Vec<&str> = list.images.iter().map(|i| i.id.as_str()).collect();
    assert_eq!(ids, vec!["11111", "22222", "33333", "23333"]);
    for img in &list.images {
        assert_eq!(img.host, "example.com");
        assert_eq!(
            img.get_raw_url(),
            format!("http://example.com/images/{}/raw", img.id)
        );
    }
}

#[test]
fn images_list_json_body() {
    let list = images(HostHeader("example.com"));
    let expected = "{\"images\":[\
        {\"id\":\"11111\",\"raw_url\":\"http://example.com/images/11111/raw\"},\
        {\"id\":\"22222\",\"raw_url\":\"http://example.com/images/22222/raw\"},\
        {\"id\":\"33333\",\"raw_url\":\"http://example.com/images/33333/raw\"},\
        {\"id\":\"23333\",\"raw_url\":\"http://example.com/images/23333/raw\"}\
        ]}";
    assert_eq!(list.to_json(), expected);
}

#[test]
fn empty_list_json_body() {
    let list = WebImageList::new();
    assert_eq!(list.to_json(), "{\"images\":[]}");
}

#[test]
fn detail_is_pure_formatting() {
    let img = image_detail(String::from("abc"), HostHeader("h"));
    assert_eq!(img.id, "abc");
    assert_eq!(img.host, "h");
    assert_eq!(
        img.to_json(),
        "{\"id\":\"abc\",\"raw_url\":\"http://h/images/abc/raw\"}"
    );
}

#[test]
fn raw_path_splices_id_unchanged() {
    let img = WebImage::from("abc", "h");
    assert_eq!(img.get_raw_path(), "static/images/abc.jpg");
    let traversal = WebImage::from("../../etc/passwd", "h");
    assert_eq!(traversal.get_raw_path(), "static/images/../../etc/passwd.jpg");
}

#[test]
fn raw_url_for_empty_id() {
    let img = WebImage::from("", "example.com");
    assert_eq!(img.get_raw_url(), "http://example.com/images//raw");
    assert_eq!(img.get_raw_path(), "static/images/.jpg");
}

#[test]
fn missing_file_is_404_with_empty_body() {
    let r = raw_response(None);
    assert_eq!(r.status, 404);
    assert!(r.body.is_empty());
}

#[test]
fn present_file_is_200_with_exact_bytes() {
    let bytes = vec![0xffu8, 0xd8, 0xff, 0xe0, 0x00];
    let r = raw_response(Some(bytes.clone()));
    assert_eq!(r.status, 200);
    assert_eq!(r.body, bytes);
}

#[test]
fn adder_formats_the_sum() {
    assert_eq!(example_adder(2, 3), "2 + 3 = 5");
    assert_eq!(example_adder(-7, 7), "-7 + 7 = 0");
    assert_eq!(example_adder(0, 0), "0 + 0 = 0");
    assert_eq!(example_adder(2147483646, 1), "2147483646 + 1 = 2147483647");
    assert_eq!(
        example_adder(-2147483647, -1),
        "-2147483647 + -1 = -2147483648"
    );
}

#[test]
fn adder_route_matches_on_two_integers() {
    let r = adder_route(Some("2"), Some("3"));
    assert_eq!(r, Some(String::from("2 + 3 = 5")));
}

#[test]
fn adder_route_rejects_bad_or_missing_params() {
    assert_eq!(adder_route(Some("foo"), Some("3")), None);
    assert_eq!(adder_route(Some("2"), Some("")), None);
    assert_eq!(adder_route(None, Some("3")), None);
    assert_eq!(adder_route(Some("2"), None), None);
    assert_eq!(adder_route(None, None), None);
}
