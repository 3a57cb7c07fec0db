use markdown2html_converter::{data_url, image_mime, local_image_url, path_image_mime, LocalImageUrl};

fn local(path: &str, fragment: Option<&str>) -> Option<LocalImageUrl> {
    Some(LocalImageUrl { path: path.to_string(), fragment: fragment.map(String::from) })
}

#[test]
fn image_types_are_found_by_their_extension() {
    assert_eq!(Some("image/png"), image_mime("png"));
    assert_eq!(Some("image/png"), image_mime("PNG"));
    assert_eq!(Some("image/jpeg"), image_mime("jpg"));
    assert_eq!(Some("image/jpeg"), image_mime("JPEG"));
    assert_eq!(Some("image/gif"), image_mime("gif"));
    assert_eq!(Some("image/svg+xml"), image_mime("svg"));
    assert_eq!(Some("image/webp"), image_mime("webp"));
    assert_eq!(Some("image/avif"), image_mime("avif"));
    assert_eq!(Some("image/bmp"), image_mime("bmp"));
    assert_eq!(Some("image/x-icon"), image_mime("ico"));
    assert_eq!(None, image_mime("txt"));
    assert_eq!(None, image_mime(""));
}

#[test]
fn only_relative_urls_refer_to_local_images() {
    assert_eq!(local("pic.png", None), local_image_url("pic.png"));
    assert_eq!(local("sub/../pic.png", None), local_image_url("sub/../pic.png"));
    assert_eq!(None, local_image_url(""));
    assert_eq!(None, local_image_url("#anchor"));
    assert_eq!(None, local_image_url("/pictures/pic.png"));
    assert_eq!(None, local_image_url("\\pictures\\pic.png"));
    assert_eq!(None, local_image_url("//magiclen.org/pic.png"));
    assert_eq!(None, local_image_url("https://magiclen.org/pic.png"));
    assert_eq!(None, local_image_url("data:image/png;base64,AAAA"));
}

#[test]
fn the_query_is_dropped_and_the_fragment_is_kept() {
    assert_eq!(local("pic.svg", Some("icon")), local_image_url("pic.svg?rev=1#icon"));
    assert_eq!(local("pic.svg", None), local_image_url("pic.svg?rev=1"));
    assert_eq!(local("pic.svg", Some("a?b")), local_image_url("pic.svg#a?b"));
    assert_eq!(local("圖.png", None), local_image_url("%E5%9C%96.png"));
    assert_eq!(local("a b.png", Some("x")), local_image_url("a%20b.png#x"));
    // A drive letter is no scheme, but the path is absolute.
    assert_eq!(None, local_image_url("C:/images/pic.png"));
    assert_eq!(None, local_image_url("C:%5Cimages%5Cpic.png"));
    assert_eq!(None, local_image_url("%2Fimages/pic.png"));
    assert_eq!(None, local_image_url("%5Cimages/pic.png"));
    assert_eq!(local("C:pic.png", None), local_image_url("C:pic.png"));
}

#[test]
fn an_image_becomes_a_data_url() {
    assert_eq!("data:image/png;base64,YW4gaW1hZ2U=", data_url("image/png", b"an image", None));
    assert_eq!(
        "data:image/svg+xml;base64,YW4gaW1hZ2U=#icon",
        data_url("image/svg+xml", b"an image", Some("icon"))
    );
    assert_eq!("data:image/gif;base64,", data_url("image/gif", b"", None));
    assert_eq!("data:image/gif;base64,YQ==", data_url("image/gif", b"a", None));
    assert_eq!("data:image/gif;base64,YWI=", data_url("image/gif", b"ab", None));
    assert_eq!("data:image/gif;base64,+/8=", data_url("image/gif", &[0xfb, 0xff], None));
}

#[test]
fn the_image_type_follows_the_extension_of_the_file_name() {
    assert_eq!(Some("image/png"), path_image_mime("pic.png"));
    assert_eq!(Some("image/jpeg"), path_image_mime("sub/../a.b/pic.JPG"));
    assert_eq!(Some("image/svg+xml"), path_image_mime("sub\\pic.svg"));
    assert_eq!(None, path_image_mime("a.png/pic"));
    assert_eq!(None, path_image_mime(".png"));
    assert_eq!(None, path_image_mime("pic."));
    assert_eq!(None, path_image_mime("pic"));
    assert_eq!(None, path_image_mime(""));
}
