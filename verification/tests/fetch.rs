use google_image_dl::{
    check_status, file_extension, file_name, fresh_file_name, is_success, FetchError,
};

#[test]
fn success_is_the_two_hundreds() {
    assert!(!is_success(199));
    assert!(is_success(200));
    assert!(is_success(204));
    assert!(is_success(299));
    assert!(!is_success(300));
    assert!(!is_success(404));
    assert!(!is_success(500));
    assert!(!is_success(0));
    assert!(!is_success(u16::MAX));
}

#[test]
fn status_outside_the_success_class_is_an_error() {
    assert_eq!(check_status(200), Ok(()));
    assert_eq!(check_status(404), Err(FetchError::Status { code: 404 }));
    assert_eq!(check_status(301), Err(FetchError::Status { code: 301 }));
    assert_eq!(check_status(503), Err(FetchError::Status { code: 503 }));
}

#[test]
fn fetch_errors_are_told_apart() {
    assert_ne!(FetchError::Transport, FetchError::Filesystem);
    assert_ne!(FetchError::Transport, FetchError::Status { code: 500 });
    assert_ne!(FetchError::Status { code: 403 }, FetchError::Status { code: 404 });
}

#[test]
fn extension_follows_the_last_dot() {
    assert_eq!(
        file_extension(
            "https://i.natgeofe.com/k/dfc55ac8-a221-4390-b440-72ebfe2bfc39/hedgehog-staring_2x3.jpg"
        ),
        "jpg"
    );
    assert_eq!(
        file_extension("https://louisvillezoo.org/wp-content/uploads/2014/12/hedheog.png"),
        "png"
    );
    assert_eq!(
        file_extension("https://www.southwiltonvet.com/files/HedgehogSouthWiltonVet.jpeg"),
        "jpeg"
    );
    assert_eq!(file_extension("archive.tar.gz"), "gz");
}

#[test]
fn extension_keeps_its_case() {
    assert_eq!(
        file_extension("https://upload.wikimedia.org/wikipedia/commons/7/72/Igel.JPG"),
        "JPG"
    );
}

#[test]
fn extension_drops_the_query_string() {
    assert_eq!(
        file_extension(
            "https://i0.wp.com/www.sciencenews.org/wp-content/uploads/2023/12/120723_mt_hedgehog_feat.jpg?fit=1030%2C580&ssl=1"
        ),
        "jpg"
    );
    assert_eq!(
        file_extension(
            "https://images.ctfassets.net/rt5zmd3ipxai/4Z1RIc1p8375Fb1JPvVhcg/f39b175c5b030bd6e2df81fa1b9fb0de/ServiceCards-Hedgehog.png?fit=fill&fm=webp&h=578&w=1070&q=72,%20https://images.ctfassets.net/rt5zmd3ipxai/4Z1RIc1p8375Fb1JPvVhcg/f39b175c5b030bd6e2df81fa1b9fb0de/ServiceCards-Hedgehog.png?fit=fill&fm=webp&h=1156&w=2140&q=72"
        ),
        "png"
    );
    assert_eq!(file_extension("a.png?x=1?y=2"), "png");
}

#[test]
fn extension_is_cut_at_the_first_question_mark_behind_the_last_dot() {
    assert_eq!(file_extension("a.png?v=1.2"), "2");
    assert_eq!(file_extension("a?b.c"), "c");
}

#[test]
fn extension_defaults_without_a_dot() {
    assert_eq!(file_extension("localhost/image"), "jpg");
    assert_eq!(file_extension("image?size=large"), "jpg");
    assert_eq!(file_extension(""), "jpg");
}

#[test]
fn extension_defaults_when_nothing_is_left() {
    assert_eq!(file_extension("https://example.com/image."), "jpg");
    assert_eq!(file_extension("https://example.com/image.?raw=1"), "jpg");
    assert_eq!(file_extension("."), "jpg");
}

#[test]
fn extension_is_read_from_the_trailing_segment_only() {
    assert_eq!(file_extension("https://example.com/image"), "jpg");
    assert_eq!(file_extension("https://example.com/photo"), "jpg");
    assert_eq!(file_extension("https://example.com/v1.2/photo"), "jpg");
    assert_eq!(file_extension("https://example.com/v1.2/photo.webp"), "webp");
    assert_eq!(file_extension("https://example.com/"), "jpg");
    assert_eq!(file_extension("a.b/"), "jpg");
    assert_eq!(file_extension("a.b/c?d.e"), "e");
}

#[test]
fn slash_in_the_query_string_ends_the_segment_before_it() {
    assert_eq!(file_extension("https://example.com/a.png?next=b/c"), "jpg");
    assert_eq!(file_extension("https://example.com/a.png?next=b/c.gif"), "gif");
}

#[test]
fn extension_is_whatever_follows_the_last_dot_of_the_segment() {
    assert_eq!(file_extension("a.b c"), "b c");
    assert_eq!(file_extension("x.é"), "é");
    assert_eq!(file_extension("dir/x.tar.gz"), "gz");
}

#[test]
fn extension_is_never_empty_and_names_no_directory() {
    let urls = [
        "https://example.com/photo",
        "https://example.com/a.b/c",
        "https://example.com/a.png?u=/x/y.z",
        "../../etc/passwd",
        "a./b",
        "a.?/",
        "/",
        ".",
        "?",
        "",
        "https://upload.wikimedia.org/wikipedia/commons/6/66/Hemiechinus_auritus%3B_Baikonur_09.jpg",
    ];
    for url in urls {
        let ext = file_extension(url);
        assert!(!ext.is_empty());
        assert!(!ext.contains('/'));
        assert!(!ext.contains('.'));
        assert!(!ext.contains('?'));
    }
}

#[test]
fn name_for_a_url_without_extension_ends_in_the_default() {
    assert_eq!(
        file_name("936da01f-9abd-4d9d-80c7-02af85c822a8", "https://example.com/photo"),
        "936da01f-9abd-4d9d-80c7-02af85c822a8.jpg"
    );
    let fresh = fresh_file_name("https://example.com/photo");
    assert_eq!(fresh.len(), 40);
    assert!(fresh.ends_with(".jpg"));
    assert!(!fresh.contains('/'));
}

#[test]
fn file_name_joins_identifier_and_extension() {
    assert_eq!(
        file_name(
            "936da01f-9abd-4d9d-80c7-02af85c822a8",
            "https://upload.wikimedia.org/wikipedia/commons/7/72/Igel.JPG"
        ),
        "936da01f-9abd-4d9d-80c7-02af85c822a8.JPG"
    );
    assert_eq!(file_name("id", "no-extension"), "id.jpg");
    assert_eq!(file_name("id", "a.png?x=1"), "id.png");
}

#[test]
fn fresh_name_has_the_shape_of_a_random_uuid() {
    let name = fresh_file_name("https://example.org/pictures/hedgehog.webp");
    let chars: Vec<char> = name.chars().collect();
    assert_eq!(chars.len(), 36 + 5);
    for (i, c) in chars.iter().take(36).enumerate() {
        if i == 8 || i == 13 || i == 18 || i == 23 {
            assert_eq!(*c, '-');
        } else {
            assert!(matches!(*c, '0'..='9' | 'a'..='f'));
        }
    }
    assert_eq!(chars[14], '4');
    assert!(matches!(chars[19], '8' | '9' | 'a' | 'b'));
    assert_eq!(&name[36..], ".webp");
}

#[test]
fn fresh_name_ends_in_the_extension_of_the_url() {
    assert!(fresh_file_name("a/b/c.gif?x=1").ends_with(".gif"));
    assert!(fresh_file_name("no-extension").ends_with(".jpg"));
    assert_eq!(fresh_file_name("no-extension").len(), 40);
}

#[test]
fn fresh_names_for_one_url_differ() {
    let url = "https://example.org/pictures/hedgehog.jpg";
    let first = fresh_file_name(url);
    let second = fresh_file_name(url);
    let third = fresh_file_name(url);
    assert_ne!(first, second);
    assert_ne!(first, third);
    assert_ne!(second, third);
}

#[test]
fn names_with_different_identifiers_differ() {
    let url = "https://example.org/pictures/hedgehog.jpg";
    assert_ne!(
        file_name("936da01f-9abd-4d9d-80c7-02af85c822a8", url),
        file_name("936da01f-9abd-4d9d-80c7-02af85c822a9", url)
    );
}
