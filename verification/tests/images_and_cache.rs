use tsukimi::cache::{cache_dir, latest_cache_file, views_cache_file};
use tsukimi::images::{image_cache_file, image_file, image_request, worth_caching, ImageKind, MIN_CACHED_IMAGE_BYTES};
use tsukimi::model::ServerInfo;
use tsukimi::request::{Method, Payload, Reply};

fn server() -> ServerInfo {
    ServerInfo {
        domain: "http://media.example".to_string(),
        port: "8096".to_string(),
        user_id: "u42".to_string(),
        access_token: "tok".to_string(),
    }
}

#[test]
fn primary_image_request() {
    let r = image_request(&server(), ImageKind::Primary, "abc");
    assert_eq!(r.method, Method::Get);
    assert_eq!(r.url, "http://media.example:8096/emby/Items/abc/Images/Primary?maxHeight=400");
    assert!(r.query.is_empty());
    assert!(r.headers.is_empty());
    assert!(matches!(r.body, Payload::Empty));
    assert_eq!(r.reply, Reply::Bytes);
}

#[test]
fn other_image_requests() {
    let s = server();
    assert_eq!(
        image_request(&s, ImageKind::Thumb, "abc").url,
        "http://media.example:8096/emby/Items/abc/Images/Thumb?maxHeight=400"
    );
    assert_eq!(
        image_request(&s, ImageKind::Logo, "abc").url,
        "http://media.example:8096/emby/Items/abc/Images/Logo?maxHeight=400"
    );
    assert_eq!(
        image_request(&s, ImageKind::Backdrop(3), "abc").url,
        "http://media.example:8096/emby/Items/abc/Images/Backdrop/3?maxHeight=1200"
    );
    assert_eq!(
        image_request(&s, ImageKind::Backdrop(255), "abc").url,
        "http://media.example:8096/emby/Items/abc/Images/Backdrop/255?maxHeight=1200"
    );
}

#[test]
fn image_file_names() {
    assert_eq!(image_file(ImageKind::Primary, "abc"), "abc.png");
    assert_eq!(image_file(ImageKind::Thumb, "abc"), "tabc.png");
    assert_eq!(image_file(ImageKind::Backdrop(0), "abc"), "babc_0.png");
    assert_eq!(image_file(ImageKind::Backdrop(12), "abc"), "babc_12.png");
    assert_eq!(image_file(ImageKind::Logo, "abc"), "labc.png");
}

#[test]
fn small_downloads_are_not_kept() {
    assert_eq!(MIN_CACHED_IMAGE_BYTES, 10240);
    assert!(!worth_caching(0));
    assert!(!worth_caching(10239));
    assert!(worth_caching(10240));
    assert!(worth_caching(1 << 20));
    assert_eq!(image_cache_file(ImageKind::Primary, "abc", 10239), None);
    assert_eq!(image_cache_file(ImageKind::Primary, "abc", 10240), Some("abc.png".to_string()));
    assert_eq!(image_cache_file(ImageKind::Backdrop(1), "x", 50000), Some("bx_1.png".to_string()));
}

#[test]
fn images_of_one_item_have_distinct_names() {
    let kinds = [
        ImageKind::Primary,
        ImageKind::Thumb,
        ImageKind::Logo,
        ImageKind::Backdrop(0),
        ImageKind::Backdrop(1),
        ImageKind::Backdrop(10),
        ImageKind::Backdrop(255),
    ];
    for (i, a) in kinds.iter().enumerate() {
        for b in kinds.iter().skip(i + 1) {
            assert_ne!(image_file(*a, "item"), image_file(*b, "item"));
        }
    }
}

#[test]
fn backdrop_names_determine_item_and_index() {
    // An underscore in an id does not make two backdrops collide.
    assert_ne!(image_file(ImageKind::Backdrop(12), "a"), image_file(ImageKind::Backdrop(2), "a_1"));
    assert_ne!(image_file(ImageKind::Backdrop(1), "a_1"), image_file(ImageKind::Backdrop(11), "a"));
    assert_ne!(image_file(ImageKind::Primary, "a"), image_file(ImageKind::Primary, "b"));
}

#[test]
fn images_of_different_kinds_and_items_may_share_a_name() {
    // The poster of item "t1" and the thumbnail of item "1".
    assert_eq!(image_file(ImageKind::Primary, "t1"), image_file(ImageKind::Thumb, "1"));
}

#[test]
fn cache_locations() {
    assert_eq!(cache_dir("/home/me", "myserver"), "/home/me/.local/share/tsukimi/myserver");
    assert_eq!(views_cache_file(), "views.json");
    assert_eq!(latest_cache_file("lib7"), "latest_lib7.json");
    assert_ne!(latest_cache_file("a"), latest_cache_file("b"));
}
