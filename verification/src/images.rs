//! Artwork: where each image of an item is fetched from, when a download
//! is worth keeping, and under which file name it is kept.

use vstd::prelude::*;
use crate::model::ServerInfo;
use crate::request::{api_root, api_root_url, ApiRequest, Method, Param, Payload, Reply};
use crate::text::{decimal, decimal_string, is_digit, lemma_decimal_digits, lemma_decimal_injective};

verus! {

/// Which image of an item.
#[derive(Clone, Copy, Debug, PartialEq, Eq)]
pub enum ImageKind {
    /// The poster.
    Primary,
    /// The wide thumbnail.
    Thumb,
    /// The backdrop with the given index.
    Backdrop(u8),
    /// The logo.
    Logo,
}

/// Downloads smaller than this many bytes are not kept.
pub const MIN_CACHED_IMAGE_BYTES: usize = 10240;

/// The part of the image address after `Images/`, with the largest height
/// asked for (400 pixels, 1200 for backdrops).
pub open spec fn image_path(kind: ImageKind) -> Seq<char> {
    match kind {
        ImageKind::Primary => "Primary?maxHeight=400"@,
        ImageKind::Thumb => "Thumb?maxHeight=400"@,
        ImageKind::Backdrop(tag) => "Backdrop/"@ + decimal(tag as nat) + "?maxHeight=1200"@,
        ImageKind::Logo => "Logo?maxHeight=400"@,
    }
}

/// The address of the image `kind` of the item `id`.
pub open spec fn image_url(s: ServerInfo, kind: ImageKind, id: Seq<char>) -> Seq<char> {
    api_root(s.domain@, s.port@) + "Items/"@ + id + "/Images/"@ + image_path(kind)
}

/// The file name under which the image `kind` of the item `id` is kept.
pub open spec fn image_file_name(kind: ImageKind, id: Seq<char>) -> Seq<char> {
    match kind {
        ImageKind::Primary => id + ".png"@,
        ImageKind::Thumb => "t"@ + id + ".png"@,
        ImageKind::Backdrop(tag) => "b"@ + id + "_"@ + decimal(tag as nat) + ".png"@,
        ImageKind::Logo => "l"@ + id + ".png"@,
    }
}

/// Downloads the image `kind` of the item `id` as raw bytes. Images are
/// public: the call carries no parameters.
pub fn image_request(s: &ServerInfo, kind: ImageKind, id: &str) -> (r: ApiRequest)
    ensures
        r.method == Method::Get,
        r.url@ == image_url(*s, kind, id@),
        r.query@.len() == 0,
        r.headers@.len() == 0,
        r.body is Empty,
        r.reply == Reply::Bytes,
{
    let mut url = api_root_url(s.domain.as_str(), s.port.as_str());
    url.append("Items/");
    url.append(id);
    url.append("/Images/");
    match kind {
        ImageKind::Primary => url.append("Primary?maxHeight=400"),
        ImageKind::Thumb => url.append("Thumb?maxHeight=400"),
        ImageKind::Backdrop(tag) => {
            url.append("Backdrop/");
            let t = decimal_string(tag as u64);
            url.append(t.as_str());
            url.append("?maxHeight=1200");
            assert(url@ =~= image_url(*s, kind, id@));
        },
        ImageKind::Logo => url.append("Logo?maxHeight=400"),
    }
    ApiRequest {
        method: Method::Get,
        url,
        query: Vec::<Param>::new(),
        headers: Vec::<Param>::new(),
        body: Payload::Empty,
        reply: Reply::Bytes,
    }
}

/// The file name for the image `kind` of the item `id`.
pub fn image_file(kind: ImageKind, id: &str) -> (name: String)
    ensures
        name@ == image_file_name(kind, id@),
{
    match kind {
        ImageKind::Primary => {
            let mut n = id.to_owned();
            n.append(".png");
            n
        },
        ImageKind::Thumb => {
            let mut n = "t".to_owned();
            n.append(id);
            n.append(".png");
            n
        },
        ImageKind::Backdrop(tag) => {
            let mut n = "b".to_owned();
            n.append(id);
            n.append("_");
            let t = decimal_string(tag as u64);
            n.append(t.as_str());
            n.append(".png");
            n
        },
        ImageKind::Logo => {
            let mut n = "l".to_owned();
            n.append(id);
            n.append(".png");
            n
        },
    }
}

/// Whether a download of `size` bytes is kept.
pub fn worth_caching(size: usize) -> (keep: bool)
    ensures
        keep == (size >= MIN_CACHED_IMAGE_BYTES),
{
    size >= MIN_CACHED_IMAGE_BYTES
}

/// After the image `kind` of the item `id` came back with `size` bytes:
/// the file name to keep it under, or `None` when it is too small to keep.
pub fn image_cache_file(kind: ImageKind, id: &str, size: usize) -> (name: Option<String>)
    ensures
        size < MIN_CACHED_IMAGE_BYTES ==> name is None,
        size >= MIN_CACHED_IMAGE_BYTES ==> (name matches Some(n) && n@ == image_file_name(kind, id@)),
{
    if worth_caching(size) {
        Some(image_file(kind, id))
    } else {
        None
    }
}

/// Whether two kinds are the same kind of image (any two backdrops count
/// as the same kind).
pub open spec fn same_kind(k1: ImageKind, k2: ImageKind) -> bool {
    match (k1, k2) {
        (ImageKind::Primary, ImageKind::Primary) => true,
        (ImageKind::Thumb, ImageKind::Thumb) => true,
        (ImageKind::Backdrop(_), ImageKind::Backdrop(_)) => true,
        (ImageKind::Logo, ImageKind::Logo) => true,
        _ => false,
    }
}

proof fn lemma_cancel_prefix(x: Seq<char>, y: Seq<char>, z: Seq<char>)
    requires
        x + y == x + z,
    ensures
        y == z,
{
    assert(y =~= (x + y).subrange(x.len() as int, (x + y).len() as int));
    assert(z =~= (x + z).subrange(x.len() as int, (x + z).len() as int));
}

proof fn lemma_cancel_suffix(y: Seq<char>, z: Seq<char>, x: Seq<char>)
    requires
        y + x == z + x,
    ensures
        y == z,
{
    assert((y + x).len() == y.len() + x.len());
    assert((z + x).len() == z.len() + x.len());
    assert(y.len() == z.len());
    assert forall|i: int| 0 <= i < y.len() implies y[i] == z[i] by {
        assert(y[i] == (y + x)[i]);
        assert(z[i] == (z + x)[i]);
    }
    assert(y =~= z);
}

/// The name of a backdrop, split at its last underscore.
proof fn lemma_backdrop_split(id1: Seq<char>, d1: Seq<char>, id2: Seq<char>, d2: Seq<char>)
    requires
        "b"@ + id1 + "_"@ + d1 == "b"@ + id2 + "_"@ + d2,
        forall|i: int| 0 <= i < d1.len() ==> is_digit(#[trigger] d1[i]),
        forall|i: int| 0 <= i < d2.len() ==> is_digit(#[trigger] d2[i]),
    ensures
        id1 == id2,
        d1 == d2,
{
    reveal_strlit("_");
    reveal_strlit("b");
    let p1 = "b"@ + id1 + "_"@;
    let p2 = "b"@ + id2 + "_"@;
    let l = p1 + d1;
    assert(l == p2 + d2);
    if d1.len() < d2.len() {
        let i = l.len() - d1.len() - 1;
        assert(l[i] == p1[p1.len() - 1]);
        assert(p1[p1.len() - 1] == '_');
        assert(l[i] == (p2 + d2)[i]);
        assert((p2 + d2)[i] == d2[i - p2.len()]);
        assert(is_digit(d2[i - p2.len()]));
        assert(false);
    } else if d2.len() < d1.len() {
        let i = l.len() - d2.len() - 1;
        assert((p2 + d2)[i] == p2[p2.len() - 1]);
        assert(p2[p2.len() - 1] == '_');
        assert(l[i] == d1[i - p1.len()]);
        assert(is_digit(d1[i - p1.len()]));
        assert(false);
    }
    assert(p1.len() == p2.len());
    assert(p1 =~= l.subrange(0, p1.len() as int));
    assert(p2 =~= (p2 + d2).subrange(0, p2.len() as int));
    assert(d1 =~= l.subrange(p1.len() as int, l.len() as int));
    assert(d2 =~= (p2 + d2).subrange(p2.len() as int, l.len() as int));
    assert("b"@ + id1 + "_"@ =~= "b"@ + (id1 + "_"@));
    assert("b"@ + id2 + "_"@ =~= "b"@ + (id2 + "_"@));
    lemma_cancel_prefix("b"@, id1 + "_"@, id2 + "_"@);
    lemma_cancel_suffix(id1, id2, "_"@);
}

/// Images of one kind are kept under distinct file names for distinct
/// items, and distinct backdrops under distinct file names: a file name of
/// a kind determines the item and, for backdrops, the backdrop's index.
pub proof fn lemma_image_file_name_injective(k1: ImageKind, id1: Seq<char>, k2: ImageKind, id2: Seq<char>)
    requires
        same_kind(k1, k2),
        image_file_name(k1, id1) == image_file_name(k2, id2),
    ensures
        k1 == k2,
        id1 == id2,
{
    match (k1, k2) {
        (ImageKind::Primary, ImageKind::Primary) => {
            lemma_cancel_suffix(id1, id2, ".png"@);
        },
        (ImageKind::Thumb, ImageKind::Thumb) => {
            lemma_cancel_suffix("t"@ + id1, "t"@ + id2, ".png"@);
            lemma_cancel_prefix("t"@, id1, id2);
        },
        (ImageKind::Logo, ImageKind::Logo) => {
            lemma_cancel_suffix("l"@ + id1, "l"@ + id2, ".png"@);
            lemma_cancel_prefix("l"@, id1, id2);
        },
        (ImageKind::Backdrop(t1), ImageKind::Backdrop(t2)) => {
            let d1 = decimal(t1 as nat);
            let d2 = decimal(t2 as nat);
            lemma_cancel_suffix("b"@ + id1 + "_"@ + d1, "b"@ + id2 + "_"@ + d2, ".png"@);
            lemma_decimal_digits(t1 as nat);
            lemma_decimal_digits(t2 as nat);
            lemma_backdrop_split(id1, d1, id2, d2);
            lemma_decimal_injective(t1 as nat, t2 as nat);
        },
        _ => {},
    }
}

/// Two different images of the same item are never kept under the same
/// file name.
pub proof fn lemma_image_file_names_differ_per_item(k1: ImageKind, k2: ImageKind, id: Seq<char>)
    requires
        k1 != k2,
    ensures
        image_file_name(k1, id) != image_file_name(k2, id),
{
    reveal_strlit(".png");
    reveal_strlit("t");
    reveal_strlit("b");
    reveal_strlit("l");
    reveal_strlit("_");
    if same_kind(k1, k2) {
        if image_file_name(k1, id) == image_file_name(k2, id) {
            lemma_image_file_name_injective(k1, id, k2, id);
        }
    } else {
        let n1 = image_file_name(k1, id);
        let n2 = image_file_name(k2, id);
        match k1 {
            ImageKind::Backdrop(t) => lemma_decimal_digits(t as nat),
            _ => {},
        }
        match k2 {
            ImageKind::Backdrop(t) => lemma_decimal_digits(t as nat),
            _ => {},
        }
        if n1 == n2 {
            match (k1, k2) {
                (ImageKind::Primary, _) => assert(n1.len() != n2.len()),
                (_, ImageKind::Primary) => assert(n1.len() != n2.len()),
                _ => assert(n1[0] != n2[0]),
            }
        }
    }
}

} // verus!
