//! Copying an image into the CDN: the checks, the signed upload, and where the
//! image is then served.
use vstd::prelude::*;
use sha1::{Digest, Sha1};
use crate::cache::strings_view;
use crate::error::AppError;
use crate::model::cdn::Payload;
use crate::validation::is_url;
use vstd::string::StringSliceAdditionalSpecFns;
use crate::text::{lowercase, push_char, str_ends_with, str_starts_with, str_to_lowercase};

verus! {

/// Whether the path names an image: its lowercase form ends with one of the
/// image extensions.
pub open spec fn is_image_path(path: Seq<char>, extensions: Seq<Seq<char>>) -> bool {
    exists|i: int| 0 <= i < extensions.len() && #[trigger] extensions[i].is_suffix_of(lowercase(path))
}

/// The checks, in order: the fields must be valid, the password must be the
/// administrator's, and the path must name an image.
pub fn check_request(payload: &Payload, admin_password: &str, extensions: &Vec<String>) -> (r:
    Result<(), AppError>)
    ensures
        payload.issues().len() > 0 ==> (r matches Err(AppError::Validation(e)) && e@
            == payload.issues()),
        payload.issues().len() == 0 && payload.password@ != admin_password@ ==> (r matches Err(AppError::Unauthorized { user_message, internal_message, source })
            && user_message@ == "password is incorrect"@ && internal_message is None
            && source is None),
        payload.issues().len() == 0 && payload.password@ == admin_password@ && !is_image_path(
            payload.path@,
            strings_view(extensions@),
        ) ==> (r matches Err(AppError::BadRequest { user_message, internal_message, source })
            && user_message@ == "only image files are allowed"@ && internal_message is None
            && source is None),
        payload.issues().len() == 0 && payload.password@ == admin_password@ && is_image_path(
            payload.path@,
            strings_view(extensions@),
        ) ==> r is Ok,
        forall|i: int|
            0 <= i < extensions@.len() && payload.path@.len() >= 1 && is_url(payload.url@)
                && payload.password@.len() >= 1 && payload.password@ == admin_password@ && #[trigger] extensions@[i]@.is_suffix_of(
                lowercase(payload.path@),
            ) ==> r is Ok,
        r is Ok ==> payload.path@.len() >= 1 && payload.password@.len() >= 1 && is_url(
            payload.url@,
        ) && payload.password@ == admin_password@ && exists|i: int|
            0 <= i < extensions@.len() && #[trigger] extensions@[i]@.is_suffix_of(
                lowercase(payload.path@),
            ),
{
    match payload.validate() {
        Err(e) => {
            return Err(AppError::Validation(e));
        },
        Ok(()) => {},
    }
    let expected = String::from_str(admin_password);
    if payload.password != expected {
        return Err(AppError::unauthorized("password is incorrect"));
    }
    let lower = str_to_lowercase(payload.path.as_str());
    let n = extensions.len();
    for i in 0..n
        invariant
            n == extensions.len(),
            lower@ == lowercase(payload.path@),
            payload.issues().len() == 0,
            payload.password@ == admin_password@,
            forall|j: int| 0 <= j < i ==> !(#[trigger] strings_view(extensions@)[j]).is_suffix_of(
                lower@,
            ),
    {
        if str_ends_with(lower.as_str(), extensions[i].as_str()) {
            assert(strings_view(extensions@)[i as int].is_suffix_of(lowercase(payload.path@)));
            assert(extensions@[i as int]@.is_suffix_of(lowercase(payload.path@)));
            return Ok(());
        }
    }
    assert forall|i: int| 0 <= i < extensions@.len() implies !(#[trigger] extensions@[i]@).is_suffix_of(
        lowercase(payload.path@),
    ) by {
        assert(strings_view(extensions@)[i] == extensions@[i]@);
    }
    Err(AppError::bad_request("only image files are allowed"))
}

/// The position of the last `c` in `s`, if any.
pub open spec fn last_index_of(s: Seq<char>, c: char) -> Option<nat>
    decreases s.len(),
{
    if s.len() == 0 {
        None
    } else if s.last() == c {
        Some((s.len() - 1) as nat)
    } else {
        last_index_of(s.drop_last(), c)
    }
}

/// The path without its extension: everything before the last `.`, or the whole
/// path when it has none.
pub open spec fn without_extension(path: Seq<char>) -> Seq<char> {
    match last_index_of(path, '.') {
        Some(i) => path.take(i as int),
        None => path,
    }
}

proof fn lemma_last_index_bound(s: Seq<char>, c: char)
    ensures
        last_index_of(s, c) matches Some(i) ==> i < s.len(),
    decreases s.len(),
{
    if s.len() > 0 {
        lemma_last_index_bound(s.drop_last(), c);
    }
}

/// The path without its extension is the path itself when it has no `.`, and
/// otherwise the part before its last `.`: a proper prefix followed by a `.`,
/// with no `.` after that one.
pub proof fn lemma_without_extension(path: Seq<char>)
    ensures
        !path.contains('.') ==> without_extension(path) == path,
        path.contains('.') ==> {
            &&& without_extension(path).len() < path.len()
            &&& without_extension(path) == path.take(without_extension(path).len() as int)
            &&& path[without_extension(path).len() as int] == '.'
            &&& forall|j: int| without_extension(path).len() < j < path.len() ==> path[j] != '.'
        },
    decreases path.len(),
{
    if !path.contains('.') {
        lemma_no_dot(path);
    } else {
        assert(path.len() > 0);
        if path.last() == '.' {
            assert(without_extension(path) == path.take(path.len() - 1));
        } else {
            let d = path.drop_last();
            let k = choose|k: int| 0 <= k < path.len() && path[k] == '.';
            assert(k != path.len() - 1);
            assert(d[k] == '.');
            assert(d.contains('.'));
            lemma_without_extension(d);
            lemma_last_index_bound(d, '.');
            let w = without_extension(d);
            assert(last_index_of(path, '.') == last_index_of(d, '.'));
            assert(last_index_of(d, '.') is Some) by {
                if last_index_of(d, '.') is None {
                    assert(without_extension(d) == d);
                }
            }
            let i = last_index_of(d, '.')->0;
            assert(w == d.take(i as int));
            assert(without_extension(path) == path.take(i as int));
            assert(path.take(i as int) =~= d.take(i as int));
            assert(path[i as int] == d[i as int]);
            assert forall|j: int| i < j < path.len() implies path[j] != '.' by {
                if j < path.len() - 1 {
                    assert(path[j] == d[j]);
                }
            }
        }
    }
}

proof fn lemma_no_dot(path: Seq<char>)
    requires
        !path.contains('.'),
    ensures
        last_index_of(path, '.') is None,
    decreases path.len(),
{
    if path.len() > 0 {
        assert(path.last() != '.') by {
            if path.last() == '.' {
                assert(path[path.len() - 1] == '.');
            }
        }
        assert forall|k: int| 0 <= k < path.drop_last().len() implies path.drop_last()[k] != '.' by {
            assert(path[k] == path.drop_last()[k]);
        }
        lemma_no_dot(path.drop_last());
    }
}

/// The name the image gets in the CDN.
pub fn public_id(path: &str) -> (id: String)
    ensures
        id@ == without_extension(path@),
        !path@.contains('.') ==> id@ == path@,
        path@.contains('.') ==> {
            &&& id@.len() < path@.len()
            &&& id@ == path@.take(id@.len() as int)
            &&& path@[id@.len() as int] == '.'
            &&& forall|j: int| id@.len() < j < path@.len() ==> path@[j] != '.'
        },
{
    proof {
        lemma_without_extension(path@);
    }
    let _len = path.unicode_len();
    let mut last: Option<usize> = None;
    let mut count: usize = 0;
    for c in it: path.chars()
        invariant
            it.seq() == path@,
            count == it.index(),
            last == match last_index_of(path@.take(it.index() as int), '.') {
                Some(i) => Some(i as usize),
                None => None,
            },
            path@.len() <= usize::MAX,
    {
        proof {
            assert(path@.take(it.index() + 1).drop_last() =~= path@.take(it.index() as int));
        }
        if c == '.' {
            last = Some(count);
        }
        count = count + 1;
    }
    assert(path@.take(path@.len() as int) =~= path@);
    proof {
        lemma_last_index_bound(path@, '.');
    }
    match last {
        None => String::from_str(path),
        Some(end) => {
            let mut id = String::new();
            let mut k: usize = 0;
            for c in it: path.chars()
                invariant
                    it.seq() == path@,
                    k == it.index(),
                    end < path@.len(),
                    path@.len() <= usize::MAX,
                    id@ == path@.take(
                        if it.index() < end {
                            it.index() as int
                        } else {
                            end as int
                        },
                    ),
            {
                if k < end {
                    push_char(&mut id, c);
                    assert(path@.take(it.index() + 1) =~= path@.take(it.index() as int).push(c));
                }
                k = k + 1;
            }
            id
        },
    }
}

/// What is signed: the upload parameters in key order, `public_id`, `timestamp`
/// and `use_filename`, joined as a query string, followed by the API secret.
pub open spec fn signature_payload_spec(
    public_id: Seq<char>,
    timestamp: Seq<char>,
    api_secret: Seq<char>,
) -> Seq<char> {
    "public_id="@ + public_id + "&timestamp="@ + timestamp + "&use_filename=true"@ + api_secret
}

pub fn signature_payload(public_id: &str, timestamp: &str, api_secret: &str) -> (s: String)
    ensures
        s@ == signature_payload_spec(public_id@, timestamp@, api_secret@),
        s@ == "public_id="@ + public_id@ + "&timestamp="@ + timestamp@ + "&use_filename=true"@
            + api_secret@,
{
    let mut s = String::from_str("public_id=");
    s.append(public_id);
    s.append("&timestamp=");
    s.append(timestamp);
    s.append("&use_filename=true");
    s.append(api_secret);
    s
}

/// The SHA-1 digest of some bytes.
pub uninterp spec fn sha1_of(data: Seq<u8>) -> Seq<u8>;

/// `Sha1::digest` from the sha1 crate; a SHA-1 digest is twenty bytes.
#[verifier::external_body]
fn sha1_digest(data: &[u8]) -> (d: Vec<u8>)
    ensures
        d@ == sha1_of(data@),
        d@.len() == 20,
{
    Sha1::digest(data).to_vec()
}

/// The lowercase hex digit of a value below sixteen.
pub open spec fn hex_digit(v: u8) -> char {
    if v < 10 {
        ((v + 48) as u8) as char
    } else {
        ((v + 87) as u8) as char
    }
}

/// Bytes written as lowercase hex, two digits a byte, high digit first.
pub open spec fn hex_lower(data: Seq<u8>) -> Seq<char>
    decreases data.len(),
{
    if data.len() == 0 {
        Seq::empty()
    } else {
        hex_lower(data.drop_last()) + seq![hex_digit(data.last() / 16), hex_digit(data.last() % 16)]
    }
}

/// Lowercase hex: every byte gives two digits, its high half first, each digit
/// `0`-`9` for values below ten and `a`-`f` above.
pub proof fn lemma_hex_lower(data: Seq<u8>)
    ensures
        hex_lower(data).len() == 2 * data.len(),
        forall|k: int|
            #![trigger data[k]]
            0 <= k < data.len() ==> hex_lower(data)[2 * k] == hex_digit(data[k] / 16)
                && hex_lower(data)[2 * k + 1] == hex_digit(data[k] % 16),
        forall|v: u8|
            v < 16 ==> (#[trigger] hex_digit(v)) as int == (if v < 10 {
                '0' as int + v
            } else {
                'a' as int + v - 10
            }),
    decreases data.len(),
{
    if data.len() > 0 {
        lemma_hex_lower(data.drop_last());
        let prev = hex_lower(data.drop_last());
        assert forall|k: int|
            #![trigger data[k]]
            0 <= k < data.len() implies hex_lower(data)[2 * k] == hex_digit(data[k] / 16)
                && hex_lower(data)[2 * k + 1] == hex_digit(data[k] % 16) by {
            let tail = seq![hex_digit(data.last() / 16), hex_digit(data.last() % 16)];
            assert(hex_lower(data) == prev + tail);
            if k < data.len() - 1 {
                assert(data.drop_last()[k] == data[k]);
                assert(prev[2 * k] == hex_digit(data.drop_last()[k] / 16));
                assert(prev[2 * k + 1] == hex_digit(data.drop_last()[k] % 16));
                assert(hex_lower(data)[2 * k] == prev[2 * k]);
                assert(hex_lower(data)[2 * k + 1] == prev[2 * k + 1]);
            } else {
                assert(k == data.len() - 1);
                assert(prev.len() == 2 * k);
                assert(hex_lower(data)[2 * k] == tail[0]);
                assert(hex_lower(data)[2 * k + 1] == tail[1]);
            }
        }
    }
}

/// `hex::encode`: the crate writes each byte as two lowercase hex digits.
#[verifier::external_body]
fn hex_encode(data: &[u8]) -> (s: String)
    ensures
        s@ == hex_lower(data@),
{
    hex::encode(data)
}

/// The signature of an upload: the SHA-1 of the payload's UTF-8 bytes, in hex.
pub fn sign(payload: &str) -> (sig: String)
    ensures
        sig@ == hex_lower(sha1_of(payload.spec_bytes())),
        sig@.len() == 40,
{
    let digest = sha1_digest(payload.as_bytes());
    let sig = hex_encode(digest.as_slice());
    proof {
        lemma_hex_len(digest@);
    }
    sig
}

proof fn lemma_hex_len(data: Seq<u8>)
    ensures
        hex_lower(data).len() == 2 * data.len(),
    decreases data.len(),
{
    if data.len() > 0 {
        lemma_hex_len(data.drop_last());
    }
}

/// The fields of the upload form, in order: the image's URL, the timestamp, the
/// API key, the public id, `use_filename`, and the signature.
pub fn upload_form(
    file_url: String,
    timestamp: String,
    api_key: String,
    public_id: String,
    signature: String,
) -> (form: Vec<(&'static str, String)>)
    ensures
        form@.len() == 6,
        form@[0].0@ == "file"@ && form@[0].1 == file_url,
        form@[1].0@ == "timestamp"@ && form@[1].1 == timestamp,
        form@[2].0@ == "api_key"@ && form@[2].1 == api_key,
        form@[3].0@ == "public_id"@ && form@[3].1 == public_id,
        form@[4].0@ == "use_filename"@ && form@[4].1@ == "true"@,
        form@[5].0@ == "signature"@ && form@[5].1 == signature,
{
    let mut form: Vec<(&'static str, String)> = Vec::new();
    form.push(("file", file_url));
    form.push(("timestamp", timestamp));
    form.push(("api_key", api_key));
    form.push(("public_id", public_id));
    form.push(("use_filename", String::from_str("true")));
    form.push(("signature", signature));
    form
}

/// Where images of a cloud are uploaded.
pub fn upload_endpoint(cloud_name: &str) -> (u: String)
    ensures
        u@ == "https://api.cloudinary.com/v1_1/"@ + cloud_name@ + "/image/upload"@,
{
    let mut u = String::from_str("https://api.cloudinary.com/v1_1/");
    u.append(cloud_name);
    u.append("/image/upload");
    u
}

/// Where an uploaded image is served, in an automatic format and quality: the
/// path is taken without the `/` it may start with.
pub open spec fn delivery_url_spec(cloud_name: Seq<char>, path: Seq<char>) -> Seq<char> {
    let p = if "/"@.is_prefix_of(path) {
        path.drop_first()
    } else {
        path
    };
    "https://res.cloudinary.com/"@ + cloud_name + "/image/upload/f_auto,q_auto/v1/"@ + p
}

pub fn delivery_url(cloud_name: &str, path: &str) -> (u: String)
    ensures
        u@ == delivery_url_spec(cloud_name@, path@),
        path@.len() > 0 && path@[0] == '/' ==> u@ == "https://res.cloudinary.com/"@ + cloud_name@
            + "/image/upload/f_auto,q_auto/v1/"@ + path@.drop_first(),
        !(path@.len() > 0 && path@[0] == '/') ==> u@ == "https://res.cloudinary.com/"@
            + cloud_name@ + "/image/upload/f_auto,q_auto/v1/"@ + path@,
{
    let mut u = String::from_str("https://res.cloudinary.com/");
    u.append(cloud_name);
    u.append("/image/upload/f_auto,q_auto/v1/");
    if str_starts_with(path, "/") {
        proof {
            reveal_strlit("/");
        }
        let mut first = true;
        for c in it: path.chars()
            invariant
                it.seq() == path@,
                path@.len() >= 1,
                first == (it.index() == 0),
                u@ == "https://res.cloudinary.com/"@ + cloud_name@
                    + "/image/upload/f_auto,q_auto/v1/"@ + if it.index() == 0 {
                    Seq::<char>::empty()
                } else {
                    path@.subrange(1, it.index() as int)
                },
        {
            if !first {
                push_char(&mut u, c);
                assert(path@.subrange(1, it.index() + 1) =~= path@.subrange(1, it.index() as int).push(c));
            }
            first = false;
        }
        assert(path@.subrange(1, path@.len() as int) =~= path@.drop_first());
    } else {
        u.append(path);
    }
    proof {
        reveal_strlit("/");
        if path@.len() > 0 && path@[0] == '/' {
            assert(path@.subrange(0, 1) =~= "/"@);
        }
        if "/"@.is_prefix_of(path@) {
            assert(path@[0] == "/"@[0]);
        }
    }
    u
}

/// A path names an image as soon as any one of the extensions, whichever its
/// place in the list, ends its lowercase form.
pub proof fn lemma_image_path(path: Seq<char>, extensions: Seq<Seq<char>>, i: int)
    requires
        0 <= i < extensions.len(),
        extensions[i].is_suffix_of(lowercase(path)),
    ensures
        is_image_path(path, extensions),
{
}

} // verus!
