use vstd::prelude::*;
use base64::Engine;
use crate::errors::YuchiError;

verus! {

/// What reading an image file gave.
#[derive(Debug)]
pub enum ImageSource {
    /// The path names no existing regular file.
    Missing,
    /// The file exists but could not be read; the reason.
    Unreadable(String),
    /// The file's bytes.
    Loaded(Vec<u8>),
}

/// The index of the last `c` in `s`, or -1.
pub open spec fn last_index(s: Seq<char>, c: char) -> int
    decreases s.len(),
{
    if s.len() == 0 {
        -1
    } else if s.last() == c {
        s.len() - 1
    } else {
        last_index(s.drop_last(), c)
    }
}

pub proof fn lemma_last_index(s: Seq<char>, c: char)
    ensures
        -1 <= last_index(s, c) < s.len(),
        last_index(s, c) >= 0 ==> s[last_index(s, c)] == c,
        forall|j: int| last_index(s, c) < j < s.len() ==> s[j] != c,
    decreases s.len(),
{
    if s.len() > 0 && s.last() != c {
        lemma_last_index(s.drop_last(), c);
        assert forall|j: int| last_index(s, c) < j < s.len() implies s[j] != c by {
            if j < s.len() - 1 {
                assert(s.drop_last()[j] == s[j]);
            }
        }
    }
}

/// The last component of a `/`-separated path.
pub open spec fn file_name(path: Seq<char>) -> Seq<char> {
    path.subrange(last_index(path, '/') + 1, path.len() as int)
}

/// The extension of a path: what follows the last `.` of its file name, where that
/// `.` is not the name's first character.
pub open spec fn extension(path: Seq<char>) -> Option<Seq<char>> {
    let name = file_name(path);
    let dot = last_index(name, '.');
    if dot > 0 {
        Some(name.subrange(dot + 1, name.len() as int))
    } else {
        None
    }
}

/// The MIME type of an image path, by its extension: PNG and JPEG are known.
pub open spec fn mime_of(path: Seq<char>) -> Option<Seq<char>> {
    match extension(path) {
        Some(e) => if e == "png"@ {
            Some("image/png"@)
        } else if e == "jpg"@ || e == "jpeg"@ {
            Some("image/jpeg"@)
        } else {
            None
        },
        None => None,
    }
}

/// The standard base64 encoding (with padding) of some bytes.
pub uninterp spec fn base64_of(data: Seq<u8>) -> Seq<char>;

/// Relies on `base64::engine::general_purpose::STANDARD.encode`: the standard,
/// padded base64 text of the bytes. Its length computation panics only past
/// three quarters of the address space.
#[verifier::external_body]
fn base64_encode(data: &Vec<u8>) -> (r: String)
    requires
        data@.len() <= usize::MAX / 2,
    ensures
        r@ == base64_of(data@),
{
    base64::engine::general_purpose::STANDARD.encode(data)
}

/// Where `s` has a `c`, the index of the last one.
fn find_last(s: &str, c: char) -> (r: Option<usize>)
    ensures
        match r {
            Some(i) => i == last_index(s@, c),
            None => last_index(s@, c) == -1,
        },
{
    let mut i: usize = s.unicode_len();
    assert(s@.subrange(0, i as int) =~= s@);
    while i > 0
        invariant
            i <= s@.len(),
            last_index(s@, c) == last_index(s@.subrange(0, i as int), c),
        decreases i,
    {
        let ghost pre = s@.subrange(0, i as int);
        if s.get_char(i - 1) == c {
            return Some(i - 1);
        }
        assert(pre.drop_last() =~= s@.subrange(0, i - 1));
        i = i - 1;
    }
    None
}

/// The extension of a path, as `extension` describes it.
pub fn path_extension(path: &str) -> (r: Option<&str>)
    ensures
        match r {
            Some(e) => extension(path@) == Some(e@),
            None => extension(path@) is None,
        },
{
    let n = path.unicode_len();
    proof {
        lemma_last_index(path@, '/');
    }
    let start: usize = match find_last(path, '/') {
        Some(i) => i + 1,
        None => 0,
    };
    let name = path.substring_char(start, n);
    let m = name.unicode_len();
    match find_last(name, '.') {
        Some(d) => {
            proof {
                lemma_last_index(name@, '.');
            }
            if d > 0 {
                Some(name.substring_char(d + 1, m))
            } else {
                None
            }
        },
        None => None,
    }
}

/// The MIME type of an image path: `image/png` for `.png`, `image/jpeg` for `.jpg`
/// and `.jpeg`, none for any other.
pub fn mime_type(path: &str) -> (r: Option<&'static str>)
    ensures
        match r {
            Some(m) => mime_of(path@) == Some(m@),
            None => mime_of(path@) is None,
        },
{
    match path_extension(path) {
        Some(e) => {
            let e = e.to_owned();
            if e == String::from_str("png") {
                Some("image/png")
            } else if e == String::from_str("jpg") || e == String::from_str("jpeg") {
                Some("image/jpeg")
            } else {
                None
            }
        },
        None => None,
    }
}

/// Image sources whose bytes the encoder can take.
pub open spec fn encodable(source: &ImageSource) -> bool {
    source matches ImageSource::Loaded(b) ==> b@.len() <= usize::MAX / 2
}

/// What attaching the image at `path` gives: its data URL, or the message of the
/// image error.
pub open spec fn image_outcome(path: Seq<char>, source: ImageSource) -> Result<Seq<char>, Seq<char>> {
    match source {
        ImageSource::Missing => Err("Image file '"@ + path + "' does not exist or is not a file"@),
        ImageSource::Unreadable(why) => Err(
            "Failed to read image file '"@ + path + "': "@ + why@,
        ),
        ImageSource::Loaded(data) => match mime_of(path) {
            Some(mime) => Ok("data:"@ + mime + ";base64,"@ + base64_of(data@)),
            None => Err("Unsupported image format for '"@ + path + "'. Use PNG or JPEG."@),
        },
    }
}

/// The data URL of base64 text of the given MIME type.
pub fn data_url(mime: &str, encoded: &str) -> (r: String)
    ensures
        r@ == "data:"@ + mime@ + ";base64,"@ + encoded@,
{
    String::from_str("data:").concat(mime).concat(";base64,").concat(encoded)
}

/// The data URL `data:<mime>;base64,<bytes>` of the image read from `path`, or an
/// `Image` error where the file is missing, unreadable, or neither PNG nor JPEG.
pub fn image_data_url(path: &str, source: ImageSource) -> (r: Result<String, YuchiError>)
    requires
        encodable(&source),
    ensures
        match image_outcome(path@, source) {
            Ok(url) => r matches Ok(s) && s@ == url,
            Err(m) => r matches Err(YuchiError::Image(e)) && e@ == m,
        },
{
    match source {
        ImageSource::Missing => Err(
            YuchiError::Image(
                String::from_str("Image file '").concat(path).concat(
                    "' does not exist or is not a file",
                ),
            ),
        ),
        ImageSource::Unreadable(why) => Err(
            YuchiError::Image(
                String::from_str("Failed to read image file '").concat(path).concat("': ").concat(
                    why.as_str(),
                ),
            ),
        ),
        ImageSource::Loaded(data) => match mime_type(path) {
            Some(mime) => {
                let encoded = base64_encode(&data);
                Ok(data_url(mime, encoded.as_str()))
            },
            None => Err(
                YuchiError::Image(
                    String::from_str("Unsupported image format for '").concat(path).concat(
                        "'. Use PNG or JPEG.",
                    ),
                ),
            ),
        },
    }
}

} // verus!
