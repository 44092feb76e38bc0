use vstd::prelude::*;

verus! {

/// The file extension for a supported MIME type; `None` for any other text.
pub open spec fn extension_for(mime: Seq<char>) -> Option<Seq<char>> {
    if mime == "image/bmp"@ {
        Some("bmp"@)
    } else if mime == "image/jpeg"@ {
        Some("jpg"@)
    } else if mime == "image/png"@ {
        Some("png"@)
    } else {
        None
    }
}

/// Whether two strings hold the same characters.
pub fn str_equal(a: &str, b: &str) -> (r: bool)
    ensures
        r == (a@ == b@),
{
    let n = a.unicode_len();
    if n != b.unicode_len() {
        return false;
    }
    let mut i: usize = 0;
    while i < n
        invariant
            n == a@.len(),
            n == b@.len(),
            i <= n,
            forall|j: int| 0 <= j < i ==> a@[j] == b@[j],
        decreases n - i,
    {
        if a.get_char(i) != b.get_char(i) {
            return false;
        }
        i = i + 1;
    }
    assert(a@ =~= b@);
    true
}

/// Maps a MIME type to the extension its files are stored under.
pub fn mime_type_to_extension(mime_type: &str) -> (r: Option<&'static str>)
    ensures
        match r {
            Some(ext) => extension_for(mime_type@) == Some(ext@),
            None => extension_for(mime_type@) is None,
        },
{
    proof {
        reveal_strlit("image/bmp");
        reveal_strlit("image/jpeg");
        reveal_strlit("image/png");
        reveal_strlit("bmp");
        reveal_strlit("jpg");
        reveal_strlit("png");
    }
    if str_equal(mime_type, "image/bmp") {
        Some("bmp")
    } else if str_equal(mime_type, "image/jpeg") {
        Some("jpg")
    } else if str_equal(mime_type, "image/png") {
        Some("png")
    } else {
        None
    }
}

/// Why a remote fetch produced no image.
#[derive(Debug, Clone)]
pub enum FetchError {
    /// The remote server answered with a non-success status.
    ServerReturnedError,
    /// The response's content type is absent, unreadable or not supported.
    UnsupportedMediaType,
    /// The transfer itself failed; the text describes the transport error.
    FetchError(String),
}

/// The value of the `Accept` header sent with a remote fetch.
pub const ACCEPT_HEADER: &'static str = "image/jpeg, image/png, image/bmp";

/// An HTTP status of the success class (2xx).
pub open spec fn is_success_status(status: u16) -> bool {
    200 <= status <= 299
}

/// Decides what a remote response yields from its status and its
/// `Content-Type` header (`None` when absent or not valid text): the extension
/// the body is stored under, or the reason it is refused.
pub fn check_fetch_response(status: u16, content_type: Option<&str>) -> (r: Result<
    &'static str,
    FetchError,
>)
    ensures
        !is_success_status(status) ==> r matches Err(FetchError::ServerReturnedError),
        is_success_status(status) ==> match content_type {
            None => r matches Err(FetchError::UnsupportedMediaType),
            Some(m) => match extension_for(m@) {
                None => r matches Err(FetchError::UnsupportedMediaType),
                Some(e) => r matches Ok(x) && x@ == e,
            },
        },
{
    if status < 200 || status > 299 {
        return Err(FetchError::ServerReturnedError);
    }
    match content_type {
        None => Err(FetchError::UnsupportedMediaType),
        Some(m) => match mime_type_to_extension(m) {
            Some(ext) => Ok(ext),
            None => Err(FetchError::UnsupportedMediaType),
        },
    }
}

/// Why an inline base64 item produced no image.
#[derive(Debug, Clone, Copy, PartialEq, Eq, Structural)]
pub enum Base64Rejection {
    /// The text is not valid base64.
    Malformed,
    /// The decoded bytes are not of a supported image type.
    UnsupportedMediaType,
}

/// What base64 decoding (standard alphabet, padded) makes of a
/// text: `None` when they are not valid base64.
pub uninterp spec fn base64_decoding(text: Seq<char>) -> Option<Seq<u8>>;

#[verifier::external_type_specification]
#[verifier::external_body]
pub struct ExDecodeError(base64::DecodeError);

/// Relies on `base64::decode` with the standard configuration: the decoded
/// bytes, or an error when the input is not valid base64.
#[verifier::external_body]
fn decode_base64(text: &str) -> (r: Result<Vec<u8>, base64::DecodeError>)
    ensures
        match r {
            Ok(bytes) => base64_decoding(text@) == Some(bytes@),
            Err(_) => base64_decoding(text@) is None,
        },
{
    base64::decode(text)
}

/// Relies on `tree_magic::from_u8`: the MIME type it detects from the magic
/// bytes of the content. The detection rules are read from the machine's MIME
/// database, so nothing is stated of the answer.
#[verifier::external_body]
fn sniff_mime_type(bytes: &Vec<u8>) -> (r: String) {
    tree_magic::from_u8(bytes.as_slice())
}

/// Accepts decoded bytes whose detected MIME type is `mime`: the bytes with the
/// extension they are stored under, or the rejection.
pub fn accept_sniffed(bytes: Vec<u8>, mime: &str) -> (r: Result<(Vec<u8>, &'static str), Base64Rejection>)
    ensures
        match extension_for(mime@) {
            None => r == Err::<(Vec<u8>, &'static str), Base64Rejection>(
                Base64Rejection::UnsupportedMediaType,
            ),
            Some(e) => r matches Ok(x) && x.0@ == bytes@ && x.1@ == e,
        },
{
    match mime_type_to_extension(mime) {
        Some(ext) => Ok((bytes, ext)),
        None => Err(Base64Rejection::UnsupportedMediaType),
    }
}

/// Decodes an inline base64 item and resolves the extension of its content
/// from the detected MIME type.
pub fn decode_base64_image(data: &str) -> (r: Result<(Vec<u8>, &'static str), Base64Rejection>)
    ensures
        base64_decoding(data@) is None <==> r == Err::<
            (Vec<u8>, &'static str),
            Base64Rejection,
        >(Base64Rejection::Malformed),
        r matches Ok(x) ==> base64_decoding(data@) == Some(x.0@)
            && extension_for_some(x.1@),
{
    match decode_base64(data) {
        Err(_) => Err(Base64Rejection::Malformed),
        Ok(bytes) => {
            let mime = sniff_mime_type(&bytes);
            accept_sniffed(bytes, mime.as_str())
        },
    }
}

/// `ext` is the extension of one of the supported MIME types.
pub open spec fn extension_for_some(ext: Seq<char>) -> bool {
    exists|m: Seq<char>| extension_for(m) == Some(ext)
}

} // verus!
