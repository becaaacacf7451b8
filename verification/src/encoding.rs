//! The byte-level model of a `multipart/form-data` body, and the verified
//! helpers that produce those bytes.
//!
//! Every part of the body is specified as a concatenation of UTF-8 byte
//! sequences, so the serialiser's contract pins down each byte of the
//! output.

use vstd::prelude::*;
use vstd::string::*;
use vstd::utf8::encode_utf8;

verus! {

/// The decimal ASCII rendering of a natural number, most significant digit
/// first, with no leading zeroes (and `"0"` for zero).
pub open spec fn dec_digits(n: nat) -> Seq<u8>
    decreases n,
{
    if n < 10 {
        seq![(48 + n) as u8]
    } else {
        dec_digits(n / 10).push((48 + n % 10) as u8)
    }
}

/// Renders `n` in decimal, exactly as `dec_digits` describes.
pub fn usize_to_dec(n: usize) -> (r: Vec<u8>)
    ensures
        r@ == dec_digits(n as nat),
    decreases n,
{
    if n < 10 {
        let mut r: Vec<u8> = Vec::new();
        r.push(48 + n as u8);
        proof {
            assert(r@ =~= dec_digits(n as nat));
        }
        r
    } else {
        let mut r = usize_to_dec(n / 10);
        r.push(48 + (n % 10) as u8);
        proof {
            assert(r@ =~= dec_digits(n as nat));
        }
        r
    }
}

/// Appends the UTF-8 bytes of `s` to `body`.
pub fn append_str(body: &mut Vec<u8>, s: &str)
    ensures
        final(body)@ == old(body)@ + s.spec_bytes(),
{
    let mut bytes = s.as_bytes_vec();
    body.append(&mut bytes);
}

/// Appends a copy of `data` to `body`.
pub fn append_bytes(body: &mut Vec<u8>, data: &Vec<u8>)
    ensures
        final(body)@ == old(body)@ + data@,
{
    let mut copy = vstd::slice::slice_to_vec(data.as_slice());
    body.append(&mut copy);
}

/// Appends the decimal rendering of `n` to `body`.
pub fn append_decimal(body: &mut Vec<u8>, n: usize)
    ensures
        final(body)@ == old(body)@ + dec_digits(n as nat),
{
    let mut digits = usize_to_dec(n);
    body.append(&mut digits);
}

/// One file part: the boundary line, a `Content-Disposition` with the form
/// name and the file name, the content type, a `Content-Length` stating how
/// many bytes follow, a blank line, the raw bytes, and a closing line break.
pub open spec fn file_part_bytes(
    boundary: Seq<char>,
    form_name: Seq<char>,
    file_name: Seq<char>,
    content_type: Seq<char>,
    data: Seq<u8>,
) -> Seq<u8> {
    encode_utf8("--"@) + encode_utf8(boundary) + encode_utf8("\r\n"@) + encode_utf8(
        "Content-Disposition: form-data; name=\""@,
    ) + encode_utf8(form_name) + encode_utf8("\"; filename=\""@) + encode_utf8(file_name)
        + encode_utf8("\"\r\n"@) + encode_utf8("Content-Type: "@) + encode_utf8(content_type)
        + encode_utf8("\r\n"@) + encode_utf8("Content-Length: "@) + dec_digits(data.len())
        + encode_utf8("\r\n\r\n"@) + data + encode_utf8("\r\n"@)
}

/// One text part: as a file part, but without a file name, and with the
/// value's UTF-8 bytes as the content.
pub open spec fn text_part_bytes(
    boundary: Seq<char>,
    name: Seq<char>,
    content_type: Seq<char>,
    value: Seq<char>,
) -> Seq<u8> {
    encode_utf8("--"@) + encode_utf8(boundary) + encode_utf8("\r\n"@) + encode_utf8(
        "Content-Disposition: form-data; name=\""@,
    ) + encode_utf8(name) + encode_utf8("\"\r\n"@) + encode_utf8("Content-Type: "@) + encode_utf8(
        content_type,
    ) + encode_utf8("\r\n"@) + encode_utf8("Content-Length: "@) + dec_digits(
        encode_utf8(value).len(),
    ) + encode_utf8("\r\n\r\n"@) + encode_utf8(value) + encode_utf8("\r\n"@)
}

/// The closing delimiter that ends every body.
pub open spec fn closing_bytes(boundary: Seq<char>) -> Seq<u8> {
    encode_utf8("--"@) + encode_utf8(boundary) + encode_utf8("--\r\n"@)
}

/// The parts of the first `n` file fields, concatenated in order.
/// `files` holds (form name, file name, content type, source path);
/// `contents[i]` holds the bytes read for `files[i]`.
pub open spec fn files_prefix_bytes(
    boundary: Seq<char>,
    files: Seq<(Seq<char>, Seq<char>, Seq<char>, Seq<char>)>,
    contents: Seq<Seq<u8>>,
    n: int,
) -> Seq<u8>
    decreases n,
{
    if n <= 0 {
        Seq::empty()
    } else {
        files_prefix_bytes(boundary, files, contents, n - 1) + file_part_bytes(
            boundary,
            files[n - 1].0,
            files[n - 1].1,
            files[n - 1].2,
            contents[n - 1],
        )
    }
}

/// The parts of the first `n` text fields, concatenated in order.
/// `texts` holds (form name, value, content type).
pub open spec fn texts_prefix_bytes(
    boundary: Seq<char>,
    texts: Seq<(Seq<char>, Seq<char>, Seq<char>)>,
    n: int,
) -> Seq<u8>
    decreases n,
{
    if n <= 0 {
        Seq::empty()
    } else {
        texts_prefix_bytes(boundary, texts, n - 1) + text_part_bytes(
            boundary,
            texts[n - 1].0,
            texts[n - 1].2,
            texts[n - 1].1,
        )
    }
}

/// The byte sequences held by a vector of byte vectors.
pub open spec fn contents_view(contents: Seq<Vec<u8>>) -> Seq<Seq<u8>> {
    contents.map_values(|v: Vec<u8>| v@)
}

/// The whole body: every file part in registration order, then every text
/// part in registration order, then the closing delimiter.
pub open spec fn body_bytes(
    boundary: Seq<char>,
    files: Seq<(Seq<char>, Seq<char>, Seq<char>, Seq<char>)>,
    contents: Seq<Seq<u8>>,
    texts: Seq<(Seq<char>, Seq<char>, Seq<char>)>,
) -> Seq<u8> {
    files_prefix_bytes(boundary, files, contents, files.len() as int) + texts_prefix_bytes(
        boundary,
        texts,
        texts.len() as int,
    ) + closing_bytes(boundary)
}

/// The `Content-Type` header value that matches a body with this boundary.
pub open spec fn header_value_chars(boundary: Seq<char>) -> Seq<char> {
    "multipart/form-data; boundary="@ + boundary
}

/// Appends one file part to `body`.
pub fn append_file_part(
    body: &mut Vec<u8>,
    boundary: &str,
    form_name: &str,
    file_name: &str,
    content_type: &str,
    data: &Vec<u8>,
)
    ensures
        final(body)@ == old(body)@ + file_part_bytes(
            boundary@,
            form_name@,
            file_name@,
            content_type@,
            data@,
        ),
{
    append_str(body, "--");
    append_str(body, boundary);
    append_str(body, "\r\n");
    append_str(body, "Content-Disposition: form-data; name=\"");
    append_str(body, form_name);
    append_str(body, "\"; filename=\"");
    append_str(body, file_name);
    append_str(body, "\"\r\n");
    append_str(body, "Content-Type: ");
    append_str(body, content_type);
    append_str(body, "\r\n");
    append_str(body, "Content-Length: ");
    append_decimal(body, data.len());
    append_str(body, "\r\n\r\n");
    append_bytes(body, data);
    append_str(body, "\r\n");
    proof {
        assert(body@ =~= old(body)@ + file_part_bytes(
            boundary@,
            form_name@,
            file_name@,
            content_type@,
            data@,
        ));
    }
}

/// Appends one text part to `body`.
pub fn append_text_part(body: &mut Vec<u8>, boundary: &str, name: &str, content_type: &str, value: &str)
    ensures
        final(body)@ == old(body)@ + text_part_bytes(boundary@, name@, content_type@, value@),
{
    append_str(body, "--");
    append_str(body, boundary);
    append_str(body, "\r\n");
    append_str(body, "Content-Disposition: form-data; name=\"");
    append_str(body, name);
    append_str(body, "\"\r\n");
    append_str(body, "Content-Type: ");
    append_str(body, content_type);
    append_str(body, "\r\n");
    append_str(body, "Content-Length: ");
    let data = value.as_bytes_vec();
    append_decimal(body, data.len());
    append_str(body, "\r\n\r\n");
    append_bytes(body, &data);
    append_str(body, "\r\n");
    proof {
        assert(body@ =~= old(body)@ + text_part_bytes(boundary@, name@, content_type@, value@));
    }
}

/// Appends the closing delimiter to `body`.
pub fn append_closing(body: &mut Vec<u8>, boundary: &str)
    ensures
        final(body)@ == old(body)@ + closing_bytes(boundary@),
{
    append_str(body, "--");
    append_str(body, boundary);
    append_str(body, "--\r\n");
    proof {
        assert(body@ =~= old(body)@ + closing_bytes(boundary@));
    }
}

} // verus!
