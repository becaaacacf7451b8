//! A builder for `multipart/form-data` request bodies.
//!
//! The builder accumulates text fields and file fields and serialises them
//! into one byte buffer together with the matching `Content-Type` header
//! value.  File contents are handed in as plain byte vectors, so the
//! serialisation itself is verified down to the exact bytes produced.

use vstd::prelude::*;

pub mod encoding;
pub mod laws;

use crate::encoding::{
    append_closing, append_file_part, append_text_part, body_bytes, contents_view,
    files_prefix_bytes, header_value_chars, texts_prefix_bytes,
};

verus! {

/// A lowercase hexadecimal digit.
pub open spec fn is_lower_hex_digit(c: char) -> bool {
    ('0' <= c && c <= '9') || ('a' <= c && c <= 'f')
}

/// The shape of every boundary this library generates: the canonical
/// hyphenated rendering of a version-4 random identifier, 36 characters,
/// lowercase hexadecimal with hyphens at positions 8, 13, 18 and 23.
pub open spec fn is_boundary_token(s: Seq<char>) -> bool {
    &&& s.len() == 36
    &&& forall|i: int|
        (0 <= i < 36 && (i == 8 || i == 13 || i == 18 || i == 23)) ==> #[trigger] s[i] == '-'
    &&& forall|i: int|
        (0 <= i < 36 && !(i == 8 || i == 13 || i == 18 || i == 23)) ==> is_lower_hex_digit(
            #[trigger] s[i],
        )
}

/// Relies on `uuid::Uuid::new_v4` and `Uuid`'s `Display` impl: a fresh
/// version-4 identifier rendered in its hyphenated lowercase form, which is
/// 36 ASCII characters, hexadecimal digits with hyphens at positions 8, 13,
/// 18 and 23.  The value is random, so nothing beyond its shape is assumed.
#[verifier::external_body]
fn fresh_boundary() -> (r: String)
    ensures
        is_boundary_token(r@),
{
    uuid::Uuid::new_v4().to_string()
}

/// A text field: a form name, a value, and a content type
/// (always `text/plain` for fields added through `with_text`).
pub struct TextField {
    pub name: String,
    pub value: String,
    pub content_type: String,
}

/// A file field: a form name, the file name sent to the peer, a content
/// type, and the path the caller wants the bytes read from.  The path is
/// only stored here; reading it is the caller's business, which keeps the
/// serialisation below free of any filesystem access.
pub struct FileField {
    pub form_name: String,
    pub file_name: String,
    pub content_type: String,
    pub source_path: String,
}

/// Accumulates file fields and text fields, in insertion order.
/// Files are serialised before texts.
pub struct MultiPartFormDataBuilder {
    pub files: Vec<FileField>,
    pub texts: Vec<TextField>,
}

impl MultiPartFormDataBuilder {
    /// The file fields as (form name, file name, content type, source path).
    pub open spec fn files_view(&self) -> Seq<(Seq<char>, Seq<char>, Seq<char>, Seq<char>)> {
        self.files@.map_values(
            |f: FileField| (f.form_name@, f.file_name@, f.content_type@, f.source_path@),
        )
    }

    /// The text fields as (form name, value, content type).
    pub open spec fn texts_view(&self) -> Seq<(Seq<char>, Seq<char>, Seq<char>)> {
        self.texts@.map_values(|t: TextField| (t.name@, t.value@, t.content_type@))
    }

    /// A builder with no fields at all.
    pub fn new() -> (r: MultiPartFormDataBuilder)
        ensures
            r.files_view() == Seq::<(Seq<char>, Seq<char>, Seq<char>, Seq<char>)>::empty(),
            r.texts_view() == Seq::<(Seq<char>, Seq<char>, Seq<char>)>::empty(),
    {
        let r = MultiPartFormDataBuilder { files: Vec::new(), texts: Vec::new() };
        proof {
            assert(r.files_view() =~= Seq::<(Seq<char>, Seq<char>, Seq<char>, Seq<char>)>::empty());
            assert(r.texts_view() =~= Seq::<(Seq<char>, Seq<char>, Seq<char>)>::empty());
        }
        r
    }

    /// Appends a text field with content type `text/plain`.
    /// Any name and value are accepted, the empty string included.
    pub fn with_text(&mut self, name: &str, value: &str)
        ensures
            final(self).texts_view() == old(self).texts_view().push(
                (name@, value@, "text/plain"@),
            ),
            final(self).files_view() == old(self).files_view(),
    {
        let field = TextField {
            name: name.to_owned(),
            value: value.to_owned(),
            content_type: String::from_str("text/plain"),
        };
        self.texts.push(field);
        proof {
            assert(self.texts_view() =~= old(self).texts_view().push(
                (name@, value@, "text/plain"@),
            ));
            assert(self.files_view() =~= old(self).files_view());
        }
    }

    /// Appends a file field.  The path is stored, never touched: whether it
    /// exists is only decided when somebody reads it for `build`.
    pub fn with_file(&mut self, path: &str, name: &str, content_type: &str, file_name: &str)
        ensures
            final(self).files_view() == old(self).files_view().push(
                (name@, file_name@, content_type@, path@),
            ),
            final(self).texts_view() == old(self).texts_view(),
    {
        let field = FileField {
            form_name: name.to_owned(),
            file_name: file_name.to_owned(),
            content_type: content_type.to_owned(),
            source_path: path.to_owned(),
        };
        self.files.push(field);
        proof {
            assert(self.files_view() =~= old(self).files_view().push(
                (name@, file_name@, content_type@, path@),
            ));
            assert(self.texts_view() =~= old(self).texts_view());
        }
    }

    /// Serialises the fields into a body that uses the given boundary, and
    /// the matching header pair.  `contents[i]` must hold the bytes read for
    /// the `i`-th file field; the builder itself never touches a file.
    ///
    /// Every byte of the result is pinned down: the body is exactly
    /// `body_bytes` of the fields, and the header is
    /// `("Content-Type", "multipart/form-data; boundary=<boundary>")`.
    pub fn build_with_boundary(&self, boundary: &str, contents: &Vec<Vec<u8>>) -> (r: (
        (String, String),
        Vec<u8>,
    ))
        requires
            contents@.len() == self.files_view().len(),
        ensures
            r.0.0@ == "Content-Type"@,
            r.0.1@ == header_value_chars(boundary@),
            r.1@ == body_bytes(
                boundary@,
                self.files_view(),
                contents_view(contents@),
                self.texts_view(),
            ),
    {
        let ghost fv = self.files_view();
        let ghost cv = contents_view(contents@);
        let ghost tv = self.texts_view();

        let mut body: Vec<u8> = Vec::new();
        proof {
            assert(body@ =~= files_prefix_bytes(boundary@, fv, cv, 0));
        }
        let mut i: usize = 0;
        while i < self.files.len()
            invariant
                i <= self.files.len(),
                contents@.len() == self.files_view().len(),
                fv == self.files_view(),
                cv == contents_view(contents@),
                body@ == files_prefix_bytes(boundary@, fv, cv, i as int),
            decreases self.files.len() - i,
        {
            let f = &self.files[i];
            let data = &contents[i];
            append_file_part(
                &mut body,
                boundary,
                f.form_name.as_str(),
                f.file_name.as_str(),
                f.content_type.as_str(),
                data,
            );
            proof {
                assert(fv[i as int] == (f.form_name@, f.file_name@, f.content_type@, f.source_path@));
                assert(cv[i as int] == data@);
                assert(body@ =~= files_prefix_bytes(boundary@, fv, cv, i as int + 1));
            }
            i = i + 1;
        }

        let ghost files_done = body@;
        proof {
            assert(body@ =~= files_done + texts_prefix_bytes(boundary@, tv, 0));
        }
        let mut j: usize = 0;
        while j < self.texts.len()
            invariant
                j <= self.texts.len(),
                tv == self.texts_view(),
                files_done == files_prefix_bytes(boundary@, fv, cv, fv.len() as int),
                fv == self.files_view(),
                cv == contents_view(contents@),
                body@ == files_done + texts_prefix_bytes(boundary@, tv, j as int),
            decreases self.texts.len() - j,
        {
            let t = &self.texts[j];
            append_text_part(
                &mut body,
                boundary,
                t.name.as_str(),
                t.content_type.as_str(),
                t.value.as_str(),
            );
            proof {
                assert(tv[j as int] == (t.name@, t.value@, t.content_type@));
                assert(body@ =~= files_done + texts_prefix_bytes(boundary@, tv, j as int + 1));
            }
            j = j + 1;
        }

        append_closing(&mut body, boundary);
        proof {
            assert(body@ =~= body_bytes(boundary@, fv, cv, tv));
        }

        let mut header_value = String::from_str("multipart/form-data; boundary=");
        header_value.append(boundary);
        let header_name = String::from_str("Content-Type");
        ((header_name, header_value), body)
    }

    /// Serialises the fields under a fresh random boundary.  `contents[i]`
    /// must hold the bytes read for the `i`-th file field.
    ///
    /// The boundary is random, so the contract promises a boundary of the
    /// generated shape rather than a particular one; two calls on the same
    /// builder are expected to produce different boundaries.  The builder is
    /// not changed and may be built again.
    pub fn build(&self, contents: &Vec<Vec<u8>>) -> (r: ((String, String), Vec<u8>))
        requires
            contents@.len() == self.files_view().len(),
        ensures
            r.0.0@ == "Content-Type"@,
            exists|b: Seq<char>|
                is_boundary_token(b) && r.0.1@ == header_value_chars(b) && r.1@ == body_bytes(
                    b,
                    self.files_view(),
                    contents_view(contents@),
                    self.texts_view(),
                ),
    {
        let boundary = fresh_boundary();
        let r = self.build_with_boundary(boundary.as_str(), contents);
        proof {
            let b = boundary@;
            assert(is_boundary_token(b) && r.0.1@ == header_value_chars(b) && r.1@ == body_bytes(
                b,
                self.files_view(),
                contents_view(contents@),
                self.texts_view(),
            ));
        }
        r
    }
}

} // verus!
