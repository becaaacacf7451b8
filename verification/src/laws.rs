//! Properties of the body and header models that hold for every builder,
//! stated and proved once so callers and readers need not derive them from
//! the definitions.

use vstd::prelude::*;
use vstd::arithmetic::div_mod::lemma_fundamental_div_mod;
use vstd::utf8::{encode_utf8, is_ascii_chars, is_ascii_chars_encode_utf8};

use crate::encoding::{
    body_bytes, closing_bytes, dec_digits, file_part_bytes, text_part_bytes, files_prefix_bytes,
    texts_prefix_bytes, header_value_chars,
};

verus! {

/// The decimal value named by a sequence of ASCII digit bytes.
pub open spec fn dec_val(s: Seq<u8>) -> nat
    decreases s.len(),
{
    if s.len() == 0 {
        0
    } else {
        dec_val(s.drop_last()) * 10 + (s.last() - 48) as nat
    }
}

/// The rendered `Content-Length` is faithful: `dec_digits(n)` consists of
/// ASCII digits only, never starts with a zero unless it is `"0"`, and
/// names exactly `n`, so the length stated in a part equals the byte count
/// of the content that follows it.
pub proof fn lemma_dec_digits_faithful(n: nat)
    ensures
        dec_digits(n).len() >= 1,
        forall|i: int| 0 <= i < dec_digits(n).len() ==> 48 <= #[trigger] dec_digits(n)[i] <= 57,
        n > 0 ==> dec_digits(n)[0] != 48,
        dec_val(dec_digits(n)) == n,
    decreases n,
{
    if n < 10 {
        assert(dec_digits(n) =~= seq![(48 + n) as u8]);
        assert(dec_digits(n).drop_last() =~= Seq::<u8>::empty());
        assert(dec_val(Seq::<u8>::empty()) == 0);
        assert(dec_val(dec_digits(n)) == n);
    } else {
        lemma_dec_digits_faithful(n / 10);
        lemma_fundamental_div_mod(n as int, 10);
        let prefix = dec_digits(n / 10);
        let whole = dec_digits(n);
        assert(whole =~= prefix.push((48 + n % 10) as u8));
        assert(whole.drop_last() =~= prefix);
        assert(dec_val(whole) == dec_val(prefix) * 10 + n % 10);
    }
}

/// Every header the builder produces has the name `Content-Type` by its
/// contract; this lemma gives the shape of the value: it is exactly the
/// fixed prefix `multipart/form-data; boundary=` followed by the boundary.
pub proof fn lemma_header_shape(b: Seq<char>)
    ensures
        header_value_chars(b).len() == 30 + b.len(),
        header_value_chars(b).subrange(0, 30) == "multipart/form-data; boundary="@,
        header_value_chars(b).skip(30) == b,
{
    reveal_strlit("multipart/form-data; boundary=");
    assert(header_value_chars(b).subrange(0, 30) =~= "multipart/form-data; boundary="@);
    assert(header_value_chars(b).skip(30) =~= b);
}

/// The body is never empty: whatever the fields, it ends with the closing
/// delimiter `--<boundary>--\r\n`, whose dashes alone contribute bytes.
pub proof fn lemma_body_nonempty(
    b: Seq<char>,
    files: Seq<(Seq<char>, Seq<char>, Seq<char>, Seq<char>)>,
    contents: Seq<Seq<u8>>,
    texts: Seq<(Seq<char>, Seq<char>, Seq<char>)>,
)
    ensures
        body_bytes(b, files, contents, texts).len() > 0,
{
    reveal_strlit("--");
    assert(is_ascii_chars("--"@));
    is_ascii_chars_encode_utf8("--"@);
    assert(encode_utf8("--"@).len() == 2);
    assert(closing_bytes(b).len() >= 2);
}

/// An empty builder's body is the closing delimiter and nothing else.
pub proof fn lemma_empty_builder_body(b: Seq<char>)
    ensures
        body_bytes(
            b,
            Seq::<(Seq<char>, Seq<char>, Seq<char>, Seq<char>)>::empty(),
            Seq::<Seq<u8>>::empty(),
            Seq::<(Seq<char>, Seq<char>, Seq<char>)>::empty(),
        ) == closing_bytes(b),
{
    assert(body_bytes(
        b,
        Seq::<(Seq<char>, Seq<char>, Seq<char>, Seq<char>)>::empty(),
        Seq::<Seq<u8>>::empty(),
        Seq::<(Seq<char>, Seq<char>, Seq<char>)>::empty(),
    ) =~= closing_bytes(b));
}

/// A body with one text field and no files is that field's part followed by
/// the closing delimiter.
pub proof fn lemma_single_text_body(b: Seq<char>, t: (Seq<char>, Seq<char>, Seq<char>))
    ensures
        body_bytes(
            b,
            Seq::<(Seq<char>, Seq<char>, Seq<char>, Seq<char>)>::empty(),
            Seq::<Seq<u8>>::empty(),
            seq![t],
        ) == text_part_bytes(b, t.0, t.2, t.1) + closing_bytes(b),
{
    let texts = seq![t];
    assert(texts_prefix_bytes(b, texts, 1) =~= texts_prefix_bytes(b, texts, 0) + text_part_bytes(
        b,
        t.0,
        t.2,
        t.1,
    ));
    assert(body_bytes(
        b,
        Seq::<(Seq<char>, Seq<char>, Seq<char>, Seq<char>)>::empty(),
        Seq::<Seq<u8>>::empty(),
        texts,
    ) =~= text_part_bytes(b, t.0, t.2, t.1) + closing_bytes(b));
}

/// A body with one file field and no texts is that field's part followed by
/// the closing delimiter.
pub proof fn lemma_single_file_body(
    b: Seq<char>,
    f: (Seq<char>, Seq<char>, Seq<char>, Seq<char>),
    data: Seq<u8>,
)
    ensures
        body_bytes(b, seq![f], seq![data], Seq::<(Seq<char>, Seq<char>, Seq<char>)>::empty())
            == file_part_bytes(b, f.0, f.1, f.2, data) + closing_bytes(b),
{
    let files = seq![f];
    let contents = seq![data];
    assert(files_prefix_bytes(b, files, contents, 1) =~= files_prefix_bytes(b, files, contents, 0)
        + file_part_bytes(b, f.0, f.1, f.2, data));
    assert(body_bytes(b, files, contents, Seq::<(Seq<char>, Seq<char>, Seq<char>)>::empty())
        =~= file_part_bytes(b, f.0, f.1, f.2, data) + closing_bytes(b));
}

/// Order preservation: with files A then B and texts C then D registered,
/// the body is A's part, then B's, then C's, then D's, then the closing
/// delimiter — file parts first, each list in registration order.
pub proof fn lemma_two_files_two_texts_order(
    b: Seq<char>,
    fa: (Seq<char>, Seq<char>, Seq<char>, Seq<char>),
    ca: Seq<u8>,
    fb: (Seq<char>, Seq<char>, Seq<char>, Seq<char>),
    cb: Seq<u8>,
    tc: (Seq<char>, Seq<char>, Seq<char>),
    td: (Seq<char>, Seq<char>, Seq<char>),
)
    ensures
        body_bytes(b, seq![fa, fb], seq![ca, cb], seq![tc, td]) == file_part_bytes(
            b,
            fa.0,
            fa.1,
            fa.2,
            ca,
        ) + file_part_bytes(b, fb.0, fb.1, fb.2, cb) + text_part_bytes(b, tc.0, tc.2, tc.1)
            + text_part_bytes(b, td.0, td.2, td.1) + closing_bytes(b),
{
    let files = seq![fa, fb];
    let contents = seq![ca, cb];
    let texts = seq![tc, td];
    assert(files_prefix_bytes(b, files, contents, 1) =~= files_prefix_bytes(b, files, contents, 0)
        + file_part_bytes(b, fa.0, fa.1, fa.2, ca));
    assert(files_prefix_bytes(b, files, contents, 2) =~= files_prefix_bytes(b, files, contents, 1)
        + file_part_bytes(b, fb.0, fb.1, fb.2, cb));
    assert(texts_prefix_bytes(b, texts, 1) =~= texts_prefix_bytes(b, texts, 0) + text_part_bytes(
        b,
        tc.0,
        tc.2,
        tc.1,
    ));
    assert(texts_prefix_bytes(b, texts, 2) =~= texts_prefix_bytes(b, texts, 1) + text_part_bytes(
        b,
        td.0,
        td.2,
        td.1,
    ));
    assert(body_bytes(b, files, contents, texts) =~= file_part_bytes(b, fa.0, fa.1, fa.2, ca)
        + file_part_bytes(b, fb.0, fb.1, fb.2, cb) + text_part_bytes(b, tc.0, tc.2, tc.1)
        + text_part_bytes(b, td.0, td.2, td.1) + closing_bytes(b));
}

} // verus!
