use actix_multipart_test::MultiPartFormDataBuilder;

fn find_subslice(haystack: &[u8], needle: &[u8]) -> Option<usize> {
    if needle.is_empty() {
        return Some(0);
    }
    if haystack.len() < needle.len() {
        return None;
    }
    for start in 0..=(haystack.len() - needle.len()) {
        if &haystack[start..start + needle.len()] == needle {
            return Some(start);
        }
    }
    None
}

fn boundary_of(header_value: &str) -> String {
    let prefix = "multipart/form-data; boundary=";
    assert!(header_value.starts_with(prefix));
    header_value[prefix.len()..].to_string()
}

fn assert_boundary_shape(boundary: &str) {
    assert_eq!(boundary.len(), 36);
    for (i, c) in boundary.chars().enumerate() {
        if i == 8 || i == 13 || i == 18 || i == 23 {
            assert_eq!(c, '-');
        } else {
            assert!(c.is_ascii_hexdigit() && !c.is_ascii_uppercase());
        }
    }
}

#[test]
fn test_should_build_multipart_form_with_text() {
    let mut multipart_form_data_builder = MultiPartFormDataBuilder::new();
    multipart_form_data_builder.with_file(
        "tests/sample.png",
        "sample",
        "image/png",
        "sample.png",
    );
    multipart_form_data_builder.with_text("name", "some_name");
    let sample_bytes: Vec<u8> = vec![137, 80, 78, 71, 13, 10, 26, 10];
    let contents = vec![sample_bytes];
    let (header, body) = multipart_form_data_builder.build(&contents);

    assert_eq!(header.0, "Content-Type");
    assert!(header.1.starts_with("multipart/form-data; boundary="));
    assert!(body.len() > 0);
}

#[test]
fn header_shape_holds_for_any_builder() {
    let mut builder = MultiPartFormDataBuilder::new();
    let (header, _) = builder.build(&Vec::new());
    assert_eq!(header.0, "Content-Type");
    assert!(header.1.starts_with("multipart/form-data; boundary="));
    assert_boundary_shape(&boundary_of(&header.1));

    builder.with_text("a", "b");
    let (header2, _) = builder.build(&Vec::new());
    assert_eq!(header2.0, "Content-Type");
    assert!(header2.1.starts_with("multipart/form-data; boundary="));
    assert_boundary_shape(&boundary_of(&header2.1));
}

#[test]
fn body_is_non_empty_with_one_field() {
    let mut builder = MultiPartFormDataBuilder::new();
    builder.with_text("field", "value");
    let (_, body) = builder.build(&Vec::new());
    assert!(!body.is_empty());
}

#[test]
fn consecutive_builds_use_different_boundaries() {
    let mut builder = MultiPartFormDataBuilder::new();
    builder.with_text("name", "value");
    let (header_a, _) = builder.build(&Vec::new());
    let (header_b, _) = builder.build(&Vec::new());
    assert_ne!(boundary_of(&header_a.1), boundary_of(&header_b.1));
}

#[test]
fn parts_keep_registration_order_files_first() {
    let mut builder = MultiPartFormDataBuilder::new();
    builder.with_file("a.bin", "file_a", "application/octet-stream", "a.bin");
    builder.with_file("b.bin", "file_b", "application/octet-stream", "b.bin");
    builder.with_text("text_c", "cc");
    builder.with_text("text_d", "dd");
    let contents = vec![vec![1u8, 2, 3], vec![4u8, 5, 6]];
    let (_, body) = builder.build(&contents);

    let pos_a = find_subslice(
        &body,
        b"Content-Disposition: form-data; name=\"file_a\"; filename=\"a.bin\"\r\n",
    )
    .unwrap();
    let pos_b = find_subslice(
        &body,
        b"Content-Disposition: form-data; name=\"file_b\"; filename=\"b.bin\"\r\n",
    )
    .unwrap();
    let pos_c = find_subslice(&body, b"Content-Disposition: form-data; name=\"text_c\"\r\n")
        .unwrap();
    let pos_d = find_subslice(&body, b"Content-Disposition: form-data; name=\"text_d\"\r\n")
        .unwrap();
    assert!(pos_a < pos_b);
    assert!(pos_b < pos_c);
    assert!(pos_c < pos_d);
}

#[test]
fn text_field_round_trips_exactly() {
    let mut builder = MultiPartFormDataBuilder::new();
    builder.with_text("name", "some_name");
    let (_, body) = builder.build(&Vec::new());
    let expected = b"Content-Disposition: form-data; name=\"name\"\r\nContent-Type: text/plain\r\nContent-Length: 9\r\n\r\nsome_name\r\n";
    assert!(find_subslice(&body, expected).is_some());
}

#[test]
fn file_content_is_embedded_exactly() {
    let mut builder = MultiPartFormDataBuilder::new();
    builder.with_file("fixture.bin", "fixture", "application/octet-stream", "fixture.bin");
    let data: Vec<u8> = (0u8..=255).collect();
    let contents = vec![data.clone()];
    let (_, body) = builder.build(&contents);

    let mut head = format!("Content-Length: {}\r\n\r\n", data.len()).into_bytes();
    let head_pos = find_subslice(&body, &head).unwrap();
    head.extend(data.iter().copied());
    head.extend(b"\r\n");
    assert_eq!(&body[head_pos..head_pos + head.len()], &head[..]);
}

#[test]
fn empty_builder_body_is_just_the_closing_delimiter() {
    let builder = MultiPartFormDataBuilder::new();
    let (header, body) = builder.build(&Vec::new());
    let boundary = boundary_of(&header.1);
    assert_boundary_shape(&boundary);
    let expected = format!("--{}--\r\n", boundary).into_bytes();
    assert_eq!(body, expected);
}

#[test]
fn build_with_boundary_produces_exact_bytes() {
    let mut builder = MultiPartFormDataBuilder::new();
    builder.with_file("x.txt", "upload", "text/plain", "x.txt");
    builder.with_text("note", "hi");
    let contents = vec![b"abc".to_vec()];
    let (header, body) = builder.build_with_boundary("fixed-boundary", &contents);

    assert_eq!(header.0, "Content-Type");
    assert_eq!(header.1, "multipart/form-data; boundary=fixed-boundary");
    let expected = b"--fixed-boundary\r\n\
Content-Disposition: form-data; name=\"upload\"; filename=\"x.txt\"\r\n\
Content-Type: text/plain\r\n\
Content-Length: 3\r\n\r\n\
abc\r\n\
--fixed-boundary\r\n\
Content-Disposition: form-data; name=\"note\"\r\n\
Content-Type: text/plain\r\n\
Content-Length: 2\r\n\r\n\
hi\r\n\
--fixed-boundary--\r\n";
    assert_eq!(body, expected.to_vec());
}

#[test]
fn content_length_counts_utf8_bytes_of_value() {
    let mut builder = MultiPartFormDataBuilder::new();
    builder.with_text("greeting", "héllo");
    let (_, body) = builder.build(&Vec::new());
    let expected = "Content-Length: 6\r\n\r\nhéllo\r\n".as_bytes();
    assert!(find_subslice(&body, expected).is_some());
}

#[test]
fn empty_names_and_values_are_accepted() {
    let mut builder = MultiPartFormDataBuilder::new();
    builder.with_text("", "");
    let (_, body) = builder.build(&Vec::new());
    let expected = b"Content-Disposition: form-data; name=\"\"\r\nContent-Type: text/plain\r\nContent-Length: 0\r\n\r\n\r\n";
    assert!(find_subslice(&body, expected).is_some());
}
