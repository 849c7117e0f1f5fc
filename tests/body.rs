use checksum_body::algorithm::ChecksumAlgorithm;
use checksum_body::checksum::Checksum;
use checksum_body::body::{ChecksumBody, ChecksumValidatedBody, Pull, SizeHint, ValidationError};
use checksum_body::error::Error;

fn crc32_bytes(input: &[u8]) -> Vec<u8> {
    crc32fast::hash(input).to_be_bytes().to_vec()
}

fn header_value_as_checksum_string(value: &[u8]) -> String {
    let decoded = aws_smithy_types::base64::decode(std::str::from_utf8(value).unwrap()).unwrap();
    let hex = decoded.iter().map(|b| format!("{:02X?}", b)).collect::<String>();
    format!("0x{}", hex)
}

fn drain_writer(body: &mut ChecksumBody, chunks: &[&[u8]]) -> Vec<u8> {
    let mut out = Vec::new();
    for c in chunks {
        match body.poll_data::<()>(Pull::Data(c.to_vec())) {
            Pull::Data(d) => out.extend_from_slice(&d),
            _ => panic!("a chunk must pass through"),
        }
    }
    out
}

#[test]
fn test_checksum_body() {
    let input_text = "This is some test text for an SdkBody";
    let mut body = ChecksumBody::new("crc32");
    let output = drain_writer(&mut body, &[input_text.as_bytes()]);
    assert_eq!(input_text.as_bytes(), &output[..]);
    let trailers = body.poll_trailers(None);
    let checksum_trailer = trailers
        .iter()
        .find(|(n, _)| n == b"x-amz-checksum-crc32")
        .expect("trailers contain crc32 checksum");
    assert_eq!("0x99B01F72", header_value_as_checksum_string(&checksum_trailer.1));
}

#[test]
fn test_checksum_validated_body_errors_on_mismatch() {
    let input_text = "This is some test text for an SdkBody";
    let actual_checksum = crc32_bytes(input_text.as_bytes());
    let non_matching_checksum = vec![0x00, 0x00, 0x00, 0x00];
    let mut body = ChecksumValidatedBody::new("crc32", non_matching_checksum.clone());
    let pulls: Vec<Pull<()>> = vec![Pull::Data(input_text.as_bytes().to_vec()), Pull::Done];
    for p in pulls {
        match body.poll_data(p) {
            Pull::Data(_) => {}
            Pull::Failed(ValidationError::Checksum(e)) => {
                let expected_error_message = format!(
                    "body checksum mismatch. expected body checksum to be {:x} but it was {:x}",
                    bytes::Bytes::from(non_matching_checksum.clone()),
                    bytes::Bytes::from(actual_checksum.clone())
                );
                let actual_error_message = e.message();
                assert_eq!(expected_error_message, actual_error_message);
                assert_eq!(
                    e,
                    Error::ChecksumMismatch { expected: non_matching_checksum, actual: actual_checksum }
                );
                return;
            }
            _ => break,
        }
    }
    panic!("didn't hit expected error condition");
}

#[test]
fn test_checksum_validated_body_succeeds_on_match() {
    let input_text = "This is some test text for an SdkBody";
    let actual_checksum = crc32_bytes(input_text.as_bytes());
    let mut body = ChecksumValidatedBody::new("crc32", actual_checksum);
    let mut output = Vec::new();
    match body.poll_data::<()>(Pull::Data(input_text.as_bytes().to_vec())) {
        Pull::Data(d) => output.extend_from_slice(&d),
        _ => panic!("a chunk must pass through"),
    }
    assert!(matches!(body.poll_data::<()>(Pull::Done), Pull::Done));
    assert_eq!(input_text.as_bytes(), &output[..]);
}

#[test]
fn test_trailer_length_of_crc32_checksum_body() {
    let body = ChecksumBody::new("crc32");
    assert_eq!(29, body.trailer_length());
}

#[test]
fn test_trailer_length_of_crc32c_checksum_body() {
    let body = ChecksumBody::new("crc32c");
    assert_eq!(30, body.trailer_length());
}

#[test]
fn test_trailer_length_of_sha1_checksum_body() {
    let body = ChecksumBody::new("sha1");
    assert_eq!(48, body.trailer_length());
}

#[test]
fn test_trailer_length_of_sha256_checksum_body() {
    let body = ChecksumBody::new("sha256");
    assert_eq!(66, body.trailer_length());
}

#[test]
fn writer_digest_does_not_depend_on_segmentation() {
    let input = b"This is some test text for an SdkBody";
    let mut whole = ChecksumBody::new("sha256");
    drain_writer(&mut whole, &[&input[..]]);
    let mut split = ChecksumBody::new("sha256");
    let out = drain_writer(&mut split, &[&input[..5], &input[5..20], b"", &input[20..]]);
    assert_eq!(&out[..], &input[..]);
    let a = whole.poll_trailers(None);
    let b = split.poll_trailers(None);
    assert_eq!(a, b);
    assert_eq!(a[0].0, b"x-amz-checksum-sha256".to_vec());
}

#[test]
fn writer_passes_pending_and_failures_through() {
    let mut body = ChecksumBody::new("crc32");
    assert!(matches!(body.poll_data::<u8>(Pull::Pending), Pull::Pending));
    assert!(matches!(body.poll_data::<u8>(Pull::Failed(7)), Pull::Failed(7)));
    assert!(matches!(body.poll_data::<u8>(Pull::Done), Pull::Done));
}

#[test]
fn writer_merges_inner_trailers_and_inner_wins() {
    let mut body = ChecksumBody::new("crc32");
    drain_writer(&mut body, &[b"Hello world"]);
    let inner = vec![(b"x-amz-checksum-crc32".to_vec(), b"preset".to_vec())];
    let t = body.poll_trailers(Some(inner.clone()));
    assert_eq!(t, inner);

    let mut body = ChecksumBody::new("crc32");
    drain_writer(&mut body, &[b"Hello world"]);
    let inner = vec![(b"other".to_vec(), b"x".to_vec())];
    let t = body.poll_trailers(Some(inner));
    assert_eq!(
        t,
        vec![
            (b"other".to_vec(), b"x".to_vec()),
            (b"x-amz-checksum-crc32".to_vec(), b"i9aeUg==".to_vec())
        ]
    );
}

#[test]
fn writer_size_hint_adds_trailer_size() {
    let body = ChecksumBody::new("crc32");
    let exact = body.size_hint(SizeHint { lower: 11, upper: Some(11) });
    assert_eq!(exact, SizeHint { lower: 40, upper: Some(40) });
    let open = body.size_hint(SizeHint { lower: 3, upper: None });
    assert_eq!(open, SizeHint { lower: 32, upper: None });
}

#[test]
fn validated_body_never_reports_end_of_stream() {
    let body = ChecksumValidatedBody::new("crc32", vec![0, 0, 0, 0]);
    assert!(!body.is_end_stream());
}

#[test]
fn validated_body_keeps_failing_after_mismatch() {
    let mut body = ChecksumValidatedBody::new("crc32c", vec![1, 2, 3, 4]);
    body.poll_data::<()>(Pull::Data(b"abc".to_vec()));
    for _ in 0..2 {
        match body.poll_data::<()>(Pull::Done) {
            Pull::Failed(ValidationError::Checksum(Error::ChecksumMismatch { expected, actual })) => {
                assert_eq!(expected, vec![1, 2, 3, 4]);
                assert_eq!(actual, crc32c::crc32c(b"abc").to_be_bytes().to_vec());
            }
            _ => panic!("the mismatch must be reported"),
        }
    }
}

#[test]
fn validated_body_passes_inner_failure() {
    let mut body = ChecksumValidatedBody::new("sha1", vec![]);
    assert!(matches!(body.poll_data::<u8>(Pull::Failed(3)), Pull::Failed(ValidationError::Inner(3))));
    assert!(matches!(body.poll_data::<u8>(Pull::Pending), Pull::Pending));
}

#[test]
fn checksum_accumulates_in_order_and_finalizes() {
    let mut c = Checksum::new(ChecksumAlgorithm::Crc32);
    c.update(b"Hello ");
    c.update(b"world");
    assert_eq!(c.size(), 29);
    assert_eq!(c.header_name(), b"x-amz-checksum-crc32".to_vec());
    assert_eq!(c.finalize(), vec![0x8b, 0xd6, 0x9e, 0x52]);

    let mut c = Checksum::new(ChecksumAlgorithm::Sha256);
    c.update(b"ab");
    c.update(b"c");
    let digest = c.finalize();
    assert_eq!(digest.len(), 32);
    assert_eq!(&digest[..4], &[0xba, 0x78, 0x16, 0xbf]);

    let mut c = Checksum::new(ChecksumAlgorithm::Crc32c);
    c.update(b"Hello world!");
    assert_eq!(c.header_value(), aws_smithy_types::base64::encode(0x7B98E751u32.to_be_bytes()).into_bytes());
}

#[test]
fn md5_validates_response_bodies() {
    let data = b"The quick brown fox jumps over the lazy dog";
    let md5 = vec![
        0x9e, 0x10, 0x7d, 0x9d, 0x37, 0x2b, 0xb6, 0x82, 0x6b, 0xd8, 0x1d, 0x35, 0x42, 0xa4, 0x19, 0xd6,
    ];
    let mut body = ChecksumValidatedBody::new("md5", md5.clone());
    body.poll_data::<()>(Pull::Data(data[..9].to_vec()));
    body.poll_data::<()>(Pull::Data(data[9..].to_vec()));
    assert!(matches!(body.poll_data::<()>(Pull::Done), Pull::Done));

    let mut body = ChecksumValidatedBody::new("MD5", vec![0; 16]);
    body.poll_data::<()>(Pull::Data(data.to_vec()));
    match body.poll_data::<()>(Pull::Done) {
        Pull::Failed(ValidationError::Checksum(Error::ChecksumMismatch { actual, .. })) => assert_eq!(actual, md5),
        _ => panic!("the mismatch must be reported"),
    }
}

#[test]
fn mismatch_message_is_lower_hex() {
    let e = Error::ChecksumMismatch { expected: vec![0xAB, 0x01], actual: vec![] };
    assert_eq!(e.message(), "body checksum mismatch. expected body checksum to be ab01 but it was ");
}
