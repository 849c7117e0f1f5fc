use checksum_body::body::{ChecksumBody, Pull, SizeHint};
use checksum_body::algorithm::ChecksumAlgorithm;
use checksum_body::chunked::{AwsChunkedBody, AwsChunkedBodyOptions};
use checksum_body::error::{ChunkedError, RequestChecksumError};
use checksum_body::interceptor::{
    wrap_streaming_request_body_in_checksum_calculating_body, HttpRequest, RequestBody,
};

fn drain(body: &mut AwsChunkedBody, chunks: &[&[u8]]) -> Vec<u8> {
    let mut out = Vec::new();
    for c in chunks {
        match body.poll_data::<()>(Pull::Data(c.to_vec())) {
            Pull::Data(d) => out.extend_from_slice(&d),
            _ => panic!("a chunk must be framed"),
        }
    }
    out.extend_from_slice(&body.finish(None).unwrap());
    out
}

fn streaming_request(len: u64) -> HttpRequest {
    HttpRequest {
        headers: Vec::new(),
        body: RequestBody::Streaming(SizeHint { lower: len, upper: Some(len) }),
    }
}

#[test]
fn test_checksum_body_is_retryable() {
    let input_text = "Hello world";
    let chunk_len_hex = format!("{:X}", input_text.len());
    let mut request = streaming_request(input_text.len() as u64);
    let checksum_algorithm = checksum_body::algorithm::ChecksumAlgorithm::from_name("crc32").unwrap();
    wrap_streaming_request_body_in_checksum_calculating_body(&mut request, checksum_algorithm).unwrap();
    let body = match &mut request.body {
        RequestBody::AwsChunked(b, _) => b,
        _ => panic!("body is wrapped"),
    };
    let out = drain(body, &[input_text.as_bytes()]);
    let body = std::str::from_utf8(&out).unwrap();
    assert_eq!(
        format!("{chunk_len_hex}\r\n{input_text}\r\n0\r\nx-amz-checksum-crc32:i9aeUg==\r\n\r\n"),
        body
    );
}

#[test]
fn test_checksum_body_from_file_is_retryable() {
    let checksum_algorithm = checksum_body::algorithm::ChecksumAlgorithm::from_name("crc32c").unwrap();
    let mut data = Vec::new();
    let mut crc: u32 = 0;
    for i in 0..10000 {
        let line = format!("This is a large file created for testing purposes {}", i);
        data.extend_from_slice(line.as_bytes());
        crc = crc32c::crc32c_append(crc, line.as_bytes());
    }
    let mut request = streaming_request(data.len() as u64);
    wrap_streaming_request_body_in_checksum_calculating_body(&mut request, checksum_algorithm).unwrap();
    let body = match &mut request.body {
        RequestBody::AwsChunked(b, _) => b,
        _ => panic!("body is wrapped"),
    };
    let chunks: Vec<&[u8]> = data.chunks(1024).collect();
    let out = drain(body, &chunks);
    let body = std::str::from_utf8(&out).unwrap();
    let expected_checksum = aws_smithy_types::base64::encode(crc.to_be_bytes());
    let expected = format!("This is a large file created for testing purposes 9999\r\n0\r\nx-amz-checksum-crc32c:{expected_checksum}\r\n\r\n");
    assert!(body.ends_with(&expected), "expected {body} to end with '{expected}'");
}

#[test]
fn hello_world_frames_exactly() {
    let options = AwsChunkedBodyOptions::new(11, vec![29]);
    let mut body = AwsChunkedBody::new(ChecksumBody::new("crc32"), options);
    let declared = body.encoded_length().unwrap();
    let out = drain(&mut body, &[b"Hello world"]);
    assert_eq!(out, b"B\r\nHello world\r\n0\r\nx-amz-checksum-crc32:i9aeUg==\r\n\r\n".to_vec());
    assert_eq!(declared, out.len() as u64);
    assert_eq!(declared, 52);
}

#[test]
fn declared_length_matches_for_each_algorithm_and_size() {
    for name in ["crc32", "crc32c", "sha1", "sha256"] {
        for len in [0usize, 1, 15, 16, 255, 256, 4096, 70000] {
            let data = vec![b'x'; len];
            let writer = ChecksumBody::new(name);
            let options = AwsChunkedBodyOptions::new(len as u64, vec![writer.trailer_length()]);
            let mut body = AwsChunkedBody::new(writer, options);
            let declared = body.encoded_length().unwrap();
            let chunks: Vec<&[u8]> = data.chunks(7).collect();
            let out = drain(&mut body, &chunks);
            assert_eq!(declared, out.len() as u64, "{name} {len}");
        }
    }
}

#[test]
fn empty_body_frames_to_terminator_and_trailer() {
    let options = AwsChunkedBodyOptions::new(0, vec![29]);
    let mut body = AwsChunkedBody::new(ChecksumBody::new("crc32"), options);
    let out = drain(&mut body, &[]);
    assert_eq!(out, b"0\r\nx-amz-checksum-crc32:AAAAAA==\r\n\r\n".to_vec());
    assert_eq!(body.encoded_length(), Some(out.len() as u64));
}

#[test]
fn encoded_length_sums_several_trailers() {
    let options = AwsChunkedBodyOptions::new(11, vec![29, 10]);
    assert_eq!(options.encoded_length(), Some(16 + 3 + 31 + 12 + 2));
}

#[test]
fn encoded_length_overflow_is_none() {
    let options = AwsChunkedBodyOptions::new(u64::MAX - 10, vec![29]);
    assert_eq!(options.encoded_length(), None);
}

#[test]
fn framer_passes_pending_and_failures() {
    let options = AwsChunkedBodyOptions::new(11, vec![29]);
    let mut body = AwsChunkedBody::new(ChecksumBody::new("crc32"), options);
    assert!(matches!(body.poll_data::<u8>(Pull::Pending), Pull::Pending));
    assert!(matches!(body.poll_data::<u8>(Pull::Failed(5)), Pull::Failed(5)));
}

/// Reads an `aws-chunked` encoding back into its payload and trailers.
fn dechunk(s: &[u8]) -> (Vec<u8>, Vec<(Vec<u8>, Vec<u8>)>) {
    let mut pos = 0;
    let mut payload = Vec::new();
    loop {
        let line_end = pos + s[pos..].windows(2).position(|w| w == b"\r\n").unwrap();
        let n = usize::from_str_radix(std::str::from_utf8(&s[pos..line_end]).unwrap(), 16).unwrap();
        pos = line_end + 2;
        if n == 0 {
            break;
        }
        payload.extend_from_slice(&s[pos..pos + n]);
        assert_eq!(&s[pos + n..pos + n + 2], b"\r\n");
        pos += n + 2;
    }
    let mut trailers = Vec::new();
    while &s[pos..] != b"\r\n" {
        let line_end = pos + s[pos..].windows(2).position(|w| w == b"\r\n").unwrap();
        let line = &s[pos..line_end];
        let colon = line.iter().position(|b| *b == b':').unwrap();
        trailers.push((line[..colon].to_vec(), line[colon + 1..].to_vec()));
        pos = line_end + 2;
    }
    (payload, trailers)
}

#[test]
fn round_trip_for_any_segmentation() {
    let data: Vec<u8> = (0..5000u32).map(|i| (i * 7 % 251) as u8).collect();
    for name in ["crc32", "crc32c", "sha1", "sha256"] {
        let mut trailers_seen = Vec::new();
        for size in [1usize, 3, 16, 1000, 4999, 5000] {
            let writer = ChecksumBody::new(name);
            let options = AwsChunkedBodyOptions::new(data.len() as u64, vec![writer.trailer_length()]);
            let mut body = AwsChunkedBody::new(writer, options);
            let chunks: Vec<&[u8]> = data.chunks(size).collect();
            let out = drain(&mut body, &chunks);
            let (payload, trailers) = dechunk(&out);
            assert_eq!(payload, data);
            assert_eq!(trailers.len(), 1);
            trailers_seen.push(trailers);
        }
        assert!(trailers_seen.windows(2).all(|w| w[0] == w[1]));
    }
}

#[test]
fn streamed_trailer_matches_independent_digest() {
    let data = b"The quick brown fox jumps over the lazy dog";
    let writer = ChecksumBody::new("crc32c");
    let options = AwsChunkedBodyOptions::new(data.len() as u64, vec![writer.trailer_length()]);
    let mut body = AwsChunkedBody::new(writer, options);
    let out = drain(&mut body, &[&data[..10], &data[10..]]);
    let (payload, trailers) = dechunk(&out);
    assert_eq!(&payload[..], &data[..]);
    let expected = aws_smithy_types::base64::encode(crc32c::crc32c(&payload).to_be_bytes());
    assert_eq!(trailers, vec![(b"x-amz-checksum-crc32c".to_vec(), expected.into_bytes())]);
}

#[test]
fn inner_trailers_are_framed_before_the_checksum() {
    let options = AwsChunkedBodyOptions::new(2, vec![4, 29]);
    let mut body = AwsChunkedBody::new(ChecksumBody::new("crc32"), options);
    body.poll_data::<()>(Pull::Data(b"hi".to_vec()));
    let end = body.finish(Some(vec![(b"a".to_vec(), b"bc".to_vec())])).unwrap();
    let mut expected = b"\r\n0\r\na:bc\r\nx-amz-checksum-crc32:".to_vec();
    expected.extend_from_slice(aws_smithy_types::base64::encode(crc32fast::hash(b"hi").to_be_bytes()).as_bytes());
    expected.extend_from_slice(b"\r\n\r\n");
    assert_eq!(end, expected);
}

#[test]
fn several_chunks_are_sent_as_one() {
    let options = AwsChunkedBodyOptions::new(11, vec![29]);
    let mut body = AwsChunkedBody::new(ChecksumBody::new("crc32"), options);
    let out = drain(&mut body, &[b"Hello", b" ", b"world"]);
    assert_eq!(out, b"B\r\nHello world\r\n0\r\nx-amz-checksum-crc32:i9aeUg==\r\n\r\n".to_vec());
    assert_eq!(body.encoded_length(), Some(out.len() as u64));
}

#[test]
fn stream_length_mismatch_is_reported() {
    let options = AwsChunkedBodyOptions::new(12, vec![29]);
    let mut body = AwsChunkedBody::new(ChecksumBody::new("crc32"), options);
    body.poll_data::<()>(Pull::Data(b"Hello world".to_vec()));
    assert_eq!(
        body.finish(None),
        Err(ChunkedError::StreamLengthMismatch { stream_length: 12, received: 11 })
    );
}

#[test]
fn in_memory_body_is_wrapped_with_its_length() {
    let mut request = HttpRequest { headers: Vec::new(), body: RequestBody::Bytes(b"Hello world".to_vec()) };
    wrap_streaming_request_body_in_checksum_calculating_body(&mut request, ChecksumAlgorithm::Crc32).unwrap();
    assert!(request.headers.contains(&(b"content-length".to_vec(), b"52".to_vec())));
    assert!(request.headers.contains(&(b"x-amz-decoded-content-length".to_vec(), b"11".to_vec())));
    match &request.body {
        RequestBody::AwsChunked(b, inner) => {
            assert_eq!(b.encoded_length(), Some(52));
            assert!(matches!(&**inner, RequestBody::Bytes(d) if d == b"Hello world"));
        }
        _ => panic!("body is wrapped"),
    }
}

#[test]
fn unsized_body_is_refused() {
    let mut request = HttpRequest {
        headers: Vec::new(),
        body: RequestBody::Streaming(SizeHint { lower: 3, upper: Some(9) }),
    };
    assert_eq!(
        wrap_streaming_request_body_in_checksum_calculating_body(&mut request, ChecksumAlgorithm::Crc32),
        Err(RequestChecksumError::UnsizedRequestBody)
    );
    assert!(request.headers.is_empty());
}
