use checksum_body::algorithm::{
    ChecksumAlgorithm, RequestChecksumCalculation, ResponseChecksumValidation,
};
use checksum_body::body::SizeHint;
use checksum_body::error::{
    RequestChecksumError, UnknownChecksumAlgorithmError, UnknownRequestChecksumCalculationError,
    UnknownResponseChecksumValidationError,
};
use checksum_body::interceptor::{
    add_checksum_for_request_body, ChecksumDecision, HttpRequest, RequestBody,
    RequestChecksumInterceptor, RequestChecksumInterceptorState, SigningOptions,
};

type Override = fn(Option<ChecksumAlgorithm>) -> Option<ChecksumAlgorithm>;

fn interceptor() -> RequestChecksumInterceptor<u8, u8> {
    RequestChecksumInterceptor::new(0, 0)
}

fn header<'a>(req: &'a HttpRequest, name: &str) -> Option<&'a [u8]> {
    req.headers.iter().find(|(n, _)| n == name.as_bytes()).map(|(_, v)| &v[..])
}

fn state(alg: Option<ChecksumAlgorithm>, required: bool) -> RequestChecksumInterceptorState {
    RequestChecksumInterceptorState { checksum_algorithm: alg, request_checksum_required: required }
}

#[test]
fn when_required_and_not_required_leaves_request_unchanged() {
    let mut req = HttpRequest { headers: Vec::new(), body: RequestBody::Bytes(b"Hello world".to_vec()) };
    let mut signing = Some(SigningOptions { streaming_unsigned_payload_trailer: false });
    let r = interceptor().modify_before_signing::<Override>(
        &state(None, false),
        Some(RequestChecksumCalculation::WhenRequired),
        &None,
        &mut req,
        &mut signing,
    );
    assert_eq!(r, Ok(ChecksumDecision::NotCalculated));
    assert!(req.headers.is_empty());
    assert!(matches!(&req.body, RequestBody::Bytes(b) if b == b"Hello world"));
    assert_eq!(signing, Some(SigningOptions { streaming_unsigned_payload_trailer: false }));
}

#[test]
fn buffered_body_gets_crc32_header_by_default() {
    let mut req = HttpRequest { headers: Vec::new(), body: RequestBody::Bytes(b"Hello world".to_vec()) };
    let mut signing = None;
    let r = interceptor().modify_before_signing::<Override>(&state(None, false), None, &None, &mut req, &mut signing);
    assert_eq!(r, Ok(ChecksumDecision::Calculated(ChecksumAlgorithm::Crc32)));
    assert_eq!(header(&req, "x-amz-checksum-crc32"), Some(&b"i9aeUg=="[..]));
}

#[test]
fn buffered_body_sha256_header_is_base64_digest() {
    let mut req = HttpRequest { headers: Vec::new(), body: RequestBody::Bytes(b"abc".to_vec()) };
    let mut signing = None;
    add_checksum_for_request_body(&mut req, ChecksumAlgorithm::Sha256, &mut signing).unwrap();
    assert_eq!(
        header(&req, "x-amz-checksum-sha256"),
        Some(&b"ungWv48Bz+pBQUDeXa4iI7ADYaOWF3qctBD/YfIAFa0="[..])
    );
    let mut req = HttpRequest { headers: Vec::new(), body: RequestBody::Bytes(b"abc".to_vec()) };
    add_checksum_for_request_body(&mut req, ChecksumAlgorithm::Sha1, &mut signing).unwrap();
    assert_eq!(header(&req, "x-amz-checksum-sha1"), Some(&b"qZk+NkcGgWq6PiVxeFDCbJzQ2J0="[..]));
}

#[test]
fn buffered_body_preset_header_is_kept() {
    let mut req = HttpRequest {
        headers: vec![(b"x-amz-checksum-crc32".to_vec(), b"AAAAAA==".to_vec())],
        body: RequestBody::Bytes(b"Hello world".to_vec()),
    };
    let mut signing = None;
    let r = interceptor().modify_before_signing::<Override>(&state(Some(ChecksumAlgorithm::Crc32), true), None, &None, &mut req, &mut signing);
    assert_eq!(r, Ok(ChecksumDecision::Calculated(ChecksumAlgorithm::Crc32)));
    assert_eq!(req.headers, vec![(b"x-amz-checksum-crc32".to_vec(), b"AAAAAA==".to_vec())]);
}

#[test]
fn override_hook_replaces_algorithm() {
    let mut req = HttpRequest { headers: Vec::new(), body: RequestBody::Bytes(b"Hello world".to_vec()) };
    let mut signing = None;
    let hook: Option<Override> = Some(|_| Some(ChecksumAlgorithm::Crc32c));
    let r = interceptor().modify_before_signing(&state(Some(ChecksumAlgorithm::Sha1), false), None, &hook, &mut req, &mut signing);
    assert_eq!(r, Ok(ChecksumDecision::Calculated(ChecksumAlgorithm::Crc32c)));
    assert!(header(&req, "x-amz-checksum-crc32c").is_some());
    assert!(header(&req, "x-amz-checksum-sha1").is_none());
}

#[test]
fn md5_is_skipped() {
    let mut req = HttpRequest { headers: Vec::new(), body: RequestBody::Bytes(b"Hello world".to_vec()) };
    let mut signing = None;
    let r = interceptor().modify_before_signing::<Override>(&state(Some(ChecksumAlgorithm::Md5), true), None, &None, &mut req, &mut signing);
    assert_eq!(r, Ok(ChecksumDecision::Unsupported(ChecksumAlgorithm::Md5)));
    assert!(req.headers.is_empty());
}

#[test]
fn streaming_body_is_wrapped_with_chunked_headers() {
    let mut req = HttpRequest {
        headers: vec![(b"Content-Length".to_vec(), b"11".to_vec())],
        body: RequestBody::Streaming(SizeHint { lower: 11, upper: Some(11) }),
    };
    let mut signing = Some(SigningOptions { streaming_unsigned_payload_trailer: false });
    let r = interceptor().modify_before_signing::<Override>(&state(None, false), Some(RequestChecksumCalculation::WhenSupported), &None, &mut req, &mut signing);
    assert_eq!(r, Ok(ChecksumDecision::Calculated(ChecksumAlgorithm::Crc32)));
    assert_eq!(
        req.headers,
        vec![
            (b"x-amz-trailer".to_vec(), b"x-amz-checksum-crc32".to_vec()),
            (b"content-length".to_vec(), b"52".to_vec()),
            (b"x-amz-decoded-content-length".to_vec(), b"11".to_vec()),
            (b"content-encoding".to_vec(), b"aws-chunked".to_vec()),
        ]
    );
    assert!(matches!(req.body, RequestBody::AwsChunked(..)));
    assert_eq!(signing, Some(SigningOptions { streaming_unsigned_payload_trailer: true }));
}

#[test]
fn unsized_streaming_body_fails_untouched() {
    let mut req = HttpRequest {
        headers: Vec::new(),
        body: RequestBody::Streaming(SizeHint { lower: 0, upper: None }),
    };
    let mut signing = Some(SigningOptions { streaming_unsigned_payload_trailer: false });
    let r = interceptor().modify_before_signing::<Override>(&state(None, true), None, &None, &mut req, &mut signing);
    assert_eq!(r, Err(RequestChecksumError::UnsizedRequestBody));
    assert!(req.headers.is_empty());
    assert!(matches!(req.body, RequestBody::Streaming(_)));
    assert_eq!(signing, Some(SigningOptions { streaming_unsigned_payload_trailer: false }));
}

#[test]
fn streaming_body_with_preset_header_stays_unchunked() {
    let mut req = HttpRequest {
        headers: vec![(b"x-amz-checksum-crc32".to_vec(), b"preset".to_vec())],
        body: RequestBody::Streaming(SizeHint { lower: 0, upper: None }),
    };
    let mut signing = None;
    let r = interceptor().modify_before_signing::<Override>(&state(None, true), None, &None, &mut req, &mut signing);
    assert_eq!(r, Ok(ChecksumDecision::Calculated(ChecksumAlgorithm::Crc32)));
    assert_eq!(req.headers.len(), 1);
    assert!(matches!(req.body, RequestBody::Streaming(_)));
}

#[test]
fn first_phase_runs_mutator_then_provider() {
    let i = RequestChecksumInterceptor::new(
        |input: &String| -> Result<(Option<ChecksumAlgorithm>, bool), String> {
            Ok((ChecksumAlgorithm::from_name(input).ok(), true))
        },
        |input: String| -> (String, Result<(), String>) { (input.to_lowercase(), Ok(())) },
    );
    let (input, st) = i.modify_before_serialization::<String, String>("SHA256".to_string()).unwrap();
    assert_eq!(input, "sha256");
    assert_eq!(st, state(Some(ChecksumAlgorithm::Sha256), true));

    let failing = RequestChecksumInterceptor::new(
        |_: &String| -> Result<(Option<ChecksumAlgorithm>, bool), String> { Err("no".into()) },
        |input: String| -> (String, Result<(), String>) { (input, Ok(())) },
    );
    assert_eq!(failing.modify_before_serialization::<String, String>("x".into()).unwrap_err(), "no");
    assert_eq!(i.name(), "RequestChecksumInterceptor");
}

#[test]
fn first_phase_aborts_when_mutator_fails() {
    let i = RequestChecksumInterceptor::new(
        |_: &String| -> Result<(Option<ChecksumAlgorithm>, bool), String> {
            panic!("the provider must not be asked")
        },
        |input: String| -> (String, Result<(), String>) { (input, Err("bad input".into())) },
    );
    assert_eq!(i.modify_before_serialization::<String, String>("x".into()).unwrap_err(), "bad input");
}

#[test]
fn read_after_serialization_defaults_to_when_supported() {
    assert_eq!(interceptor().read_after_serialization(None), RequestChecksumCalculation::WhenSupported);
    assert_eq!(
        interceptor().read_after_serialization(Some(RequestChecksumCalculation::WhenRequired)),
        RequestChecksumCalculation::WhenRequired
    );
}

#[test]
fn algorithm_names_parse_ignoring_case() {
    assert_eq!(ChecksumAlgorithm::from_name("crc32").unwrap(), ChecksumAlgorithm::Crc32);
    assert_eq!(ChecksumAlgorithm::from_name("CRC32C").unwrap(), ChecksumAlgorithm::Crc32c);
    assert_eq!(ChecksumAlgorithm::from_name("Sha1").unwrap(), ChecksumAlgorithm::Sha1);
    assert_eq!(ChecksumAlgorithm::from_name("sha256").unwrap(), ChecksumAlgorithm::Sha256);
    assert_eq!(ChecksumAlgorithm::from_name("md5").unwrap(), ChecksumAlgorithm::Md5);
    let e: UnknownChecksumAlgorithmError = ChecksumAlgorithm::from_name("sha512").unwrap_err();
    assert_eq!(e.checksum_algorithm(), "sha512");
}

#[test]
fn policies_parse_ignoring_case() {
    assert_eq!(RequestChecksumCalculation::from_name("WHEN_SUPPORTED").unwrap(), RequestChecksumCalculation::WhenSupported);
    assert_eq!(RequestChecksumCalculation::from_name("when_required").unwrap(), RequestChecksumCalculation::WhenRequired);
    let e: UnknownRequestChecksumCalculationError = RequestChecksumCalculation::from_name("always").unwrap_err();
    assert_eq!(e.request_checksum_calculation(), "always");
    assert_eq!(ResponseChecksumValidation::from_name("When_Required").unwrap(), ResponseChecksumValidation::WhenRequired);
    let e: UnknownResponseChecksumValidationError = ResponseChecksumValidation::from_name("never").unwrap_err();
    assert_eq!(e.response_checksum_validation(), "never");
}

#[test]
fn error_constructors_keep_their_value() {
    assert_eq!(UnknownChecksumAlgorithmError::new("x").checksum_algorithm(), "x");
    assert_eq!(UnknownRequestChecksumCalculationError::new("y").request_checksum_calculation(), "y");
    assert_eq!(UnknownResponseChecksumValidationError::new("z").response_checksum_validation(), "z");
}
