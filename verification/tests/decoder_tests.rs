use token_result::abi::{DecodeSpec, ParamKind, MAX_NESTING};
use token_result::decoder::{
    resolve_bytes, step_pending, ByteFuture, BytePoll, DecodeError, QueryTokensResult, StepResult,
    TransportError,
};

/// A byte source that replays a fixed script of poll reports, then stays
/// not-ready.
struct ScriptedSource {
    script: Vec<BytePoll>,
}

impl ScriptedSource {
    fn new(script: Vec<BytePoll>) -> Self {
        ScriptedSource { script }
    }
}

impl ByteFuture for ScriptedSource {
    fn poll_bytes(&mut self) -> BytePoll {
        if self.script.is_empty() {
            BytePoll::Pending
        } else {
            self.script.remove(0)
        }
    }
}

/// A 32-byte big-endian word holding the given small integer.
fn uint_word(v: u8) -> Vec<u8> {
    let mut word = vec![0u8; 32];
    word[31] = v;
    word
}

fn transport(message: &str) -> TransportError {
    TransportError { message: message.to_string() }
}

fn uint256_spec() -> DecodeSpec {
    DecodeSpec { kinds: vec![ParamKind::Uint(256)] }
}

#[test]
fn precomputed_error_short_circuit() {
    let mut decoder = QueryTokensResult::<ScriptedSource>::from_error(DecodeError::Transport(
        transport("argument encoding failed"),
    ));
    match decoder.drive() {
        StepResult::Ready(Err(DecodeError::Transport(e))) => {
            assert_eq!(e.message, "argument encoding failed");
        }
        other => panic!("expected the precomputed error, got {:?}", other),
    }
}

#[test]
fn precomputed_error_is_delivered_once() {
    let mut decoder =
        QueryTokensResult::<ScriptedSource>::from_error(DecodeError::Transport(transport("boom")));
    assert!(matches!(
        decoder.drive(),
        StepResult::Ready(Err(DecodeError::Transport(_)))
    ));
    assert!(matches!(
        decoder.drive(),
        StepResult::Ready(Err(DecodeError::PolledAfterCompletion))
    ));
}

#[test]
fn not_ready_stability() {
    let source = ScriptedSource::new(vec![BytePoll::Pending, BytePoll::Pending, BytePoll::Pending]);
    let mut decoder = QueryTokensResult::new(source, uint256_spec());
    for _ in 0..3 {
        assert!(matches!(decoder.drive(), StepResult::NotReady));
    }
    // Still pending: a later completion is delivered normally.
    let source = ScriptedSource::new(vec![BytePoll::Pending, BytePoll::Ready(uint_word(9))]);
    let mut decoder = QueryTokensResult::new(source, uint256_spec());
    assert!(matches!(decoder.drive(), StepResult::NotReady));
    match decoder.drive() {
        StepResult::Ready(Ok(tokens)) => {
            assert_eq!(tokens, vec![ethabi::Token::Uint(ethabi::Uint::from(9u8))]);
        }
        other => panic!("expected decoded tokens, got {:?}", other),
    }
}

#[test]
fn decode_success_uint256() {
    let source = ScriptedSource::new(vec![BytePoll::Ready(uint_word(7))]);
    let mut decoder = QueryTokensResult::new(source, uint256_spec());
    match decoder.drive() {
        StepResult::Ready(Ok(tokens)) => {
            assert_eq!(tokens, vec![ethabi::Token::Uint(ethabi::Uint::from(7u8))]);
        }
        other => panic!("expected decoded tokens, got {:?}", other),
    }
    // Driving past completion is a protocol violation, not a second outcome.
    assert!(matches!(
        decoder.drive(),
        StepResult::Ready(Err(DecodeError::PolledAfterCompletion))
    ));
}

#[test]
fn decode_failure_short_buffer() {
    // The specification expects a 32-byte word; only 4 bytes arrive.
    let source = ScriptedSource::new(vec![BytePoll::Ready(vec![0u8, 0, 0, 1])]);
    let mut decoder = QueryTokensResult::new(source, uint256_spec());
    assert!(matches!(
        decoder.drive(),
        StepResult::Ready(Err(DecodeError::Abi(_)))
    ));
    assert!(matches!(
        decoder.drive(),
        StepResult::Ready(Err(DecodeError::PolledAfterCompletion))
    ));
}

#[test]
fn transport_error_passthrough() {
    let source = ScriptedSource::new(vec![BytePoll::Failed(transport("connection reset"))]);
    let mut decoder = QueryTokensResult::new(source, uint256_spec());
    match decoder.drive() {
        StepResult::Ready(Err(DecodeError::Transport(e))) => {
            assert_eq!(e.message, "connection reset");
        }
        other => panic!("expected the transport error, got {:?}", other),
    }
    assert!(matches!(
        decoder.drive(),
        StepResult::Ready(Err(DecodeError::PolledAfterCompletion))
    ));
}

#[test]
fn end_to_end_uint256_after_one_not_ready() {
    let source = ScriptedSource::new(vec![BytePoll::Pending, BytePoll::Ready(uint_word(1))]);
    let mut decoder = QueryTokensResult::new(source, uint256_spec());
    assert!(matches!(decoder.drive(), StepResult::NotReady));
    match decoder.drive() {
        StepResult::Ready(Ok(tokens)) => {
            assert_eq!(tokens, vec![ethabi::Token::Uint(ethabi::Uint::from(1u8))]);
        }
        other => panic!("expected Ready(Ok([Uint(1)])), got {:?}", other),
    }
}

#[test]
fn resolve_bytes_decodes_several_kinds() {
    let spec = DecodeSpec { kinds: vec![ParamKind::Bool, ParamKind::Address] };
    let mut bytes = uint_word(1);
    let mut address_word = vec![0u8; 12];
    address_word.extend_from_slice(&[0x11u8; 20]);
    bytes.extend_from_slice(&address_word);
    let tokens = resolve_bytes(&spec, &bytes).expect("decoding should succeed");
    assert_eq!(
        tokens,
        vec![
            ethabi::Token::Bool(true),
            ethabi::Token::Address(ethabi::Address::from([0x11u8; 20])),
        ]
    );
}

#[test]
fn resolve_bytes_decodes_a_string() {
    let spec = DecodeSpec { kinds: vec![ParamKind::Str] };
    let mut bytes = uint_word(0x20); // offset of the dynamic part
    bytes.extend_from_slice(&uint_word(5)); // length
    let mut data = b"hello".to_vec();
    data.resize(32, 0u8); // right-padded payload
    bytes.extend_from_slice(&data);
    let tokens = resolve_bytes(&spec, &bytes).expect("decoding should succeed");
    assert_eq!(tokens, vec![ethabi::Token::String("hello".to_string())]);
}

#[test]
fn resolve_bytes_empty_spec_empty_buffer() {
    let spec = DecodeSpec { kinds: vec![] };
    let tokens = resolve_bytes(&spec, &vec![]).expect("decoding nothing should succeed");
    assert_eq!(tokens, Vec::<ethabi::Token>::new());
}

#[test]
fn step_pending_reports_each_event() {
    let spec = uint256_spec();
    assert!(matches!(
        step_pending(&spec, BytePoll::Pending),
        StepResult::NotReady
    ));
    match step_pending(&spec, BytePoll::Ready(uint_word(3))) {
        StepResult::Ready(Ok(tokens)) => {
            assert_eq!(tokens, vec![ethabi::Token::Uint(ethabi::Uint::from(3u8))]);
        }
        other => panic!("expected decoded tokens, got {:?}", other),
    }
    match step_pending(&spec, BytePoll::Failed(transport("timed out"))) {
        StepResult::Ready(Err(DecodeError::Transport(e))) => {
            assert_eq!(e.message, "timed out");
        }
        other => panic!("expected the transport error, got {:?}", other),
    }
}

#[test]
fn decode_array_of_uint256() {
    let spec = DecodeSpec { kinds: vec![ParamKind::Array(Box::new(ParamKind::Uint(256)))] };
    let mut bytes = uint_word(0x20); // offset of the dynamic part
    bytes.extend_from_slice(&uint_word(2)); // element count
    bytes.extend_from_slice(&uint_word(5));
    bytes.extend_from_slice(&uint_word(6));
    let tokens = resolve_bytes(&spec, &bytes).expect("decoding should succeed");
    assert_eq!(
        tokens,
        vec![ethabi::Token::Array(vec![
            ethabi::Token::Uint(ethabi::Uint::from(5u8)),
            ethabi::Token::Uint(ethabi::Uint::from(6u8)),
        ])]
    );
}

#[test]
fn decode_fixed_array_of_uint256() {
    let spec = DecodeSpec { kinds: vec![ParamKind::FixedArray(Box::new(ParamKind::Uint(256)), 2)] };
    let mut bytes = uint_word(3);
    bytes.extend_from_slice(&uint_word(4));
    let tokens = resolve_bytes(&spec, &bytes).expect("decoding should succeed");
    assert_eq!(
        tokens,
        vec![ethabi::Token::FixedArray(vec![
            ethabi::Token::Uint(ethabi::Uint::from(3u8)),
            ethabi::Token::Uint(ethabi::Uint::from(4u8)),
        ])]
    );
}

#[test]
fn decode_static_tuple() {
    let spec = DecodeSpec {
        kinds: vec![ParamKind::Tuple(vec![ParamKind::Bool, ParamKind::Uint(256)])],
    };
    let mut bytes = uint_word(1);
    bytes.extend_from_slice(&uint_word(9));
    let tokens = resolve_bytes(&spec, &bytes).expect("decoding should succeed");
    assert_eq!(
        tokens,
        vec![ethabi::Token::Tuple(vec![
            ethabi::Token::Bool(true),
            ethabi::Token::Uint(ethabi::Uint::from(9u8)),
        ])]
    );
}

/// A chain of `n` array kinds around a boolean element.
fn nested_array_kind(n: usize) -> ParamKind {
    let mut kind = ParamKind::Bool;
    for _ in 0..n {
        kind = ParamKind::Array(Box::new(kind));
    }
    kind
}

#[test]
fn well_formed_accepts_nesting_within_the_bound() {
    let spec = DecodeSpec { kinds: vec![nested_array_kind(MAX_NESTING)] };
    assert!(spec.well_formed());
    assert!(uint256_spec().well_formed());
    assert!(DecodeSpec { kinds: vec![] }.well_formed());
}

#[test]
fn well_formed_rejects_nesting_past_the_bound() {
    let spec = DecodeSpec { kinds: vec![nested_array_kind(MAX_NESTING + 1)] };
    assert!(!spec.well_formed());
    let tuple = DecodeSpec {
        kinds: vec![ParamKind::Tuple(vec![ParamKind::Bool, nested_array_kind(MAX_NESTING)])],
    };
    assert!(!tuple.well_formed());
}
