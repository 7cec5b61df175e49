use mini_chat::codec::{
    decode, encode, encode_checked, frame, HEADER_LENGTH, MAX_FRAME_LENGTH,
};
use mini_chat::error::{Error, WriteError};
use mini_chat::message::{
    CreateGroupReq, Message, SearchOnlineReq, SendGroupReq, SendSingleReq, SignInReq, SignUpReq,
};

fn s(text: &str) -> String {
    text.to_string()
}

fn sign_in() -> Message {
    Message::SignIn(SignInReq { email: s("a@b.com"), pwd: s("x") })
}

fn one_of_each() -> Vec<Message> {
    vec![
        Message::SignUp(SignUpReq { nickname: s("nick"), pwd: s("secret"), email: s("n@x.org") }),
        sign_in(),
        Message::SearchOnline(SearchOnlineReq { email: s("peer@x.org"), token: s("t-1") }),
        Message::SendSingle(SendSingleReq {
            peer_email: s("peer@x.org"),
            token: s("t-1"),
            msg: s("hello \"you\"\n\ttab \\ slash"),
        }),
        Message::SendGroup(SendGroupReq {
            group_id: s("g42"),
            group_pwd: s("pw"),
            token: s("t-1"),
            msg: s("你好, wereld \u{1F600} \u{0001}"),
        }),
        Message::CreateGroup(CreateGroupReq { group_pwd: s("") }),
        Message::Okay(s("done")),
        Message::UserToken(s("0123456789abcdef")),
    ]
}

fn with_header(declared: u32, id: u32, payload: &[u8]) -> Vec<u8> {
    let mut bytes = Vec::new();
    bytes.extend_from_slice(&declared.to_be_bytes());
    bytes.extend_from_slice(&id.to_be_bytes());
    bytes.extend_from_slice(payload);
    bytes
}

#[test]
fn sign_in_frame_starts_with_the_length_of_its_body() {
    let body = br#"{"SignIn":{"email":"a@b.com","pwd":"x"}}"#;
    let f = encode(&sign_in(), 7).unwrap();
    assert_eq!(f.len(), HEADER_LENGTH + body.len());
    assert_eq!(&f[..4], &(body.len() as u32).to_be_bytes()[..]);
    assert_eq!(&f[..4], &[0u8, 0, 0, 40][..]);
    assert_eq!(&f[4..8], &[0u8, 0, 0, 7][..]);
    assert_eq!(&f[8..], &body[..]);
}

#[test]
fn sign_in_frame_decodes_to_the_same_message() {
    let f = encode(&sign_in(), 0).unwrap();
    let (m, consumed) = decode(&f).unwrap();
    assert_eq!(m, Message::SignIn(SignInReq { email: s("a@b.com"), pwd: s("x") }));
    assert_eq!(consumed, f.len());
}

#[test]
fn every_kind_of_message_round_trips() {
    for m in one_of_each() {
        let f = encode(&m, 3).unwrap();
        let (back, consumed) = decode(&f).unwrap();
        assert_eq!(back, m);
        assert_eq!(consumed, f.len());
    }
}

#[test]
fn header_numbers_are_big_endian() {
    let payload = vec![b' '; 300];
    let f = frame(&payload, 0x0102_0304).unwrap();
    assert_eq!(&f[..8], &[0u8, 0, 1, 44, 1, 2, 3, 4][..]);
    assert_eq!(&f[8..], &payload[..]);
    assert_eq!(f.len(), 308);
}

#[test]
fn frame_of_an_empty_payload_is_a_bare_header() {
    assert_eq!(frame(&[], u32::MAX), Ok(vec![0u8, 0, 0, 0, 255, 255, 255, 255]));
}

#[test]
fn frame_refuses_a_payload_that_does_not_fit() {
    let fits = vec![b' '; MAX_FRAME_LENGTH - HEADER_LENGTH];
    let too_long = vec![b' '; MAX_FRAME_LENGTH - HEADER_LENGTH + 1];
    assert_eq!(frame(&fits, 1).unwrap().len(), MAX_FRAME_LENGTH);
    assert_eq!(frame(&too_long, 1), Err(WriteError::FrameTooLarge));
}

#[test]
fn encode_refuses_a_message_that_does_not_fit() {
    // {"Ok":"…"} takes 9 bytes round the text.
    let fits = Message::Okay("a".repeat(MAX_FRAME_LENGTH - HEADER_LENGTH - 9));
    let too_long = Message::Okay("a".repeat(MAX_FRAME_LENGTH - HEADER_LENGTH - 8));
    assert_eq!(encode(&fits, 0).unwrap().len(), MAX_FRAME_LENGTH);
    assert_eq!(encode(&too_long, 0), Err(WriteError::FrameTooLarge));
}

#[test]
fn the_largest_frame_round_trips() {
    let m = Message::Okay("a".repeat(MAX_FRAME_LENGTH - HEADER_LENGTH - 9));
    let f = encode(&m, 0).unwrap();
    assert_eq!(decode(&f), Ok((m, MAX_FRAME_LENGTH)));
}

#[test]
fn decode_refuses_a_header_that_declares_too_much() {
    // 8 + 4089 = 4097
    assert_eq!(decode(&with_header(4089, 0, b"")), Err(Error::FrameOverflow));
    assert_eq!(decode(&with_header(u32::MAX, 0, b"")), Err(Error::FrameOverflow));
    assert_eq!(decode(&with_header(4089, 0, &[b' '; 5000])), Err(Error::FrameOverflow));
    // 8 + 4088 = 4096 is allowed, and still to come
    assert_eq!(decode(&with_header(4088, 0, b"")), Err(Error::Incomplete));
}

#[test]
fn decode_waits_for_a_whole_header() {
    let f = encode(&sign_in(), 0).unwrap();
    for n in 0..HEADER_LENGTH {
        assert_eq!(decode(&f[..n]), Err(Error::Incomplete));
    }
    // the length alone decides nothing, even where it is too large
    assert_eq!(decode(&[255u8, 255, 255, 255]), Err(Error::Incomplete));
}

#[test]
fn decode_waits_for_the_whole_payload() {
    let f = encode(&sign_in(), 0).unwrap();
    for n in HEADER_LENGTH..f.len() {
        assert_eq!(decode(&f[..n]), Err(Error::Incomplete));
    }
    assert_eq!(decode(&f), Ok((sign_in(), f.len())));
}

#[test]
fn decode_rejects_a_payload_that_is_no_message() {
    let payloads: Vec<&[u8]> = vec![
        b"not json",
        b"",
        b"{}",
        b"[1,2]",
        b"\"Ok\"",
        br#"{"Nope":"x"}"#,
        br#"{"Ok":1}"#,
        br#"{"Ok":"a","UserToken":"b"}"#,
        br#"{"SignIn":"x"}"#,
        br#"{"SignIn":{"email":"a@b.com"}}"#,
        br#"{"SignIn":{"email":"a@b.com","pwd":"x"}} trailing"#,
        br#"{"SignIn":{"email":"a@b.com","pwd":"x"}"#,
        br#"{"signin":{"email":"a@b.com","pwd":"x"}}"#,
        &[b'{', b'"', 0xff, b'"', b':', b'"', b'x', b'"', b'}'],
    ];
    for payload in payloads {
        let bytes = with_header(payload.len() as u32, 9, payload);
        assert_eq!(decode(&bytes), Err(Error::ParseError));
    }
}

#[test]
fn decode_does_not_look_behind_the_frame() {
    let mut bytes = encode(&sign_in(), 0).unwrap();
    let frame_length = bytes.len();
    bytes.extend_from_slice(b"\xff\xff\xff\xff garbage");
    assert_eq!(decode(&bytes), Ok((sign_in(), frame_length)));
}

#[test]
fn decode_takes_the_payload_from_behind_the_header() {
    // The header bytes themselves would read as JSON digits; the payload
    // begins only behind them.
    let payload = br#"{"Ok":"1"}"#;
    let bytes = with_header(payload.len() as u32, 0x3131_3131, payload);
    assert_eq!(decode(&bytes), Ok((Message::Okay(s("1")), 18)));
}

#[test]
fn decode_passes_over_the_frame_id() {
    let payload = br#"{"UserToken":"t"}"#;
    for id in [0u32, 1, 2, 0xdead_beef, u32::MAX] {
        let bytes = with_header(payload.len() as u32, id, payload);
        assert_eq!(decode(&bytes), Ok((Message::UserToken(s("t")), HEADER_LENGTH + 17)));
    }
}

#[test]
fn a_checked_frame_is_the_frame_that_encode_builds() {
    for m in one_of_each() {
        assert_eq!(encode_checked(&m, 5), encode(&m, 5));
        let f = encode_checked(&m, 5).unwrap();
        assert_eq!(decode(&f), Ok((m, f.len())));
    }
}

#[test]
fn a_checked_frame_that_does_not_fit_is_refused_as_too_large() {
    let too_long = Message::UserToken("t".repeat(MAX_FRAME_LENGTH));
    assert_eq!(encode_checked(&too_long, 0), Err(WriteError::FrameTooLarge));
}
