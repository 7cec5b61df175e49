use mini_chat::message::{
    CreateGroupReq, Message, SearchOnlineReq, SendGroupReq, SendSingleReq, SignInReq, SignUpReq,
};

fn s(text: &str) -> String {
    text.to_string()
}

fn pair(name: &str, value: &str) -> (String, String) {
    (name.to_string(), value.to_string())
}

#[test]
fn payloads_are_written_under_the_variant_name_with_fields_in_order() {
    let cases: Vec<(Message, &str)> = vec![
        (
            Message::SignUp(SignUpReq { nickname: s("n"), pwd: s("p"), email: s("e") }),
            r#"{"SignUp":{"nickname":"n","pwd":"p","email":"e"}}"#,
        ),
        (
            Message::SignIn(SignInReq { email: s("a@b.com"), pwd: s("x") }),
            r#"{"SignIn":{"email":"a@b.com","pwd":"x"}}"#,
        ),
        (
            Message::SearchOnline(SearchOnlineReq { email: s("e"), token: s("t") }),
            r#"{"SearchOnline":{"email":"e","token":"t"}}"#,
        ),
        (
            Message::SendSingle(SendSingleReq { peer_email: s("e"), token: s("t"), msg: s("m") }),
            r#"{"SendSingle":{"peer_email":"e","token":"t","msg":"m"}}"#,
        ),
        (
            Message::SendGroup(SendGroupReq {
                group_id: s("g"),
                group_pwd: s("p"),
                token: s("t"),
                msg: s("m"),
            }),
            r#"{"SendGroup":{"group_id":"g","group_pwd":"p","token":"t","msg":"m"}}"#,
        ),
        (
            Message::CreateGroup(CreateGroupReq { group_pwd: s("p") }),
            r#"{"CreateGroup":{"group_pwd":"p"}}"#,
        ),
        (Message::Okay(s("fine")), r#"{"Ok":"fine"}"#),
        (Message::UserToken(s("tok")), r#"{"UserToken":"tok"}"#),
    ];
    for (m, text) in cases {
        assert_eq!(m.to_payload(), Some(text.as_bytes().to_vec()));
        assert_eq!(Message::from_payload(text.as_bytes()), Some(m));
    }
}

#[test]
fn strings_are_escaped_and_read_back() {
    let m = Message::Okay(s("a \"quote\" \\ \n \u{7f} é"));
    let payload = m.to_payload().unwrap();
    assert_eq!(payload, "{\"Ok\":\"a \\\"quote\\\" \\\\ \\n \u{7f} é\"}".as_bytes().to_vec());
    assert_eq!(Message::from_payload(&payload), Some(m));
}

#[test]
fn members_may_come_in_any_order() {
    let text = br#" { "SignUp" : { "email":"e", "pwd":"p", "nickname":"n" } } "#;
    assert_eq!(
        Message::from_payload(text),
        Some(Message::SignUp(SignUpReq { nickname: s("n"), pwd: s("p"), email: s("e") }))
    );
}

#[test]
fn members_that_a_request_does_not_know_are_passed_over() {
    let text = br#"{"CreateGroup":{"colour":"red","group_pwd":"p","zoo":"keeper"}}"#;
    assert_eq!(
        Message::from_payload(text),
        Some(Message::CreateGroup(CreateGroupReq { group_pwd: s("p") }))
    );
}

#[test]
fn a_member_that_holds_no_string_spoils_the_request() {
    assert_eq!(Message::from_payload(br#"{"CreateGroup":{"group_pwd":"p","size":3}}"#), None);
    assert_eq!(Message::from_payload(br#"{"CreateGroup":{"group_pwd":7}}"#), None);
    assert_eq!(Message::from_payload(br#"{"CreateGroup":{"group_pwd":"p","sub":{}}}"#), None);
}

#[test]
fn a_payload_without_one_of_the_fields_holds_no_message() {
    assert_eq!(Message::from_payload(br#"{"SendGroup":{"group_id":"g","token":"t","msg":"m"}}"#), None);
    assert_eq!(Message::from_payload(br#"{"SearchOnline":{"email":"e"}}"#), None);
    assert_eq!(Message::from_payload(br#"{"CreateGroup":{}}"#), None);
}

#[test]
fn a_payload_of_another_shape_holds_no_message() {
    assert_eq!(Message::from_payload(b""), None);
    assert_eq!(Message::from_payload(b"{}"), None);
    assert_eq!(Message::from_payload(b"null"), None);
    assert_eq!(Message::from_payload(br#"{"Ok":"a","UserToken":"b"}"#), None);
    assert_eq!(Message::from_payload(br#"{"SignIn":{"email":"e","pwd":"p"},"Ok":"a"}"#), None);
    assert_eq!(Message::from_payload(br#"{"CreateGroup":"p"}"#), None);
    assert_eq!(Message::from_payload(br#"{"Ok":{"group_pwd":"p"}}"#), None);
    assert_eq!(Message::from_payload(br#"{"UserToken":null}"#), None);
}

#[test]
fn an_answer_is_told_by_its_tag() {
    assert_eq!(Message::from_answer(&s("Ok"), &s("t")), Some(Message::Okay(s("t"))));
    assert_eq!(Message::from_answer(&s("UserToken"), &s("t")), Some(Message::UserToken(s("t"))));
    assert_eq!(Message::from_answer(&s("ok"), &s("t")), None);
    assert_eq!(Message::from_answer(&s("SignIn"), &s("t")), None);
    assert_eq!(Message::from_answer(&s(""), &s("t")), None);
}

#[test]
fn a_request_is_told_by_its_tag_and_needs_every_field() {
    let fields = vec![pair("pwd", "p"), pair("token", "t"), pair("email", "e")];
    assert_eq!(
        Message::from_request(&s("SignIn"), &fields),
        Some(Message::SignIn(SignInReq { email: s("e"), pwd: s("p") }))
    );
    assert_eq!(
        Message::from_request(&s("SearchOnline"), &fields),
        Some(Message::SearchOnline(SearchOnlineReq { email: s("e"), token: s("t") }))
    );
    assert_eq!(Message::from_request(&s("SignUp"), &fields), None);
    assert_eq!(Message::from_request(&s("SendSingle"), &fields), None);
    assert_eq!(Message::from_request(&s("Ok"), &fields), None);
    assert_eq!(Message::from_request(&s("SignIn"), &Vec::new()), None);
}

#[test]
fn the_first_member_of_a_name_counts() {
    let fields = vec![pair("group_pwd", "first"), pair("group_pwd", "second")];
    assert_eq!(
        Message::from_request(&s("CreateGroup"), &fields),
        Some(Message::CreateGroup(CreateGroupReq { group_pwd: s("first") }))
    );
}

#[test]
fn members_hold_a_message_only_where_there_is_exactly_one() {
    assert_eq!(Message::from_text_members(&vec![pair("Ok", "a")]), Some(Message::Okay(s("a"))));
    assert_eq!(Message::from_text_members(&Vec::new()), None);
    assert_eq!(Message::from_text_members(&vec![pair("Ok", "a"), pair("Ok", "b")]), None);
    let request = (s("CreateGroup"), vec![pair("group_pwd", "p")]);
    assert_eq!(
        Message::from_record_members(&vec![request.clone()]),
        Some(Message::CreateGroup(CreateGroupReq { group_pwd: s("p") }))
    );
    assert_eq!(Message::from_record_members(&Vec::new()), None);
    assert_eq!(Message::from_record_members(&vec![request.clone(), request]), None);
}

#[test]
fn messages_are_the_same_where_kind_and_strings_agree() {
    let a = Message::SendSingle(SendSingleReq { peer_email: s("e"), token: s("t"), msg: s("m") });
    let b = Message::SendSingle(SendSingleReq { peer_email: s("e"), token: s("t"), msg: s("m") });
    let other_msg =
        Message::SendSingle(SendSingleReq { peer_email: s("e"), token: s("t"), msg: s("M") });
    let other_peer =
        Message::SendSingle(SendSingleReq { peer_email: s("f"), token: s("t"), msg: s("m") });
    assert!(a.same_as(&b));
    assert!(!a.same_as(&other_msg));
    assert!(!a.same_as(&other_peer));
    assert!(Message::Okay(s("x")).same_as(&Message::Okay(s("x"))));
    assert!(!Message::Okay(s("x")).same_as(&Message::Okay(s("y"))));
    assert!(!Message::Okay(s("x")).same_as(&Message::UserToken(s("x"))));
    let sign_in = Message::SignIn(SignInReq { email: s("e"), pwd: s("t") });
    let search = Message::SearchOnline(SearchOnlineReq { email: s("e"), token: s("t") });
    assert!(!sign_in.same_as(&search));
    let group = Message::SendGroup(SendGroupReq {
        group_id: s("g"),
        group_pwd: s("p"),
        token: s("t"),
        msg: s("m"),
    });
    assert!(group.same_as(&group.clone()));
    let sign_up = Message::SignUp(SignUpReq { nickname: s("n"), pwd: s("p"), email: s("e") });
    let swapped = Message::SignUp(SignUpReq { nickname: s("p"), pwd: s("n"), email: s("e") });
    assert!(sign_up.same_as(&sign_up.clone()));
    assert!(!sign_up.same_as(&swapped));
}
