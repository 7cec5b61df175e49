//! How a message is laid out as a payload.
//!
//! A payload is a JSON object with one member, named after the variant.  An
//! answer holds its text there; a request holds an object with one string
//! per field, under the field's name.  In a request the order of the members
//! does not matter, and members of other names are passed over as long as
//! they hold strings too.

use crate::json::{
    json_record_members, json_record_object, json_text_members, json_text_object,
    read_record_members, read_text_members, write_record_object, write_text_object,
};
use crate::message::{
    CreateGroupReq, CreateGroupReqView, Message, MessageView, SearchOnlineReq,
    SearchOnlineReqView, SendGroupReq, SendGroupReqView, SendSingleReq, SendSingleReqView,
    SignInReq, SignInReqView, SignUpReq, SignUpReqView,
};
use vstd::prelude::*;

verus! {

/// The fields of a request as they are read from a payload: names with the
/// strings found under them.
pub type Fields = Seq<(Seq<char>, Seq<char>)>;

/// What is found under `name`: the string of the first member of that name.
pub open spec fn field(fields: Fields, name: Seq<char>) -> Option<Seq<char>>
    decreases fields.len(),
{
    if fields.len() == 0 {
        None
    } else if fields[0].0 == name {
        Some(fields[0].1)
    } else {
        field(fields.skip(1), name)
    }
}

/// The name under which a message travels.
pub open spec fn tag_of(m: MessageView) -> Seq<char> {
    match m {
        MessageView::SignUp(_) => "SignUp"@,
        MessageView::SignIn(_) => "SignIn"@,
        MessageView::SearchOnline(_) => "SearchOnline"@,
        MessageView::SendSingle(_) => "SendSingle"@,
        MessageView::SendGroup(_) => "SendGroup"@,
        MessageView::CreateGroup(_) => "CreateGroup"@,
        MessageView::Okay(_) => "Ok"@,
        MessageView::UserToken(_) => "UserToken"@,
    }
}

/// The fields of a request, in the order in which they are written; an
/// answer has none.
pub open spec fn fields_of(m: MessageView) -> Fields {
    match m {
        MessageView::SignUp(req) => seq![
            ("nickname"@, req.nickname),
            ("pwd"@, req.pwd),
            ("email"@, req.email),
        ],
        MessageView::SignIn(req) => seq![("email"@, req.email), ("pwd"@, req.pwd)],
        MessageView::SearchOnline(req) => seq![("email"@, req.email), ("token"@, req.token)],
        MessageView::SendSingle(req) => seq![
            ("peer_email"@, req.peer_email),
            ("token"@, req.token),
            ("msg"@, req.msg),
        ],
        MessageView::SendGroup(req) => seq![
            ("group_id"@, req.group_id),
            ("group_pwd"@, req.group_pwd),
            ("token"@, req.token),
            ("msg"@, req.msg),
        ],
        MessageView::CreateGroup(req) => seq![("group_pwd"@, req.group_pwd)],
        MessageView::Okay(_) => Seq::empty(),
        MessageView::UserToken(_) => Seq::empty(),
    }
}

/// The payload of a message: the JSON text of its one-member object, or
/// `None` where that text cannot be written.
pub open spec fn payload_of(m: MessageView) -> Option<Seq<u8>> {
    match m {
        MessageView::Okay(text) => json_text_object(tag_of(m), text),
        MessageView::UserToken(token) => json_text_object(tag_of(m), token),
        _ => json_record_object(tag_of(m), fields_of(m)),
    }
}

/// The answer that a tag and a text stand for.
pub open spec fn answer(tag: Seq<char>, text: Seq<char>) -> Option<MessageView> {
    if tag == "Ok"@ {
        Some(MessageView::Okay(text))
    } else if tag == "UserToken"@ {
        Some(MessageView::UserToken(text))
    } else {
        None
    }
}

/// The request that a tag and a list of fields stand for: the tag names the
/// kind, and every field of that kind has to be there.
pub open spec fn request(tag: Seq<char>, fields: Fields) -> Option<MessageView> {
    if tag == "SignUp"@ {
        match (field(fields, "nickname"@), field(fields, "pwd"@), field(fields, "email"@)) {
            (Some(nickname), Some(pwd), Some(email)) => Some(
                MessageView::SignUp(SignUpReqView { nickname, pwd, email }),
            ),
            _ => None,
        }
    } else if tag == "SignIn"@ {
        match (field(fields, "email"@), field(fields, "pwd"@)) {
            (Some(email), Some(pwd)) => Some(MessageView::SignIn(SignInReqView { email, pwd })),
            _ => None,
        }
    } else if tag == "SearchOnline"@ {
        match (field(fields, "email"@), field(fields, "token"@)) {
            (Some(email), Some(token)) => Some(
                MessageView::SearchOnline(SearchOnlineReqView { email, token }),
            ),
            _ => None,
        }
    } else if tag == "SendSingle"@ {
        match (field(fields, "peer_email"@), field(fields, "token"@), field(fields, "msg"@)) {
            (Some(peer_email), Some(token), Some(msg)) => Some(
                MessageView::SendSingle(SendSingleReqView { peer_email, token, msg }),
            ),
            _ => None,
        }
    } else if tag == "SendGroup"@ {
        match (
            field(fields, "group_id"@),
            field(fields, "group_pwd"@),
            field(fields, "token"@),
            field(fields, "msg"@),
        ) {
            (Some(group_id), Some(group_pwd), Some(token), Some(msg)) => Some(
                MessageView::SendGroup(SendGroupReqView { group_id, group_pwd, token, msg }),
            ),
            _ => None,
        }
    } else if tag == "CreateGroup"@ {
        match field(fields, "group_pwd"@) {
            Some(group_pwd) => Some(MessageView::CreateGroup(CreateGroupReqView { group_pwd })),
            None => None,
        }
    } else {
        None
    }
}

/// The answer in the members of an object of strings: there is exactly one
/// member, and it is an answer.
pub open spec fn text_message(members: Fields) -> Option<MessageView> {
    if members.len() == 1 {
        answer(members[0].0, members[0].1)
    } else {
        None
    }
}

/// The request in the members of an object of objects: there is exactly one
/// member, and it is a request.
pub open spec fn record_message(members: Seq<(Seq<char>, Fields)>) -> Option<MessageView> {
    if members.len() == 1 {
        request(members[0].0, members[0].1)
    } else {
        None
    }
}

/// The message in a payload, or `None` where the payload holds none: it is
/// read as an object of strings, and where that fails as an object of
/// objects of strings.
pub open spec fn message_of_payload(payload: Seq<u8>) -> Option<MessageView> {
    match json_text_members(payload) {
        Some(members) => text_message(members),
        None => match json_record_members(payload) {
            Some(members) => record_message(members),
            None => None,
        },
    }
}

/// Whether reading the payload gives back what was written for `m`: an
/// answer comes back as the one member with its tag and text; a request
/// comes back as the one member with its tag, in which every name leads to
/// what it led to in the fields written (in whatever order they come
/// back), and its payload is not taken for an object of strings.
pub open spec fn reads_back(m: MessageView, payload: Seq<u8>) -> bool {
    match m {
        MessageView::Okay(text) => json_text_members(payload) == Some(seq![(tag_of(m), text)]),
        MessageView::UserToken(token) => json_text_members(payload) == Some(
            seq![(tag_of(m), token)],
        ),
        _ => {
            &&& json_text_members(payload) is None
            &&& json_record_members(payload) matches Some(members)
            &&& members.len() == 1
            &&& members[0].0 == tag_of(m)
            &&& forall|name: Seq<char>| #[trigger]
                field(members[0].1, name) == field(fields_of(m), name)
        },
    }
}

/// Whether an optional message is the given optional view.
pub open spec fn shows(r: Option<Message>, v: Option<MessageView>) -> bool {
    match r {
        Some(m) => v == Some(m@),
        None => v is None,
    }
}

fn same(a: &String, b: &str) -> (r: bool)
    ensures
        r == (a@ == b@),
{
    let owned = b.to_owned();
    a.eq(&owned)
}

fn named(name: &str, value: &String) -> (r: (String, String))
    ensures
        r.deep_view() == (name@, value@),
{
    (name.to_owned(), value.clone())
}

fn find_field(fields: &Vec<(String, String)>, name: &str) -> (r: Option<String>)
    ensures
        r.deep_view() == field(fields.deep_view(), name@),
{
    let ghost all = fields.deep_view();
    let mut i: usize = 0;
    assert(all.skip(0) =~= all);
    while i < fields.len()
        invariant
            i <= fields.len(),
            all == fields.deep_view(),
            field(all, name@) == field(all.skip(i as int), name@),
        decreases fields.len() - i,
    {
        assert(all.skip(i as int)[0] == all[i as int]);
        assert(all.skip(i as int).skip(1) =~= all.skip(i + 1));
        if same(&fields[i].0, name) {
            return Some(fields[i].1.clone());
        }
        i += 1;
    }
    None
}

impl Message {
    /// Writes the message as a payload.  `None` says that `serde_json` could
    /// not write it.
    pub fn to_payload(&self) -> (r: Option<Vec<u8>>)
        ensures
            match r {
                Some(payload) => payload_of(self@) == Some(payload@),
                None => payload_of(self@) is None,
            },
    {
        let mut fields: Vec<(String, String)> = Vec::new();
        match self {
            Message::Okay(text) => {
                return write_text_object("Ok", text.as_str());
            },
            Message::UserToken(token) => {
                return write_text_object("UserToken", token.as_str());
            },
            Message::SignUp(req) => {
                fields.push(named("nickname", &req.nickname));
                fields.push(named("pwd", &req.pwd));
                fields.push(named("email", &req.email));
                assert(fields.deep_view() =~= fields_of(self@));
                write_record_object("SignUp", &fields)
            },
            Message::SignIn(req) => {
                fields.push(named("email", &req.email));
                fields.push(named("pwd", &req.pwd));
                assert(fields.deep_view() =~= fields_of(self@));
                write_record_object("SignIn", &fields)
            },
            Message::SearchOnline(req) => {
                fields.push(named("email", &req.email));
                fields.push(named("token", &req.token));
                assert(fields.deep_view() =~= fields_of(self@));
                write_record_object("SearchOnline", &fields)
            },
            Message::SendSingle(req) => {
                fields.push(named("peer_email", &req.peer_email));
                fields.push(named("token", &req.token));
                fields.push(named("msg", &req.msg));
                assert(fields.deep_view() =~= fields_of(self@));
                write_record_object("SendSingle", &fields)
            },
            Message::SendGroup(req) => {
                fields.push(named("group_id", &req.group_id));
                fields.push(named("group_pwd", &req.group_pwd));
                fields.push(named("token", &req.token));
                fields.push(named("msg", &req.msg));
                assert(fields.deep_view() =~= fields_of(self@));
                write_record_object("SendGroup", &fields)
            },
            Message::CreateGroup(req) => {
                fields.push(named("group_pwd", &req.group_pwd));
                assert(fields.deep_view() =~= fields_of(self@));
                write_record_object("CreateGroup", &fields)
            },
        }
    }

    /// The answer that a tag and a text stand for.
    pub fn from_answer(tag: &String, text: &String) -> (r: Option<Message>)
        ensures
            shows(r, answer(tag@, text@)),
    {
        if same(tag, "Ok") {
            Some(Message::Okay(text.clone()))
        } else if same(tag, "UserToken") {
            Some(Message::UserToken(text.clone()))
        } else {
            None
        }
    }

    /// The request that a tag and a list of fields stand for.
    pub fn from_request(tag: &String, fields: &Vec<(String, String)>) -> (r: Option<Message>)
        ensures
            shows(r, request(tag@, fields.deep_view())),
    {
        if same(tag, "SignUp") {
            let nickname = find_field(fields, "nickname");
            let pwd = find_field(fields, "pwd");
            let email = find_field(fields, "email");
            match (nickname, pwd, email) {
                (Some(nickname), Some(pwd), Some(email)) => Some(
                    Message::SignUp(SignUpReq { nickname, pwd, email }),
                ),
                _ => None,
            }
        } else if same(tag, "SignIn") {
            let email = find_field(fields, "email");
            let pwd = find_field(fields, "pwd");
            match (email, pwd) {
                (Some(email), Some(pwd)) => Some(Message::SignIn(SignInReq { email, pwd })),
                _ => None,
            }
        } else if same(tag, "SearchOnline") {
            let email = find_field(fields, "email");
            let token = find_field(fields, "token");
            match (email, token) {
                (Some(email), Some(token)) => Some(
                    Message::SearchOnline(SearchOnlineReq { email, token }),
                ),
                _ => None,
            }
        } else if same(tag, "SendSingle") {
            let peer_email = find_field(fields, "peer_email");
            let token = find_field(fields, "token");
            let msg = find_field(fields, "msg");
            match (peer_email, token, msg) {
                (Some(peer_email), Some(token), Some(msg)) => Some(
                    Message::SendSingle(SendSingleReq { peer_email, token, msg }),
                ),
                _ => None,
            }
        } else if same(tag, "SendGroup") {
            let group_id = find_field(fields, "group_id");
            let group_pwd = find_field(fields, "group_pwd");
            let token = find_field(fields, "token");
            let msg = find_field(fields, "msg");
            match (group_id, group_pwd, token, msg) {
                (Some(group_id), Some(group_pwd), Some(token), Some(msg)) => Some(
                    Message::SendGroup(SendGroupReq { group_id, group_pwd, token, msg }),
                ),
                _ => None,
            }
        } else if same(tag, "CreateGroup") {
            match find_field(fields, "group_pwd") {
                Some(group_pwd) => Some(Message::CreateGroup(CreateGroupReq { group_pwd })),
                None => None,
            }
        } else {
            None
        }
    }

    /// The answer in the members of an object of strings.
    pub fn from_text_members(members: &Vec<(String, String)>) -> (r: Option<Message>)
        ensures
            shows(r, text_message(members.deep_view())),
    {
        if members.len() == 1 {
            Message::from_answer(&members[0].0, &members[0].1)
        } else {
            None
        }
    }

    /// The request in the members of an object of objects.
    pub fn from_record_members(members: &Vec<(String, Vec<(String, String)>)>) -> (r: Option<
        Message,
    >)
        ensures
            shows(r, record_message(members.deep_view())),
    {
        if members.len() == 1 {
            Message::from_request(&members[0].0, &members[0].1)
        } else {
            None
        }
    }

    /// Reads the message in a payload.  `None` says that the payload holds
    /// none.
    pub fn from_payload(payload: &[u8]) -> (r: Option<Message>)
        ensures
            shows(r, message_of_payload(payload@)),
    {
        match read_text_members(payload) {
            Some(members) => Message::from_text_members(&members),
            None => match read_record_members(payload) {
                Some(members) => Message::from_record_members(&members),
                None => None,
            },
        }
    }
}

/// No two kinds of message travel under the same tag.
pub proof fn lemma_tags_differ(a: MessageView, b: MessageView)
    ensures
        tag_of(a) == tag_of(b) ==> (a is SignUp <==> b is SignUp) && (a is SignIn <==> b is SignIn)
            && (a is SearchOnline <==> b is SearchOnline) && (a is SendSingle <==> b
            is SendSingle) && (a is SendGroup <==> b is SendGroup) && (a is CreateGroup <==> b
            is CreateGroup) && (a is Okay <==> b is Okay) && (a is UserToken <==> b is UserToken),
{
    reveal_strlit("SignUp");
    reveal_strlit("SignIn");
    reveal_strlit("SearchOnline");
    reveal_strlit("SendSingle");
    reveal_strlit("SendGroup");
    reveal_strlit("CreateGroup");
    reveal_strlit("Ok");
    reveal_strlit("UserToken");
    assert("SignUp"@.len() == 6 && "SignIn"@.len() == 6);
    assert("SearchOnline"@.len() == 12 && "SendSingle"@.len() == 10);
    assert("SendGroup"@.len() == 9 && "CreateGroup"@.len() == 11);
    assert("Ok"@.len() == 2 && "UserToken"@.len() == 9);
    assert("SignUp"@[4] != "SignIn"@[4]);
    assert("SendGroup"@[0] != "UserToken"@[0]);
}

proof fn lemma_names_differ()
    ensures
        "nickname"@ != "pwd"@,
        "nickname"@ != "email"@,
        "pwd"@ != "email"@,
        "email"@ != "token"@,
        "peer_email"@ != "token"@,
        "peer_email"@ != "msg"@,
        "token"@ != "msg"@,
        "group_id"@ != "group_pwd"@,
        "group_id"@ != "token"@,
        "group_id"@ != "msg"@,
        "group_pwd"@ != "token"@,
        "group_pwd"@ != "msg"@,
{
    reveal_strlit("nickname");
    reveal_strlit("pwd");
    reveal_strlit("email");
    reveal_strlit("token");
    reveal_strlit("peer_email");
    reveal_strlit("msg");
    reveal_strlit("group_id");
    reveal_strlit("group_pwd");
    assert("nickname"@.len() == 8 && "pwd"@.len() == 3 && "email"@.len() == 5);
    assert("token"@.len() == 5 && "peer_email"@.len() == 10 && "msg"@.len() == 3);
    assert("group_id"@.len() == 8 && "group_pwd"@.len() == 9);
    assert("token"@[0] != "email"@[0]);
}

/// The fields of a request, as they are written, lead back to the request;
/// so does every list in which each name leads to the same string.
pub proof fn lemma_request_round_trip(m: MessageView, fields: Fields)
    requires
        !(m is Okay),
        !(m is UserToken),
        forall|name: Seq<char>| #[trigger] field(fields, name) == field(fields_of(m), name),
    ensures
        request(tag_of(m), fields_of(m)) == Some(m),
        request(tag_of(m), fields) == Some(m),
{
    lemma_names_differ();
    lemma_tags_differ(m, MessageView::SignUp(arbitrary()));
    lemma_tags_differ(m, MessageView::SignIn(arbitrary()));
    lemma_tags_differ(m, MessageView::SearchOnline(arbitrary()));
    lemma_tags_differ(m, MessageView::SendSingle(arbitrary()));
    lemma_tags_differ(m, MessageView::SendGroup(arbitrary()));
    let own = fields_of(m);
    let second = own.skip(1);
    let third = second.skip(1);
    let fourth = third.skip(1);
    reveal_with_fuel(field, 5);
    assert(own.len() >= 2 ==> second[0] == own[1]);
    assert(own.len() >= 3 ==> third[0] == own[2]);
    assert(own.len() >= 4 ==> fourth[0] == own[3]);
}

/// The tag and text of an answer, as they are written, lead back to the
/// answer.
pub proof fn lemma_answer_round_trip(m: MessageView, text: Seq<char>)
    requires
        m == MessageView::Okay(text) || m == MessageView::UserToken(text),
    ensures
        answer(tag_of(m), text) == Some(m),
{
    lemma_tags_differ(m, MessageView::Okay(text));
}

/// A payload that reads back what was written for a message holds that
/// message.
pub proof fn lemma_payload_round_trip(m: MessageView, payload: Seq<u8>)
    requires
        reads_back(m, payload),
    ensures
        message_of_payload(payload) == Some(m),
{
    match m {
        MessageView::Okay(text) => {
            lemma_answer_round_trip(m, text);
        },
        MessageView::UserToken(token) => {
            lemma_answer_round_trip(m, token);
        },
        _ => {
            let members = json_record_members(payload)->Some_0;
            lemma_request_round_trip(m, members[0].1);
        },
    }
}

} // verus!
