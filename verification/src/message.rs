//! The messages of the chat protocol.
//!
//! Each type has a view in which every string is the sequence of its
//! characters; contracts speak of the views.

use vstd::prelude::*;

verus! {

/// A message: one of six requests or one of two answers.
#[derive(Clone, Debug, PartialEq, Eq)]
pub enum Message {
    SignUp(SignUpReq),
    SignIn(SignInReq),
    SearchOnline(SearchOnlineReq),
    SendSingle(SendSingleReq),
    SendGroup(SendGroupReq),
    CreateGroup(CreateGroupReq),
    Okay(String),
    UserToken(String),
}

/// Registers a new user.
#[derive(Clone, Debug, PartialEq, Eq)]
pub struct SignUpReq {
    pub nickname: String,
    pub pwd: String,
    pub email: String,
}

/// Signs a user in.
#[derive(Clone, Debug, PartialEq, Eq)]
pub struct SignInReq {
    pub email: String,
    pub pwd: String,
}

/// Asks whether another user is online.
#[derive(Clone, Debug, PartialEq, Eq)]
pub struct SearchOnlineReq {
    pub email: String,
    pub token: String,
}

/// Sends a text to one user.
#[derive(Clone, Debug, PartialEq, Eq)]
pub struct SendSingleReq {
    /// The e-mail address of the receiving user.
    pub peer_email: String,
    pub token: String,
    pub msg: String,
}

/// Sends a text to a group.
#[derive(Clone, Debug, PartialEq, Eq)]
pub struct SendGroupReq {
    pub group_id: String,
    pub group_pwd: String,
    pub token: String,
    pub msg: String,
}

/// Creates a group.
#[derive(Clone, Debug, PartialEq, Eq)]
pub struct CreateGroupReq {
    pub group_pwd: String,
}

pub struct SignUpReqView {
    pub nickname: Seq<char>,
    pub pwd: Seq<char>,
    pub email: Seq<char>,
}

pub struct SignInReqView {
    pub email: Seq<char>,
    pub pwd: Seq<char>,
}

pub struct SearchOnlineReqView {
    pub email: Seq<char>,
    pub token: Seq<char>,
}

pub struct SendSingleReqView {
    pub peer_email: Seq<char>,
    pub token: Seq<char>,
    pub msg: Seq<char>,
}

pub struct SendGroupReqView {
    pub group_id: Seq<char>,
    pub group_pwd: Seq<char>,
    pub token: Seq<char>,
    pub msg: Seq<char>,
}

pub struct CreateGroupReqView {
    pub group_pwd: Seq<char>,
}

pub enum MessageView {
    SignUp(SignUpReqView),
    SignIn(SignInReqView),
    SearchOnline(SearchOnlineReqView),
    SendSingle(SendSingleReqView),
    SendGroup(SendGroupReqView),
    CreateGroup(CreateGroupReqView),
    Okay(Seq<char>),
    UserToken(Seq<char>),
}

impl View for SignUpReq {
    type V = SignUpReqView;

    open spec fn view(&self) -> SignUpReqView {
        SignUpReqView { nickname: self.nickname@, pwd: self.pwd@, email: self.email@ }
    }
}

impl View for SignInReq {
    type V = SignInReqView;

    open spec fn view(&self) -> SignInReqView {
        SignInReqView { email: self.email@, pwd: self.pwd@ }
    }
}

impl View for SearchOnlineReq {
    type V = SearchOnlineReqView;

    open spec fn view(&self) -> SearchOnlineReqView {
        SearchOnlineReqView { email: self.email@, token: self.token@ }
    }
}

impl View for SendSingleReq {
    type V = SendSingleReqView;

    open spec fn view(&self) -> SendSingleReqView {
        SendSingleReqView { peer_email: self.peer_email@, token: self.token@, msg: self.msg@ }
    }
}

impl View for SendGroupReq {
    type V = SendGroupReqView;

    open spec fn view(&self) -> SendGroupReqView {
        SendGroupReqView {
            group_id: self.group_id@,
            group_pwd: self.group_pwd@,
            token: self.token@,
            msg: self.msg@,
        }
    }
}

impl View for CreateGroupReq {
    type V = CreateGroupReqView;

    open spec fn view(&self) -> CreateGroupReqView {
        CreateGroupReqView { group_pwd: self.group_pwd@ }
    }
}

impl View for Message {
    type V = MessageView;

    open spec fn view(&self) -> MessageView {
        match *self {
            Message::SignUp(req) => MessageView::SignUp(req@),
            Message::SignIn(req) => MessageView::SignIn(req@),
            Message::SearchOnline(req) => MessageView::SearchOnline(req@),
            Message::SendSingle(req) => MessageView::SendSingle(req@),
            Message::SendGroup(req) => MessageView::SendGroup(req@),
            Message::CreateGroup(req) => MessageView::CreateGroup(req@),
            Message::Okay(text) => MessageView::Okay(text@),
            Message::UserToken(token) => MessageView::UserToken(token@),
        }
    }
}

impl Message {
    /// Whether two messages are of the same kind and hold the same strings.
    pub fn same_as(&self, other: &Message) -> (r: bool)
        ensures
            r == (self@ == other@),
    {
        match (self, other) {
            (Message::SignUp(a), Message::SignUp(b)) => {
                a.nickname.eq(&b.nickname) && a.pwd.eq(&b.pwd) && a.email.eq(&b.email)
            },
            (Message::SignIn(a), Message::SignIn(b)) => a.email.eq(&b.email) && a.pwd.eq(&b.pwd),
            (Message::SearchOnline(a), Message::SearchOnline(b)) => {
                a.email.eq(&b.email) && a.token.eq(&b.token)
            },
            (Message::SendSingle(a), Message::SendSingle(b)) => {
                a.peer_email.eq(&b.peer_email) && a.token.eq(&b.token) && a.msg.eq(&b.msg)
            },
            (Message::SendGroup(a), Message::SendGroup(b)) => {
                a.group_id.eq(&b.group_id) && a.group_pwd.eq(&b.group_pwd) && a.token.eq(&b.token)
                    && a.msg.eq(&b.msg)
            },
            (Message::CreateGroup(a), Message::CreateGroup(b)) => a.group_pwd.eq(&b.group_pwd),
            (Message::Okay(a), Message::Okay(b)) => a.eq(b),
            (Message::UserToken(a), Message::UserToken(b)) => a.eq(b),
            _ => false,
        }
    }
}

/// What a party that answers requests has to provide: one answer per kind
/// of request.
pub trait Handle {
    fn sign_up(req: SignUpReq) -> Message;

    fn sign_in(req: SignInReq) -> Message;

    fn search_online(req: SearchOnlineReq) -> Message;

    fn send_single(req: SendSingleReq) -> Message;

    fn send_group(req: SendGroupReq) -> Message;

    fn create_group(req: CreateGroupReq) -> Message;
}

} // verus!
