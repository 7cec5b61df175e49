//! The server's side of the protocol.

use crate::message::{
    CreateGroupReq, Message, SearchOnlineReq, SendGroupReq, SendSingleReq, SignInReq, SignUpReq,
};
use vstd::prelude::*;

verus! {

/// What a server provides: `Handle` with the kind of each answer fixed, a
/// token for the two requests that sign a user in and a plain
/// acknowledgement for the rest.
pub trait ServerHandle {
    fn sign_up(req: SignUpReq) -> (answer: Message)
        ensures
            answer is UserToken,
    ;

    fn sign_in(req: SignInReq) -> (answer: Message)
        ensures
            answer is UserToken,
    ;

    fn search_online(req: SearchOnlineReq) -> (answer: Message)
        ensures
            answer is Okay,
    ;

    fn send_single(req: SendSingleReq) -> (answer: Message)
        ensures
            answer is Okay,
    ;

    fn send_group(req: SendGroupReq) -> (answer: Message)
        ensures
            answer is Okay,
    ;

    fn create_group(req: CreateGroupReq) -> (answer: Message)
        ensures
            answer is Okay,
    ;
}

} // verus!
