use vstd::prelude::*;

verus! {

/// The body of a chat login.
pub struct LoginForm {
    pub nickname: String,
}

/// The announcement sent to the room when `nickname` logs in.
pub fn login_notice(nickname: &str) -> (msg: String)
    ensures
        msg@ == "欢迎 "@ + nickname@ + " 进入聊天室"@,
{
    let mut msg = String::from_str("欢迎 ");
    msg.append(nickname);
    msg.append(" 进入聊天室");
    msg
}

/// The answer to the one who logged in.
pub fn login_reply(nickname: &str) -> (msg: String)
    ensures
        msg@ == "你好，"@ + nickname@,
{
    let mut msg = String::from_str("你好，");
    msg.append(nickname);
    msg
}

} // verus!
