//! Properties of every request, stated over the spec functions that the
//! contracts of `AgentRunParams::to_json_body`, `AIOSClient::request_headers`
//! and `AIOSClient::agent_request` use.
use vstd::prelude::*;
use crate::body::{body_members, has_key};
use crate::client::header_list;

verus! {

/// The body holds `agentName` and `task` with exactly the given values, and
/// holds no `sessionId` key when no session is given.
pub proof fn body_required_members(
    agent_name: Seq<char>,
    task: Seq<char>,
    session_id: Option<Seq<char>>,
)
    ensures
        body_members(agent_name, task, session_id)[0] == ("agentName"@, agent_name),
        body_members(agent_name, task, session_id)[1] == ("task"@, task),
        session_id is None ==> !has_key(body_members(agent_name, task, session_id), "sessionId"@),
{
    let m = body_members(agent_name, task, session_id);
    if session_id is None {
        reveal_strlit("agentName");
        reveal_strlit("task");
        reveal_strlit("sessionId");
        assert forall|i: int| 0 <= i < m.len() implies #[trigger] m[i].0 != "sessionId"@ by {
            if i == 0 {
                assert(m[0].0[0] != "sessionId"@[0]);
            } else {
                assert(m[1].0.len() != "sessionId"@.len());
            }
        }
    }
}

/// With a session, the body holds `sessionId`, and every member under that
/// key carries the session's value.
pub proof fn body_session_member(agent_name: Seq<char>, task: Seq<char>, session_id: Seq<char>)
    ensures
        has_key(body_members(agent_name, task, Some(session_id)), "sessionId"@),
        forall|i: int|
            0 <= i < body_members(agent_name, task, Some(session_id)).len()
                && (#[trigger] body_members(agent_name, task, Some(session_id))[i]).0
                == "sessionId"@ ==> body_members(agent_name, task, Some(session_id))[i].1
                == session_id,
{
    let m = body_members(agent_name, task, Some(session_id));
    assert(m[2].0 == "sessionId"@);
    reveal_strlit("agentName");
    reveal_strlit("task");
    reveal_strlit("sessionId");
    assert(m[0].0[0] != "sessionId"@[0]);
    assert(m[1].0.len() != "sessionId"@.len());
}

/// With a token, the headers hold `Authorization: Bearer <token>` and no
/// other value under that name; without one, they hold no `Authorization`.
pub proof fn authorization_header(token: Option<Seq<char>>)
    ensures
        token matches Some(t) ==> {
            &&& header_list(token).contains(("Authorization"@, "Bearer "@ + t))
            &&& forall|i: int|
                0 <= i < header_list(token).len() && (#[trigger] header_list(token)[i]).0
                    == "Authorization"@ ==> header_list(token)[i].1 == "Bearer "@ + t
        },
        token is None ==> !has_key(header_list(token), "Authorization"@),
{
    let h = header_list(token);
    reveal_strlit("Content-Type");
    reveal_strlit("Authorization");
    assert(h[0].0.len() != "Authorization"@.len());
    if let Some(t) = token {
        assert(h[1] == ("Authorization"@, "Bearer "@ + t));
    }
}

/// Every request carries `Content-Type: application/json`, with a token or
/// without.
pub proof fn content_type_header(token: Option<Seq<char>>)
    ensures
        header_list(token).contains(("Content-Type"@, "application/json"@)),
{
    assert(header_list(token)[0] == ("Content-Type"@, "application/json"@));
}

} // verus!
