//! The JSON body of an agent run: which members it has, and how they are
//! written as one JSON object.
use vstd::prelude::*;
use crate::json::{json_quoted, quote_json};

verus! {

/// What a caller asks the service to run.
pub struct AgentRunParams {
    /// Sent under the key `agentName`.
    pub agent_name: String,
    /// Sent under the key `task`.
    pub task: String,
    /// Sent under the key `sessionId`; the key is left out when this is `None`.
    pub session_id: Option<String>,
}

/// A member of a JSON object: its key and its value, as text.
pub open spec fn pair_view(p: (String, String)) -> (Seq<char>, Seq<char>) {
    (p.0@, p.1@)
}

pub open spec fn pairs_view(v: Seq<(String, String)>) -> Seq<(Seq<char>, Seq<char>)> {
    v.map_values(|p: (String, String)| pair_view(p))
}

impl AgentRunParams {
    pub open spec fn session_view(&self) -> Option<Seq<char>> {
        match self.session_id {
            Some(s) => Some(s@),
            None => None,
        }
    }
}

/// The members of the body, in order: `agentName`, `task`, then `sessionId`
/// when a session is given.
pub open spec fn body_members(
    agent_name: Seq<char>,
    task: Seq<char>,
    session_id: Option<Seq<char>>,
) -> Seq<(Seq<char>, Seq<char>)> {
    let required = seq![("agentName"@, agent_name), ("task"@, task)];
    match session_id {
        Some(s) => required.push(("sessionId"@, s)),
        None => required,
    }
}

pub open spec fn has_key(members: Seq<(Seq<char>, Seq<char>)>, key: Seq<char>) -> bool {
    exists|i: int| 0 <= i < members.len() && #[trigger] members[i].0 == key
}

/// Members already written as JSON literals, joined by commas.
pub open spec fn joined_members(quoted: Seq<(Seq<char>, Seq<char>)>) -> Seq<char>
    decreases quoted.len(),
{
    if quoted.len() == 0 {
        Seq::empty()
    } else {
        let last = quoted.last();
        let sep = if quoted.len() == 1 { Seq::empty() } else { ","@ };
        joined_members(quoted.drop_last()) + sep + last.0 + ":"@ + last.1
    }
}

/// A JSON object from members already written as JSON literals.
pub open spec fn object_of_quoted(quoted: Seq<(Seq<char>, Seq<char>)>) -> Seq<char> {
    "{"@ + joined_members(quoted) + "}"@
}

pub open spec fn quote_member(m: (Seq<char>, Seq<char>)) -> (Seq<char>, Seq<char>) {
    (json_quoted(m.0), json_quoted(m.1))
}

/// The JSON object text of the members, keys and values quoted by serde_json.
pub open spec fn object_text(members: Seq<(Seq<char>, Seq<char>)>) -> Seq<char> {
    object_of_quoted(members.map_values(|m: (Seq<char>, Seq<char>)| quote_member(m)))
}

/// Writes members, whose keys and values are already JSON literals, as one
/// JSON object.
pub fn join_object(quoted: &Vec<(String, String)>) -> (r: String)
    ensures
        r@ == object_of_quoted(pairs_view(quoted@)),
{
    let mut out = String::from_str("{");
    let mut i: usize = 0;
    while i < quoted.len()
        invariant
            i <= quoted.len(),
            out@ == "{"@ + joined_members(pairs_view(quoted@.take(i as int))),
        decreases quoted.len() - i,
    {
        let ghost before = pairs_view(quoted@.take(i as int));
        let ghost after = pairs_view(quoted@.take(i + 1));
        if i > 0 {
            out.append(",");
        }
        out.append(quoted[i].0.as_str());
        out.append(":");
        out.append(quoted[i].1.as_str());
        proof {
            assert(after.drop_last() =~= before);
            assert(after.last() == pair_view(quoted@[i as int]));
            if i == 0 {
                assert(before.len() == 0);
            }
        }
        i = i + 1;
        assert(out@ =~= "{"@ + joined_members(after));
    }
    assert(quoted@.take(quoted.len() as int) =~= quoted@);
    out.append("}");
    out
}

/// Writes the members as one JSON object, each key and value quoted by
/// serde_json, which does not fail on a string.
pub fn encode_object(members: &Vec<(String, String)>) -> (r: Result<String, serde_json::Error>)
    ensures
        r is Ok,
        r matches Ok(t) ==> t@ == object_text(pairs_view(members@)),
{
    let mut quoted: Vec<(String, String)> = Vec::new();
    let mut i: usize = 0;
    while i < members.len()
        invariant
            i <= members.len(),
            quoted@.len() == i,
            forall|j: int|
                0 <= j < i ==> #[trigger] pair_view(quoted@[j]) == quote_member(
                    pair_view(members@[j]),
                ),
        decreases members.len() - i,
    {
        let key = match quote_json(members[i].0.as_str()) {
            Ok(q) => q,
            Err(e) => return Err(e),
        };
        let value = match quote_json(members[i].1.as_str()) {
            Ok(q) => q,
            Err(e) => return Err(e),
        };
        quoted.push((key, value));
        i = i + 1;
    }
    let text = join_object(&quoted);
    assert(pairs_view(quoted@) =~= pairs_view(members@).map_values(
        |m: (Seq<char>, Seq<char>)| quote_member(m),
    ));
    Ok(text)
}

impl AgentRunParams {
    /// The members of the request body, keys renamed for the wire.
    pub fn members(&self) -> (r: Vec<(String, String)>)
        ensures
            pairs_view(r@) == body_members(self.agent_name@, self.task@, self.session_view()),
    {
        let mut r: Vec<(String, String)> = Vec::new();
        r.push((String::from_str("agentName"), self.agent_name.clone()));
        r.push((String::from_str("task"), self.task.clone()));
        match &self.session_id {
            Some(s) => r.push((String::from_str("sessionId"), s.clone())),
            None => {},
        }
        assert(pairs_view(r@) =~= body_members(
            self.agent_name@,
            self.task@,
            self.session_view(),
        ));
        r
    }

    /// The request body: a JSON object with `agentName` and `task`, and
    /// `sessionId` only when a session is given.
    pub fn to_json_body(&self) -> (r: Result<String, serde_json::Error>)
        ensures
            r is Ok,
            r matches Ok(t) ==> t@ == object_text(
                body_members(self.agent_name@, self.task@, self.session_view()),
            ),
    {
        let members = self.members();
        encode_object(&members)
    }
}

} // verus!
