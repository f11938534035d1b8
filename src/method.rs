//! The methods under which a remote function can be invoked.

use vstd::prelude::*;

verus! {

/// The method of a mock resource: the part of a call's function name after the dot.
#[derive(Debug, Clone, Copy, PartialEq, Eq, Structural)]
pub enum MockResourceMethod {
    /// Reads data; written `GET`.
    Get,
    /// Inserts data; written `INSERT`.
    Insert,
    /// Updates data; written `PUT`.
    Put,
    /// Deletes data; written `DELETE`.
    Delete,
    /// Executes a function; written `EXEC`.
    Exec,
}

impl MockResourceMethod {
    /// The token that stands for the method on the wire.
    pub open spec fn token(self) -> Seq<char> {
        match self {
            MockResourceMethod::Get => "GET"@,
            MockResourceMethod::Insert => "INSERT"@,
            MockResourceMethod::Put => "PUT"@,
            MockResourceMethod::Delete => "DELETE"@,
            MockResourceMethod::Exec => "EXEC"@,
        }
    }

    /// The method that a token stands for, if any.
    pub open spec fn from_token(t: Seq<char>) -> Option<MockResourceMethod> {
        if t == "GET"@ {
            Some(MockResourceMethod::Get)
        } else if t == "INSERT"@ {
            Some(MockResourceMethod::Insert)
        } else if t == "PUT"@ {
            Some(MockResourceMethod::Put)
        } else if t == "DELETE"@ {
            Some(MockResourceMethod::Delete)
        } else if t == "EXEC"@ {
            Some(MockResourceMethod::Exec)
        } else {
            None
        }
    }

    /// The message of a failed parse of `t`.
    pub open spec fn unknown_message(t: Seq<char>) -> Seq<char> {
        "Unknown method: "@ + t
    }

    /// The token of the method, such as `GET`.
    pub fn as_str(&self) -> (r: &'static str)
        ensures
            r@ == self.token(),
    {
        match self {
            MockResourceMethod::Get => "GET",
            MockResourceMethod::Insert => "INSERT",
            MockResourceMethod::Put => "PUT",
            MockResourceMethod::Delete => "DELETE",
            MockResourceMethod::Exec => "EXEC",
        }
    }

    /// The token of the method as an owned string.
    #[allow(clippy::inherent_to_string)]
    pub fn to_string(&self) -> (r: String)
        ensures
            r@ == self.token(),
    {
        self.as_str().to_owned()
    }

    /// Parses a token; any text but the five tokens is refused with a message
    /// that quotes it.
    pub fn from_str(s: &str) -> (r: Result<MockResourceMethod, String>)
        ensures
            Self::from_token(s@) matches Some(m) ==> r == Ok::<MockResourceMethod, String>(m),
            Self::from_token(s@) is None ==> (r matches Err(e) && e@ == Self::unknown_message(s@)),
    {
        let t = s.to_owned();
        if t == "GET".to_owned() {
            Ok(MockResourceMethod::Get)
        } else if t == "INSERT".to_owned() {
            Ok(MockResourceMethod::Insert)
        } else if t == "PUT".to_owned() {
            Ok(MockResourceMethod::Put)
        } else if t == "DELETE".to_owned() {
            Ok(MockResourceMethod::Delete)
        } else if t == "EXEC".to_owned() {
            Ok(MockResourceMethod::Exec)
        } else {
            let mut message = "Unknown method: ".to_owned();
            message.append(s);
            Err(message)
        }
    }
}

/// Every method reads back from its own token.
pub proof fn lemma_token_round_trip(m: MockResourceMethod)
    ensures
        MockResourceMethod::from_token(m.token()) == Some(m),
{
    reveal_strlit("GET");
    reveal_strlit("INSERT");
    reveal_strlit("PUT");
    reveal_strlit("DELETE");
    reveal_strlit("EXEC");
    assert("PUT"@[0] != "GET"@[0]);
    assert("DELETE"@.len() != "GET"@.len());
    assert("DELETE"@[0] != "INSERT"@[0]);
    assert("EXEC"@.len() != "GET"@.len() && "EXEC"@.len() != "INSERT"@.len());
    assert("EXEC"@.len() != "PUT"@.len() && "EXEC"@.len() != "DELETE"@.len());
    assert("PUT"@.len() != "INSERT"@.len());
}

} // verus!
