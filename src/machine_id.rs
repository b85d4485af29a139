use vstd::prelude::*;

use crate::process::ProcessOutput;
use crate::text::{
    decode_lossy, find_key_value, key_value, lemma_key_value_nonempty, lines_of, names_key,
    occurs_in, utf8_lossy, words_of,
};

verus! {

/// Program that lists the machine's identifier.
pub const IDENTITY_QUERY_PROGRAM: &'static str = "reg";

/// Name of the entry that holds the identifier.
pub const MACHINE_GUID_KEY: &'static str = "MachineGuid";

/// What the probe reports when no identifier could be read.
pub const UNKNOWN_HWID: &'static str = "UNKNOWN_HWID";

/// The outcome of reading the machine identifier.
pub enum MachineIdentity {
    Identified(String),
    Unavailable,
}

impl MachineIdentity {
    /// The identifier read, if any.
    pub open spec fn value(self) -> Option<Seq<char>> {
        match self {
            MachineIdentity::Identified(v) => Some(v@),
            MachineIdentity::Unavailable => None,
        }
    }

    /// The identifier as plain text: the value, or the sentinel.
    pub fn to_text(&self) -> (r: String)
        ensures
            r@ == identity_text(self.value()),
    {
        match self {
            MachineIdentity::Identified(v) => v.clone(),
            MachineIdentity::Unavailable => String::from_str(UNKNOWN_HWID),
        }
    }
}

/// The identifier that a query listing gives.
pub open spec fn listed_identity(text: Seq<char>) -> Option<Seq<char>> {
    key_value(text, MACHINE_GUID_KEY@)
}

/// The identifier that a query gives: nothing where it could not run or
/// failed.
pub open spec fn query_identity(q: Result<ProcessOutput, String>) -> Option<Seq<char>> {
    match q {
        Ok(out) => if out.success {
            listed_identity(utf8_lossy(out.stdout@))
        } else {
            None
        },
        Err(_) => None,
    }
}

/// The identifier as text: the value, or the sentinel.
pub open spec fn identity_text(v: Option<Seq<char>>) -> Seq<char> {
    match v {
        Some(w) => w,
        None => UNKNOWN_HWID@,
    }
}

/// Arguments of the query that lists the identifier.
pub fn identity_query_args() -> (r: Vec<String>)
    ensures
        r@.len() == 4,
        r@[0]@ == "query"@,
        r@[1]@ == "HKEY_LOCAL_MACHINE\\SOFTWARE\\Microsoft\\Cryptography"@,
        r@[2]@ == "/v"@,
        r@[3]@ == MACHINE_GUID_KEY@,
{
    let mut r: Vec<String> = Vec::new();
    r.push(String::from_str("query"));
    r.push(String::from_str("HKEY_LOCAL_MACHINE\\SOFTWARE\\Microsoft\\Cryptography"));
    r.push(String::from_str("/v"));
    r.push(String::from_str(MACHINE_GUID_KEY));
    r
}

/// Reads the identifier out of the listing that the query printed.
pub fn identify(text: &str) -> (r: MachineIdentity)
    ensures
        r.value() == listed_identity(text@),
{
    match find_key_value(text, MACHINE_GUID_KEY) {
        Some(v) => MachineIdentity::Identified(v),
        None => MachineIdentity::Unavailable,
    }
}

/// Reads the identifier out of the query's outcome.
pub fn identity_from_query(q: &Result<ProcessOutput, String>) -> (r: MachineIdentity)
    ensures
        r.value() == query_identity(*q),
{
    match q {
        Ok(out) => if out.success {
            let text = decode_lossy(&out.stdout);
            identify(text.as_str())
        } else {
            MachineIdentity::Unavailable
        },
        Err(_) => MachineIdentity::Unavailable,
    }
}

/// The machine identifier as the host shows it: never empty, and the
/// sentinel wherever nothing could be read.
pub fn get_machine_id(q: &Result<ProcessOutput, String>) -> (r: String)
    ensures
        r@ == identity_text(query_identity(*q)),
        r@.len() > 0,
        query_identity(*q) is None ==> r@ == UNKNOWN_HWID@,
{
    let id = identity_from_query(q);
    proof {
        reveal_strlit("UNKNOWN_HWID");
        if let Ok(out) = q {
            lemma_key_value_nonempty(utf8_lossy(out.stdout@), MACHINE_GUID_KEY@);
        }
    }
    id.to_text()
}

/// A listing in which no line mentions the key gives no identifier.
pub proof fn lemma_no_key_line_unavailable(text: Seq<char>)
    requires
        forall|j: int|
            0 <= j < lines_of(text).len() ==> !occurs_in(MACHINE_GUID_KEY@, #[trigger] lines_of(text)[j]),
    ensures
        listed_identity(text) is None,
{
    assert forall|j: int| 0 <= j < lines_of(text).len() implies !names_key(
        #[trigger] lines_of(text)[j],
        MACHINE_GUID_KEY@,
    ) by {}
    crate::text::lemma_first_value_none(lines_of(text), MACHINE_GUID_KEY@);
}

/// Where line `k` is the first that mentions the key with at least three
/// words, the identifier is the last word of that line.
pub proof fn lemma_first_key_line_identity(text: Seq<char>, k: int)
    requires
        0 <= k < lines_of(text).len(),
        names_key(lines_of(text)[k], MACHINE_GUID_KEY@),
        forall|j: int| 0 <= j < k ==> !names_key(#[trigger] lines_of(text)[j], MACHINE_GUID_KEY@),
    ensures
        listed_identity(text) == Some(words_of(lines_of(text)[k]).last()),
{
    crate::text::lemma_first_value_at(lines_of(text), MACHINE_GUID_KEY@, k);
}

} // verus!
