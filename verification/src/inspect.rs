//! Interpreting the engine's metadata query: the inspect command returns a
//! JSON array of records, one per queried container, and each record's
//! `State.OOMKilled` boolean says whether the container was killed for
//! exceeding its memory limit. The JSON is decoded by `serde_json` behind
//! one trusted wrapper whose outcome — a function of the text alone — is
//! stated under the name [`oom_decode_of`]; everything that depends on that
//! outcome is verified against the name.
use vstd::prelude::*;
use vstd::slice::slice_index_get;
use vstd::string::StringExecFns;

use crate::docker::Container;
use crate::errors::CmdError;
use crate::errors::Error;

verus! {

/// What the metadata text can decode to, as the engine's JSON shapes it.
#[derive(Copy, Clone, Debug, PartialEq, Eq, Structural)]
pub enum OomDecode {
    /// Not valid JSON, or valid JSON that is not an array.
    Undecodable,
    /// A JSON array of `records` entries, where exactly one was expected.
    Records { records: usize },
    /// Exactly one record, but without a boolean `State.OOMKilled` field.
    Malformed,
    /// Exactly one record, carrying this out-of-memory flag.
    Flag { oom: bool },
}

/// What the engine's metadata text decodes to; a function of the text
/// alone.
pub uninterp spec fn oom_decode_of(text: Seq<char>) -> OomDecode;

/// Relies on serde_json to decode the metadata text: `from_str` returns the
/// value tree exactly for valid JSON, `Value::as_array` yields the elements
/// exactly when the document is an array, `Value::get` finds a member of an
/// object, and `Value::as_bool` yields a boolean's value. The decode
/// depends on the text alone, so its outcome carries the name
/// `oom_decode_of`.
#[verifier::external_body]
fn decode_oom(s: &str) -> (r: OomDecode)
    ensures
        r == oom_decode_of(s@),
{
    let parsed: serde_json::Value = match serde_json::from_str(s) { Ok(v) => v, Err(_) => return OomDecode::Undecodable };
    let records = match parsed.as_array() { Some(a) => a, None => return OomDecode::Undecodable };
    if records.len() != 1 { return OomDecode::Records { records: records.len() } }
    let state = match records[0].get("State") { Some(v) => v, None => return OomDecode::Malformed };
    let flag = match state.get("OOMKilled") { Some(v) => v, None => return OomDecode::Malformed };
    match flag.as_bool() { Some(oom) => OomDecode::Flag { oom }, None => OomDecode::Malformed }
}

/// The captured lines joined back into one text with newline separators.
pub open spec fn join_nl(ls: Seq<Seq<char>>) -> Seq<char>
    decreases ls.len(),
{
    if ls.len() == 0 {
        Seq::empty()
    } else if ls.len() == 1 {
        ls[0]
    } else {
        join_nl(ls.drop_last()) + "\n"@ + ls.last()
    }
}

/// Join captured output lines with newline separators, as the engine emitted
/// them.
fn join_lines(lines: &Vec<String>) -> (r: String)
    ensures
        r@ == join_nl(crate::command::views_of(lines@)),
{
    let mut out = String::new();
    let mut i: usize = 0;
    proof {
        assert(crate::command::views_of(lines@).take(0) =~= Seq::<Seq<char>>::empty());
    }
    while i < lines.len()
        invariant
            i <= lines@.len(),
            out@ == join_nl(crate::command::views_of(lines@).take(i as int)),
        decreases lines@.len() - i,
    {
        let ghost vs = crate::command::views_of(lines@);
        proof {
            assert(vs.take(i as int + 1).drop_last() =~= vs.take(i as int));
            assert(vs.take(i as int + 1).last() == lines@[i as int]@);
        }
        if i > 0 {
            out = out.concat("\n");
        }
        out = out.concat(slice_index_get(lines.as_slice(), i).as_str());
        proof {
            if i == 0 {
                assert(join_nl(vs.take(1)) == vs.take(1)[0]);
                assert(out@ == join_nl(vs.take(i as int + 1)));
            } else {
                assert(join_nl(vs.take(i as int + 1)) == join_nl(vs.take(i as int)) + "\n"@
                    + lines@[i as int]@);
            }
        }
        i = i + 1;
    }
    proof {
        assert(crate::command::views_of(lines@).take(lines@.len() as int)
            =~= crate::command::views_of(lines@));
    }
    out
}

impl Container {
    /// Interpret the outcome of the metadata query for exactly this
    /// container. The captured lines are joined back into one text whose
    /// decode is the named `oom_decode_of`: a failed query or a text that
    /// does not decode is a `CommandFailure`; a record count other than one
    /// is reported as the inspection invariant violation, carrying that
    /// count; otherwise the single record's `State.OOMKilled` boolean is
    /// returned.
    pub fn inspect(&self, outcome: &Result<Vec<String>, CmdError>) -> (r: Result<bool, Error>)
        ensures
            outcome is Err ==> (r matches Err(e) && e is CommandFailure),
            outcome matches Ok(lines) ==> ({
                let d = oom_decode_of(join_nl(crate::command::views_of(lines@)));
                &&& (d matches OomDecode::Flag { oom } ==> r == Ok::<bool, Error>(oom))
                &&& (d matches OomDecode::Records { records } ==> r == Err::<bool, Error>(
                    Error::InspectionInvariantViolation { records },
                ))
                &&& (d is Undecodable ==> (r matches Err(e) && e is CommandFailure))
                &&& (d is Malformed ==> (r matches Err(e) && e is CommandFailure))
            }),
            r matches Err(e) ==> (e is CommandFailure || e is InspectionInvariantViolation),
    {
        let lines = match outcome {
            Err(_) => {
                return Err(
                    Error::CommandFailure {
                        context: String::from_str("container metadata query failed"),
                    },
                );
            },
            Ok(lines) => lines,
        };
        let text = join_lines(lines);
        match decode_oom(text.as_str()) {
            OomDecode::Flag { oom } => Ok(oom),
            OomDecode::Records { records } => Err(
                Error::InspectionInvariantViolation { records },
            ),
            OomDecode::Undecodable => Err(
                Error::CommandFailure {
                    context: String::from_str(
                        "container metadata did not decode to a record array",
                    ),
                },
            ),
            OomDecode::Malformed => Err(
                Error::CommandFailure {
                    context: String::from_str(
                        "container record has no boolean OOMKilled flag",
                    ),
                },
            ),
        }
    }
}

} // verus!
