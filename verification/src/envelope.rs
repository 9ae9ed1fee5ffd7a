//! The generic success/result/errors wrapper that the remote API puts around
//! every response, and its unwrapping rule.

use vstd::prelude::*;
use vstd::string::StringExecFns;

use crate::failure::Failure;

verus! {

/// One error entry of a response envelope.
#[derive(Debug, Clone)]
pub struct EnvelopeError {
    pub message: String,
}

/// The wrapper around every API response: a success flag, the payload, and an
/// ordered sequence of error messages. When `success` is false the payload
/// must not be trusted.
#[derive(Debug)]
pub struct Envelope<T> {
    pub result: T,
    pub success: bool,
    pub errors: Vec<EnvelopeError>,
}

/// The message texts of a sequence of envelope errors.
pub open spec fn messages_of(errors: Seq<EnvelopeError>) -> Seq<Seq<char>> {
    errors.map_values(|e: EnvelopeError| e.message@)
}

/// The error messages joined by newlines; an empty list renders as an
/// explicit marker rather than an empty string.
pub open spec fn joined_messages(msgs: Seq<Seq<char>>) -> Seq<char>
    decreases msgs.len(),
{
    if msgs.len() == 0 {
        "no error message given"@
    } else if msgs.len() == 1 {
        msgs[0]
    } else {
        joined_messages(msgs.drop_last()) + "\n"@ + msgs.last()
    }
}

fn join_messages(errors: &Vec<EnvelopeError>) -> (r: String)
    ensures
        r@ == joined_messages(messages_of(errors@)),
{
    if errors.len() == 0 {
        return String::from_str("no error message given");
    }
    let mut out = errors[0].message.clone();
    let ghost msgs = messages_of(errors@);
    proof {
        assert(msgs.take(1) =~= seq![msgs[0]]);
        assert(out@ == joined_messages(msgs.take(1)));
    }
    let mut i: usize = 1;
    while i < errors.len()
        invariant
            1 <= i <= errors@.len(),
            msgs == messages_of(errors@),
            out@ == joined_messages(msgs.take(i as int)),
        decreases errors@.len() - i,
    {
        out.append("\n");
        out.append(errors[i].message.as_str());
        proof {
            assert(msgs.take(i + 1).drop_last() =~= msgs.take(i as int));
            assert(msgs.take(i + 1).last() == msgs[i as int]);
        }
        i += 1;
    }
    proof {
        assert(msgs.take(errors@.len() as int) =~= msgs);
    }
    out
}

impl<T> Envelope<T> {
    /// Unwrap the envelope: hand the payload through when the server reported
    /// success, and reject the whole response otherwise, carrying the joined
    /// error messages.
    pub fn unwrap_result(self) -> (r: Result<T, Failure>)
        ensures
            r is Ok <==> self.success,
            r matches Ok(t) ==> t == self.result,
            r matches Err(f) ==> (f matches Failure::RequestRejected(m)
                && m@ == joined_messages(messages_of(self.errors@))),
    {
        if !self.success {
            return Err(Failure::RequestRejected(join_messages(&self.errors)));
        }
        Ok(self.result)
    }
}

} // verus!
