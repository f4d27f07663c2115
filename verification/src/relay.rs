//! The lines exchanged with the surf-relay.
//!
//! The surf-relay speaks newline-delimited JSON: one envelope per line, and one
//! line back for each.

use vstd::prelude::*;

verus! {

/// Why an exchange with the relay gave no reply.
#[derive(Clone, Copy, Debug, PartialEq, Eq, Structural)]
pub enum RelayError {
    /// The relay could not be reached.
    Connect,
    /// The connection refused its time limits.
    SetTimeout,
    /// The envelope could not be written.
    Write,
    /// The reply could not be read.
    Read,
    /// The relay closed the connection without a reply.
    Closed,
}

/// Whether `b` ends a line.
pub open spec fn is_line_end(b: u8) -> bool {
    b == 10 || b == 13
}

/// `line` without the line ends behind it.
pub open spec fn without_line_ends(line: Seq<u8>) -> Seq<u8>
    decreases line.len(),
{
    if line.len() > 0 && is_line_end(line.last()) {
        without_line_ends(line.drop_last())
    } else {
        line
    }
}

/// The payload of the line that the relay sent.
pub open spec fn payload(line: Seq<u8>) -> Result<Seq<u8>, RelayError> {
    if line.len() == 0 {
        Err(RelayError::Closed)
    } else {
        Ok(without_line_ends(line))
    }
}

/// The bytes to write for one envelope: the envelope and the newline that ends
/// it.
pub fn request_line(envelope: &Vec<u8>) -> (r: Vec<u8>)
    ensures
        r@ == envelope@.push(10),
{
    let mut r = envelope.clone();
    assert(r@ =~= envelope@);
    r.push(10);
    r
}

/// The payload of the line that the relay sent, which is empty where the relay
/// closed the connection.
pub fn reply_payload(line: Vec<u8>) -> (r: Result<Vec<u8>, RelayError>)
    ensures
        payload(line@) == (match r {
            Ok(reply) => Ok::<Seq<u8>, RelayError>(reply@),
            Err(e) => Err(e),
        }),
{
    if line.len() == 0 {
        return Err(RelayError::Closed);
    }
    let ghost whole = line@;
    let mut line = line;
    while line.len() > 0 && (line[line.len() - 1] == 10 || line[line.len() - 1] == 13)
        invariant
            without_line_ends(line@) == without_line_ends(whole),
        decreases line.len(),
    {
        let _ = line.pop();
    }
    Ok(line)
}

/// An envelope without a newline in it is written as exactly one line.
pub proof fn law_one_envelope_one_line(envelope: Seq<u8>)
    requires
        !envelope.contains(10u8),
    ensures
        forall|i: int|
            0 <= i < envelope.push(10).len() ==> (#[trigger] envelope.push(10)[i] == 10 <==> i
                == envelope.len()),
{
    assert forall|i: int| 0 <= i < envelope.push(10).len() implies (#[trigger] envelope.push(10)[i]
        == 10 <==> i == envelope.len()) by {
        if i < envelope.len() {
            assert(envelope.push(10)[i] == envelope[i]);
        }
    }
}

/// A payload that does not itself end in a line end comes through the framing
/// as it is, whether the relay ends its line with a newline or with a carriage
/// return and a newline.
pub proof fn law_framing_is_transparent(reply: Seq<u8>)
    requires
        reply.len() > 0 ==> !is_line_end(reply.last()),
    ensures
        payload(reply.push(10)) == Ok::<Seq<u8>, RelayError>(reply),
        payload(reply.push(13).push(10)) == Ok::<Seq<u8>, RelayError>(reply),
{
    reveal_with_fuel(without_line_ends, 3);
    assert(reply.push(10).drop_last() =~= reply);
    assert(reply.push(13).drop_last() =~= reply);
    assert(reply.push(13).push(10).drop_last() =~= reply.push(13));
}

/// The payload of a line is all of it but the newlines and carriage returns at
/// its end; only where nothing at all came is there none.
pub proof fn law_payload_is_the_line(reply: Seq<u8>, ends: Seq<u8>)
    requires
        reply.len() > 0 ==> reply.last() != 10 && reply.last() != 13,
        forall|i: int| 0 <= i < ends.len() ==> #[trigger] ends[i] == 10 || ends[i] == 13,
    ensures
        reply.len() + ends.len() > 0 ==> payload(reply + ends) == Ok::<Seq<u8>, RelayError>(reply),
        reply.len() + ends.len() == 0 ==> payload(reply + ends) == Err::<Seq<u8>, RelayError>(
            RelayError::Closed,
        ),
{
    lemma_line_ends_go(reply, ends);
}

proof fn lemma_line_ends_go(reply: Seq<u8>, ends: Seq<u8>)
    requires
        reply.len() > 0 ==> reply.last() != 10 && reply.last() != 13,
        forall|i: int| 0 <= i < ends.len() ==> #[trigger] ends[i] == 10 || ends[i] == 13,
    ensures
        without_line_ends(reply + ends) == reply,
    decreases ends.len(),
{
    if ends.len() > 0 {
        assert((reply + ends).last() == ends[ends.len() - 1]);
        assert((reply + ends).drop_last() =~= reply + ends.drop_last());
        lemma_line_ends_go(reply, ends.drop_last());
    } else {
        assert(reply + ends =~= reply);
    }
}

} // verus!
