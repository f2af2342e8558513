//! The reliable-write loop.
//!
//! A write call on a stream may accept fewer bytes than it was offered,
//! so one buffer is transmitted by a loop: offer the remainder, add what
//! was accepted to the count of confirmed bytes, and repeat until either
//! the whole buffer is confirmed or a call reports a negative result.
//! The decision taken after each call is `write_step`; `run_write` plays
//! the whole loop against a scripted transport, so the loop's behaviour
//! under any pattern of partial writes is itself a verified function.

use vstd::math::min;
use vstd::prelude::*;

verus! {

/// How the transmission of one buffer stands after a write call.
#[derive(Clone, Copy, Debug, PartialEq, Eq, Structural)]
pub enum WriteResult {
    /// Bytes remain unconfirmed; the loop must offer the remainder again.
    Sending,
    /// Every byte of the buffer is confirmed sent.
    Complete,
    /// A write call returned a negative result, carried here unchanged;
    /// the loop stops at once and no further write is attempted.
    Failed { code: i64 },
}

/// One decision of the reliable-write loop. `len` is the buffer length,
/// `sent` the count of bytes confirmed so far, and `ret` the raw result
/// of one write call that offered the remaining `len - sent` bytes: a
/// negative value is an error, a nonnegative value is the number of
/// bytes the transport accepted.
pub fn write_step(len: usize, sent: &mut usize, ret: i64) -> (r: WriteResult)
    requires
        *old(sent) < len,
        0 <= ret ==> ret <= len - *old(sent),
    ensures
        ret < 0 ==> r == (WriteResult::Failed { code: ret }) && *final(sent) == *old(sent),
        0 <= ret ==> *final(sent) == *old(sent) + ret,
        0 <= ret && *old(sent) + ret < len ==> r == WriteResult::Sending,
        0 <= ret && *old(sent) + ret == len ==> r == WriteResult::Complete,
{
    if ret < 0 {
        WriteResult::Failed { code: ret }
    } else {
        *sent = *sent + (ret as usize);
        if *sent == len {
            WriteResult::Complete
        } else {
            WriteResult::Sending
        }
    }
}

/// The write loop played against a scripted transport, as a function of
/// the script alone. The transport answers the call that offers
/// `len - sent` bytes with the head capacity `c` of the script: a
/// negative `c` is an error and ends the run; otherwise `min(c, len -
/// sent)` bytes are accepted. The run ends when the buffer is confirmed
/// (`Complete`), the script is exhausted (`Sending`), or a call fails
/// (`Failed`); the first component is the count of bytes confirmed when
/// it ended.
pub open spec fn write_run_model(len: int, sent: int, caps: Seq<i64>) -> (int, WriteResult)
    decreases caps.len(),
{
    if sent >= len {
        (len, WriteResult::Complete)
    } else if caps.len() == 0 {
        (sent, WriteResult::Sending)
    } else if caps[0] < 0 {
        (sent, WriteResult::Failed { code: caps[0] })
    } else {
        write_run_model(len, sent + min(caps[0] as int, len - sent), caps.skip(1))
    }
}

/// A run that starts with at most the whole buffer confirmed never
/// confirms more than the buffer, and it ends `Complete` exactly when
/// the whole buffer is confirmed.
pub proof fn lemma_run_bounds(len: int, sent: int, caps: Seq<i64>)
    requires
        0 <= sent <= len,
    ensures
        sent <= write_run_model(len, sent, caps).0 <= len,
        write_run_model(len, sent, caps).1 == WriteResult::Complete <==> write_run_model(
            len,
            sent,
            caps,
        ).0 == len,
    decreases caps.len(),
{
    if sent >= len || caps.len() == 0 || caps[0] < 0 {
    } else {
        lemma_run_bounds(len, sent + min(caps[0] as int, len - sent), caps.skip(1));
    }
}

/// Partial-write correctness: a transport that accepts at least one byte
/// per call, however few, completes the remaining `len - sent` bytes of
/// the buffer within that many calls. In particular a buffer of length
/// `N` is fully transmitted by a transport that accepts only one byte
/// per call, given a script of `N` ones.
pub proof fn lemma_progress_completes(len: int, sent: int, caps: Seq<i64>)
    requires
        0 <= sent <= len,
        forall|k: int| 0 <= k < caps.len() ==> caps[k] >= 1,
        caps.len() >= len - sent,
    ensures
        write_run_model(len, sent, caps).1 == WriteResult::Complete,
        write_run_model(len, sent, caps).0 == len,
    decreases caps.len(),
{
    if sent >= len {
    } else {
        let accepted: int = min(caps[0] as int, len - sent);
        assert(forall|k: int| 0 <= k < caps.skip(1).len() ==> caps.skip(1)[k] >= 1);
        lemma_progress_completes(len, sent + accepted, caps.skip(1));
    }
}

/// What one run of the write loop reports.
pub struct WriteRun {
    /// Bytes of the buffer confirmed sent when the run stopped.
    pub sent: usize,
    /// How the run ended.
    pub result: WriteResult,
    /// The bytes the transport accepted, in the order it accepted them.
    pub transmitted: Vec<u8>,
}

/// Runs the reliable-write loop for `buf` against the scripted transport
/// `caps` (one entry per write call, as in `write_run_model`). The bytes
/// the far end receives are exactly the confirmed prefix of the buffer:
/// nothing is skipped, repeated or reordered, whatever the chunking.
pub fn run_write(buf: &Vec<u8>, caps: &Vec<i64>) -> (r: WriteRun)
    ensures
        (r.sent as int, r.result) == write_run_model(buf@.len() as int, 0, caps@),
        r.sent <= buf@.len(),
        r.transmitted@ == buf@.take(r.sent as int),
        r.result == WriteResult::Complete <==> r.sent == buf@.len(),
        r.result == WriteResult::Complete ==> r.transmitted@ == buf@,
{
    let len: usize = buf.len();
    let mut sent: usize = 0;
    let mut transmitted: Vec<u8> = Vec::new();
    let mut i: usize = 0;
    proof {
        assert(caps@.skip(0) =~= caps@);
    }
    while sent < len && i < caps.len()
        invariant
            len == buf@.len(),
            sent <= len,
            i <= caps@.len(),
            transmitted@ == buf@.take(sent as int),
            write_run_model(len as int, sent as int, caps@.skip(i as int)) == write_run_model(
                len as int,
                0,
                caps@,
            ),
        decreases caps@.len() - i,
    {
        let cap: i64 = caps[i];
        proof {
            assert(caps@.skip(i as int)[0] == caps@[i as int]);
            assert(caps@.skip(i as int).skip(1) =~= caps@.skip(i as int + 1));
        }
        if cap < 0 {
            return WriteRun { sent, result: WriteResult::Failed { code: cap }, transmitted };
        }
        let remaining: usize = len - sent;
        let accepted: usize = if cap as u128 >= remaining as u128 {
            remaining
        } else {
            cap as usize
        };
        let mut j: usize = 0;
        while j < accepted
            invariant
                j <= accepted,
                sent + accepted <= len,
                len == buf@.len(),
                transmitted@ == buf@.take(sent as int + j as int),
            decreases accepted - j,
        {
            proof {
                assert(buf@.take(sent as int + j as int + 1) =~= buf@.take(
                    sent as int + j as int,
                ).push(buf@[sent as int + j as int]));
            }
            transmitted.push(buf[sent + j]);
            j = j + 1;
        }
        sent = sent + accepted;
        i = i + 1;
    }
    proof {
        assert(buf@.take(len as int) =~= buf@);
    }
    let result = if sent == len {
        WriteResult::Complete
    } else {
        WriteResult::Sending
    };
    WriteRun { sent, result, transmitted }
}

} // verus!
