//! Upstream notifications.
//!
//! A notification is a value: the originating sprinkler id, the master
//! address it is bound for, and an ordered list of named string fields. Its
//! body serialises one field per line as `k = v`. Delivery itself is
//! asynchronous I/O and lives outside this library; the decision rule for
//! one delivery attempt -- delivered, or retry after a fixed delay -- is a
//! pure function here.

use vstd::prelude::*;

verus! {

/// Seconds a notifier waits before retrying after any transport failure.
pub const RETRY_DELAY: u64 = 20;

/// An upstream message: who sends it, where to, and its named fields.
#[derive(Clone, Debug)]
pub struct Notification {
    /// Id of the originating sprinkler.
    pub from: usize,
    /// Address of the master this notification is bound for.
    pub to_addr: String,
    /// Named fields, in the order they are serialised. Always carries a
    /// `msg` field; pod-scoped notifications also carry the pod
    /// namespace/name/uid.
    pub data: Vec<(String, String)>,
}

/// The field list as character sequences.
pub open spec fn data_view(data: Seq<(String, String)>) -> Seq<(Seq<char>, Seq<char>)> {
    data.map(|i: int, kv: (String, String)| (kv.0@, kv.1@))
}

/// One serialised field.
pub open spec fn spec_line(k: Seq<char>, v: Seq<char>) -> Seq<char> {
    k + " = "@ + v
}

/// The first `n` fields serialised one per line.
pub open spec fn spec_body_prefix(data: Seq<(String, String)>, n: int) -> Seq<char>
    decreases n,
{
    if n <= 0 {
        Seq::empty()
    } else if n == 1 {
        spec_line(data[0].0@, data[0].1@)
    } else {
        spec_body_prefix(data, n - 1) + "\n"@ + spec_line(data[n - 1].0@, data[n - 1].1@)
    }
}

/// The whole field list serialised, one `k = v` per line.
pub open spec fn spec_body(data: Seq<(String, String)>) -> Seq<char> {
    spec_body_prefix(data, data.len() as int)
}

impl Notification {
    /// Serialise the message body: each field as `k = v`, one per line, in
    /// field order.
    pub fn body_string(&self) -> (r: String)
        ensures
            r@ == spec_body(self.data@),
    {
        let mut acc = String::new();
        let n = self.data.len();
        let mut i: usize = 0;
        while i < n
            invariant
                n == self.data@.len(),
                0 <= i <= n,
                acc@ == spec_body_prefix(self.data@, i as int),
            decreases n - i,
        {
            if i > 0 {
                acc.append("\n");
            }
            acc.append(self.data[i].0.as_str());
            acc.append(" = ");
            acc.append(self.data[i].1.as_str());
            proof {
                assert(acc@ =~= spec_body_prefix(self.data@, i + 1));
            }
            i = i + 1;
        }
        acc
    }
}

/// Terminal decision of one delivery attempt.
#[derive(Clone, Copy, Debug, PartialEq, Eq, Structural)]
pub enum NotifyStep {
    /// The framed message was written out in full.
    Delivered,
    /// Some transport step failed; sleep `RETRY_DELAY` seconds and try
    /// again.
    RetryAfterDelay,
}

/// Decide one delivery attempt from what the transport did: only a
/// connection that was opened and written to counts as delivered; any
/// transport failure schedules a retry and is never surfaced.
pub fn transmit_outcome(connected: bool, written: bool) -> (s: NotifyStep)
    ensures
        s == NotifyStep::Delivered <==> connected && written,
{
    if connected && written {
        NotifyStep::Delivered
    } else {
        NotifyStep::RetryAfterDelay
    }
}

} // verus!
