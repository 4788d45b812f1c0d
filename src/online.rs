use vstd::prelude::*;

verus! {

/// Whether peer `i` is marked online: bit `i` of the vector, most significant bit
/// first within each byte.
pub open spec fn bit_set(states: Seq<u8>, i: int) -> bool {
    ((states[i / 8] >> ((7 - i % 8) as u8)) & 1u8) == 1u8
}

/// The ids among the first `n` whose bit is set (`online`) or clear (`!online`), in order.
pub open spec fn partition_upto(ids: Seq<String>, states: Seq<u8>, n: int, online: bool) -> Seq<String>
    decreases n,
{
    if n <= 0 {
        Seq::empty()
    } else {
        let p = partition_upto(ids, states, n - 1, online);
        if bit_set(states, n - 1) == online {
            p.push(ids[n - 1])
        } else {
            p
        }
    }
}

/// A presence vector covers a list when it holds a bit for every id.
pub open spec fn covers(n_ids: int, n_bytes: int) -> bool {
    n_ids <= n_bytes * 8
}

/// Splits `ids` into online and offline ones by the presence vector `states`;
/// `None` when the vector is too short for the list.
pub fn decode_online_states(ids: &Vec<String>, states: &Vec<u8>) -> (r: Option<(Vec<String>, Vec<String>)>)
    ensures
        !covers(ids@.len() as int, states@.len() as int) <==> r is None,
        match r {
            Some((on, off)) => on@ == partition_upto(ids@, states@, ids@.len() as int, true)
                && off@ == partition_upto(ids@, states@, ids@.len() as int, false),
            None => true,
        },
{
    if ids.len() / 8 > states.len() || (ids.len() / 8 == states.len() && ids.len() % 8 != 0) {
        return None;
    }
    let mut onlines: Vec<String> = Vec::new();
    let mut offlines: Vec<String> = Vec::new();
    let mut i: usize = 0;
    while i < ids.len()
        invariant
            i <= ids.len(),
            covers(ids@.len() as int, states@.len() as int),
            onlines@ == partition_upto(ids@, states@, i as int, true),
            offlines@ == partition_upto(ids@, states@, i as int, false),
        decreases ids.len() - i,
    {
        let shift: u8 = (7 - i % 8) as u8;
        let bit: u8 = 1;
        if ((states[i / 8] >> shift) & bit) == bit {
            onlines.push(ids[i].clone());
        } else {
            offlines.push(ids[i].clone());
        }
        i = i + 1;
    }
    Some((onlines, offlines))
}

fn copy_ids(ids: &Vec<String>) -> (r: Vec<String>)
    ensures
        r@ == ids@,
{
    let mut out: Vec<String> = Vec::new();
    let mut i: usize = 0;
    while i < ids.len()
        invariant
            i <= ids.len(),
            out@ == ids@.subrange(0, i as int),
        decreases ids.len() - i,
    {
        out.push(ids[i].clone());
        assert(out@ =~= ids@.subrange(0, i + 1));
        i = i + 1;
    }
    assert(out@ =~= ids@);
    out
}

/// What one attempt at the online-status service gave.
pub enum OnlineReply {
    /// The service could not be reached.
    ConnectFailed,
    /// The query could not be sent.
    SendFailed,
    /// The stream ended before an answer.
    Closed,
    /// An answer of another kind.
    Other,
    /// A presence vector.
    States(Vec<u8>),
}

/// What the querier does after one attempt.
pub enum QueryStep {
    /// Report these online and offline ids.
    Done(Vec<String>, Vec<String>),
    /// Wait a short while and ask again.
    Retry,
    /// The overall timeout has passed: give up with an error.
    GiveUp,
}

/// One attempt of an online-status query over `ids`, `elapsed_ms` after the query began.
pub fn query_online_step(
    ids: &Vec<String>,
    should_exit: bool,
    reply: &OnlineReply,
    elapsed_ms: u64,
    timeout_ms: u64,
) -> (r: QueryStep)
    ensures
        should_exit ==> match r {
            QueryStep::Done(on, off) => on@.len() == 0 && off@.len() == 0,
            _ => false,
        },
        !should_exit ==> match reply {
            OnlineReply::ConnectFailed | OnlineReply::SendFailed => match r {
                QueryStep::Done(on, off) => on@.len() == 0 && off@ == ids@,
                _ => false,
            },
            OnlineReply::States(s) if covers(ids@.len() as int, s@.len() as int) => match r {
                QueryStep::Done(on, off) => on@ == partition_upto(ids@, s@, ids@.len() as int, true)
                    && off@ == partition_upto(ids@, s@, ids@.len() as int, false),
                _ => false,
            },
            _ => if elapsed_ms > timeout_ms {
                r is GiveUp
            } else {
                r is Retry
            },
        },
{
    if should_exit {
        return QueryStep::Done(Vec::new(), Vec::new());
    }
    match reply {
        OnlineReply::ConnectFailed | OnlineReply::SendFailed => {
            return QueryStep::Done(Vec::new(), copy_ids(ids));
        },
        OnlineReply::States(s) => {
            if let Some((on, off)) = decode_online_states(ids, s) {
                return QueryStep::Done(on, off);
            }
        },
        _ => {},
    }
    if elapsed_ms > timeout_ms {
        QueryStep::GiveUp
    } else {
        QueryStep::Retry
    }
}

} // verus!
