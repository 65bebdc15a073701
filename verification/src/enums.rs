//! Status enumerations of the match lifecycle and of the finalization queue,
//! together with the snake_case spellings used by the persisted schema.

use vstd::prelude::*;

verus! {

/// Lifecycle of a match row. Transitions only ever move forward along
/// `waiting_create_tx -> created_on_chain -> joined_on_chain -> in_progress
/// -> result_pending_finalize -> finalizing -> (settled | refunded)`,
/// where `created_on_chain` may jump straight to `result_pending_finalize`
/// on a join timeout, and the two terminal statuses absorb.
#[derive(Clone, Copy, Debug, PartialEq, Eq, Structural)]
pub enum MatchStatus {
    WaitingCreateTx,
    CreatedOnChain,
    JoinedOnChain,
    InProgress,
    ResultPendingFinalize,
    Finalizing,
    Settled,
    Refunded,
}

/// What a finalization job asks the ledger to do.
#[derive(Clone, Copy, Debug, PartialEq, Eq, Structural)]
pub enum ChainJobType {
    Settle,
    ForceRefund,
}

/// Progress of a finalization job. `Confirmed` absorbs; `Failed` may be
/// revived to `Pending` by an admin retry.
#[derive(Clone, Copy, Debug, PartialEq, Eq, Structural)]
pub enum ChainJobStatus {
    Pending,
    Submitted,
    Retrying,
    Confirmed,
    Failed,
}

/// Outcome reported for a match: a winner, or a broken game to refund.
#[derive(Clone, Copy, Debug, PartialEq, Eq, Structural)]
pub enum ResultOutcome {
    Winner,
    Broken,
}

/// Position of a status along the forward direction of the state machine.
/// The two terminal statuses share the highest rank; a legal history never
/// decreases in rank and never leaves a terminal status.
pub open spec fn status_rank(s: MatchStatus) -> int {
    match s {
        MatchStatus::WaitingCreateTx => 0,
        MatchStatus::CreatedOnChain => 1,
        MatchStatus::JoinedOnChain => 2,
        MatchStatus::InProgress => 3,
        MatchStatus::ResultPendingFinalize => 4,
        MatchStatus::Finalizing => 5,
        MatchStatus::Settled => 6,
        MatchStatus::Refunded => 6,
    }
}

/// A status with no successor: `settled` or `refunded`.
pub open spec fn is_terminal_status(s: MatchStatus) -> bool {
    s == MatchStatus::Settled || s == MatchStatus::Refunded
}

/// One observation step of a match status: either nothing changed, or the
/// status moved strictly forward from a non-terminal status. This is the
/// "no backwards transition, terminal statuses absorb" law that every
/// store operation promises.
pub open spec fn status_progress(before: MatchStatus, after: MatchStatus) -> bool {
    before == after || (!is_terminal_status(before) && status_rank(before) < status_rank(after))
}

/// The schema spelling of a match status, as a character sequence.
pub open spec fn match_status_db_view(s: MatchStatus) -> Seq<char> {
    match s {
        MatchStatus::WaitingCreateTx => "waiting_create_tx"@,
        MatchStatus::CreatedOnChain => "created_on_chain"@,
        MatchStatus::JoinedOnChain => "joined_on_chain"@,
        MatchStatus::InProgress => "in_progress"@,
        MatchStatus::ResultPendingFinalize => "result_pending_finalize"@,
        MatchStatus::Finalizing => "finalizing"@,
        MatchStatus::Settled => "settled"@,
        MatchStatus::Refunded => "refunded"@,
    }
}

/// The schema spelling of a job type, as a character sequence.
pub open spec fn chain_job_type_db_view(t: ChainJobType) -> Seq<char> {
    match t {
        ChainJobType::Settle => "settle"@,
        ChainJobType::ForceRefund => "force_refund"@,
    }
}

/// The schema spelling of a job status, as a character sequence.
pub open spec fn chain_job_status_db_view(s: ChainJobStatus) -> Seq<char> {
    match s {
        ChainJobStatus::Pending => "pending"@,
        ChainJobStatus::Submitted => "submitted"@,
        ChainJobStatus::Retrying => "retrying"@,
        ChainJobStatus::Confirmed => "confirmed"@,
        ChainJobStatus::Failed => "failed"@,
    }
}

/// Compare two string slices by their character sequences.
pub fn str_eq(a: &str, b: &str) -> (r: bool)
    ensures
        r == (a@ == b@),
{
    let sa: String = a.to_owned();
    let sb: String = b.to_owned();
    sa == sb
}

/// Schema spelling of a match status.
pub fn match_status_to_db(value: MatchStatus) -> (r: &'static str)
    ensures
        r@ == match_status_db_view(value),
{
    match value {
        MatchStatus::WaitingCreateTx => "waiting_create_tx",
        MatchStatus::CreatedOnChain => "created_on_chain",
        MatchStatus::JoinedOnChain => "joined_on_chain",
        MatchStatus::InProgress => "in_progress",
        MatchStatus::ResultPendingFinalize => "result_pending_finalize",
        MatchStatus::Finalizing => "finalizing",
        MatchStatus::Settled => "settled",
        MatchStatus::Refunded => "refunded",
    }
}

/// Schema spelling of a job type.
pub fn chain_job_type_to_db(value: ChainJobType) -> (r: &'static str)
    ensures
        r@ == chain_job_type_db_view(value),
{
    match value {
        ChainJobType::Settle => "settle",
        ChainJobType::ForceRefund => "force_refund",
    }
}

/// Schema spelling of a job status.
pub fn chain_job_status_to_db(value: ChainJobStatus) -> (r: &'static str)
    ensures
        r@ == chain_job_status_db_view(value),
{
    match value {
        ChainJobStatus::Pending => "pending",
        ChainJobStatus::Submitted => "submitted",
        ChainJobStatus::Retrying => "retrying",
        ChainJobStatus::Confirmed => "confirmed",
        ChainJobStatus::Failed => "failed",
    }
}

/// Schema spelling of a terminal match status; only `settled` and
/// `refunded` have one, any other status is an internal fault.
pub fn match_status_to_final_db(value: MatchStatus) -> (r: Option<&'static str>)
    ensures
        is_terminal_status(value) ==> (r matches Some(s) && s@ == match_status_db_view(value)),
        !is_terminal_status(value) ==> r is None,
{
    match value {
        MatchStatus::Settled => Some("settled"),
        MatchStatus::Refunded => Some("refunded"),
        _ => None,
    }
}

/// Parse the schema spelling of a match status.
pub fn parse_match_status(raw: &str) -> (r: Option<MatchStatus>)
    ensures
        r matches Some(s) ==> raw@ == match_status_db_view(s),
        raw@ == "waiting_create_tx"@ ==> r == Some(MatchStatus::WaitingCreateTx),
        raw@ == "created_on_chain"@ ==> r == Some(MatchStatus::CreatedOnChain),
        raw@ == "joined_on_chain"@ ==> r == Some(MatchStatus::JoinedOnChain),
        raw@ == "in_progress"@ ==> r == Some(MatchStatus::InProgress),
        raw@ == "result_pending_finalize"@ ==> r == Some(MatchStatus::ResultPendingFinalize),
        raw@ == "finalizing"@ ==> r == Some(MatchStatus::Finalizing),
        raw@ == "settled"@ ==> r == Some(MatchStatus::Settled),
        raw@ == "refunded"@ ==> r == Some(MatchStatus::Refunded),
{
    proof {
        reveal_strlit("waiting_create_tx");
        reveal_strlit("created_on_chain");
        reveal_strlit("joined_on_chain");
        reveal_strlit("in_progress");
        reveal_strlit("result_pending_finalize");
        reveal_strlit("finalizing");
        reveal_strlit("settled");
        reveal_strlit("refunded");
        assert("waiting_create_tx"@.len() == 17);
        assert("created_on_chain"@.len() == 16);
        assert("joined_on_chain"@.len() == 15);
        assert("in_progress"@.len() == 11);
        assert("result_pending_finalize"@.len() == 23);
        assert("finalizing"@.len() == 10);
        assert("settled"@.len() == 7);
        assert("refunded"@.len() == 8);
    }
    if str_eq(raw, "waiting_create_tx") {
        Some(MatchStatus::WaitingCreateTx)
    } else if str_eq(raw, "created_on_chain") {
        Some(MatchStatus::CreatedOnChain)
    } else if str_eq(raw, "joined_on_chain") {
        Some(MatchStatus::JoinedOnChain)
    } else if str_eq(raw, "in_progress") {
        Some(MatchStatus::InProgress)
    } else if str_eq(raw, "result_pending_finalize") {
        Some(MatchStatus::ResultPendingFinalize)
    } else if str_eq(raw, "finalizing") {
        Some(MatchStatus::Finalizing)
    } else if str_eq(raw, "settled") {
        Some(MatchStatus::Settled)
    } else if str_eq(raw, "refunded") {
        Some(MatchStatus::Refunded)
    } else {
        None
    }
}

/// Parse the schema spelling of a job type.
pub fn parse_chain_job_type(raw: &str) -> (r: Option<ChainJobType>)
    ensures
        r matches Some(t) ==> raw@ == chain_job_type_db_view(t),
        raw@ == "settle"@ ==> r == Some(ChainJobType::Settle),
        raw@ == "force_refund"@ ==> r == Some(ChainJobType::ForceRefund),
{
    proof {
        reveal_strlit("settle");
        reveal_strlit("force_refund");
        assert("settle"@.len() == 6);
        assert("force_refund"@.len() == 12);
    }
    if str_eq(raw, "settle") {
        Some(ChainJobType::Settle)
    } else if str_eq(raw, "force_refund") {
        Some(ChainJobType::ForceRefund)
    } else {
        None
    }
}

/// Parse the schema spelling of a job status.
pub fn parse_chain_job_status(raw: &str) -> (r: Option<ChainJobStatus>)
    ensures
        r matches Some(s) ==> raw@ == chain_job_status_db_view(s),
        raw@ == "pending"@ ==> r == Some(ChainJobStatus::Pending),
        raw@ == "submitted"@ ==> r == Some(ChainJobStatus::Submitted),
        raw@ == "retrying"@ ==> r == Some(ChainJobStatus::Retrying),
        raw@ == "confirmed"@ ==> r == Some(ChainJobStatus::Confirmed),
        raw@ == "failed"@ ==> r == Some(ChainJobStatus::Failed),
{
    proof {
        reveal_strlit("pending");
        reveal_strlit("submitted");
        reveal_strlit("retrying");
        reveal_strlit("confirmed");
        reveal_strlit("failed");
        assert("pending"@.len() == 7);
        assert("submitted"@.len() == 9);
        assert("retrying"@.len() == 8);
        assert("confirmed"@.len() == 9);
        assert("failed"@.len() == 6);
        assert("submitted"@[0] == 's');
        assert("confirmed"@[0] == 'c');
    }
    if str_eq(raw, "pending") {
        Some(ChainJobStatus::Pending)
    } else if str_eq(raw, "submitted") {
        Some(ChainJobStatus::Submitted)
    } else if str_eq(raw, "retrying") {
        Some(ChainJobStatus::Retrying)
    } else if str_eq(raw, "confirmed") {
        Some(ChainJobStatus::Confirmed)
    } else if str_eq(raw, "failed") {
        Some(ChainJobStatus::Failed)
    } else {
        None
    }
}

/// Parse an optional schema spelling of a job type; `None` in means
/// "no row", which parses to `Some(None)`.
pub fn parse_chain_job_type_opt(raw: Option<&str>) -> (r: Option<Option<ChainJobType>>)
    ensures
        raw is None ==> r == Some(None::<ChainJobType>),
        r matches Some(Some(t)) ==> (raw matches Some(s) && s@ == chain_job_type_db_view(t)),
        raw matches Some(s) ==> (r is None ==> s@ != "settle"@ && s@ != "force_refund"@),
{
    match raw {
        None => Some(None),
        Some(s) => match parse_chain_job_type(s) {
            Some(t) => Some(Some(t)),
            None => None,
        },
    }
}

/// Parse an optional schema spelling of a job status; `None` in means
/// "no row", which parses to `Some(None)`.
pub fn parse_chain_job_status_opt(raw: Option<&str>) -> (r: Option<Option<ChainJobStatus>>)
    ensures
        raw is None ==> r == Some(None::<ChainJobStatus>),
        r matches Some(Some(t)) ==> (raw matches Some(s) && s@ == chain_job_status_db_view(t)),
        raw matches Some(s) ==> (r is None ==> s@ != "pending"@ && s@ != "submitted"@
            && s@ != "retrying"@ && s@ != "confirmed"@ && s@ != "failed"@),
{
    match raw {
        None => Some(None),
        Some(s) => match parse_chain_job_status(s) {
            Some(t) => Some(Some(t)),
            None => None,
        },
    }
}

} // verus!
