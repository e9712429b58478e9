//! The session pruning runner: which sessions it asks the server to delete,
//! how it reads the answer, and how often it runs.

use std::fmt::Write;
use vstd::prelude::*;
use crate::upstream::{http_scheme, upstream_url};

verus! {

/// How long, in seconds, a session may stay idle before it is pruned: ten
/// minutes.
pub const IDLE_LIMIT_SECS: i64 = 600;

/// The text that chrono writes for the UTC instant `secs` seconds after the
/// Unix epoch under the strftime pattern `pattern`; `None` where the instant
/// lies outside chrono's range or the pattern does not format.
pub uninterp spec fn chrono_utc_text(secs: int, pattern: Seq<char>) -> Option<Seq<char>>;

/// Formats the UTC instant `secs` seconds after the Unix epoch with chrono's
/// `DateTime::<Utc>::from_timestamp` and `DateTime::format`. The result is
/// the named chrono text: `None` where `from_timestamp` finds the instant out
/// of range or the formatting reports an error. What that text is for given
/// values is left to chrono and not stated here.
#[verifier::external_body]
fn format_utc_timestamp(secs: i64, pattern: &str) -> (r: Option<String>)
    ensures
        match r {
            Some(t) => chrono_utc_text(secs as int, pattern@) == Some(t@),
            None => chrono_utc_text(secs as int, pattern@) is None,
        },
{
    let instant = chrono::DateTime::from_timestamp(secs, 0)?;
    let mut text = String::new();
    match write!(text, "{}", instant.format(pattern)) {
        Ok(()) => Some(text),
        Err(_) => None,
    }
}

/// The strftime pattern of the cutoff: `%F %T %Z`.
pub open spec fn cutoff_pattern() -> Seq<char> {
    seq!['%', 'F', ' ', '%', 'T', ' ', '%', 'Z']
}

/// `/sessions?last_interaction=lt.`
pub open spec fn prune_query_path() -> Seq<char> {
    seq![
        '/', 's', 'e', 's', 's', 'i', 'o', 'n', 's', '?', 'l', 'a', 's', 't', '_', 'i', 'n', 't',
        'e', 'r', 'a', 'c', 't', 'i', 'o', 'n', '=', 'l', 't', '.',
    ]
}

/// `http://{host}:{port}/sessions?last_interaction=lt.{cutoff}`
pub open spec fn prune_url_text(host: Seq<char>, port: Seq<char>, cutoff: Seq<char>) -> Seq<char> {
    http_scheme() + host + seq![':'] + port + prune_query_path() + cutoff
}

/// The URL that deletes every session whose last interaction is before
/// `cutoff`.
pub fn prune_url(host: &str, port: &str, cutoff: &str) -> (url: String)
    ensures
        url@ == prune_url_text(host@, port@, cutoff@),
{
    proof {
        reveal_strlit("http://");
        reveal_strlit(":");
        reveal_strlit("/sessions?last_interaction=lt.");
    }
    let mut url = String::from_str("http://");
    url.append(host);
    url.append(":");
    url.append(port);
    url.append("/sessions?last_interaction=lt.");
    url.append(cutoff);
    assert(url@ =~= prune_url_text(host@, port@, cutoff@));
    url
}

/// The prune URL for a run at `now` seconds after the Unix epoch: sessions
/// idle since before ten minutes ago, that instant written by chrono as
/// `%F %T %Z`. `None` where that instant cannot be formed or formatted.
pub open spec fn planned_prune_url(host: Seq<char>, port: Seq<char>, now: int) -> Option<Seq<char>> {
    if now - IDLE_LIMIT_SECS < i64::MIN {
        None
    } else {
        match chrono_utc_text(now - IDLE_LIMIT_SECS, cutoff_pattern()) {
            Some(cutoff) => Some(prune_url_text(host, port, cutoff)),
            None => None,
        }
    }
}

/// Plans one pruning request for a run at `now_secs` seconds after the Unix
/// epoch.
pub fn plan_prune(host: &str, port: &str, now_secs: i64) -> (r: Option<String>)
    ensures
        match r {
            Some(u) => planned_prune_url(host@, port@, now_secs as int) == Some(u@),
            None => planned_prune_url(host@, port@, now_secs as int) is None,
        },
        now_secs >= i64::MIN + 600 ==> match chrono_utc_text(now_secs - 600, seq!['%', 'F', ' ', '%', 'T', ' ', '%', 'Z']) {
            Some(t) => r is Some && r->0@ == prune_url_text(host@, port@, t),
            None => r is None,
        },
        now_secs < i64::MIN + 600 ==> r is None,
{
    proof {
        reveal_strlit("%F %T %Z");
        assert("%F %T %Z"@ =~= cutoff_pattern());
    }
    let cutoff = match now_secs.checked_sub(IDLE_LIMIT_SECS) {
        Some(c) => c,
        None => return None,
    };
    match format_utc_timestamp(cutoff, "%F %T %Z") {
        Some(text) => Some(prune_url(host, port, text.as_str())),
        None => None,
    }
}

/// The cutoff of a run is exactly ten minutes before it: the run at `now`
/// asks to delete the sessions whose last interaction is before the instant
/// `now - 600`, as chrono writes it under `%F %T %Z`; a run ten minutes
/// later than another names the other's own instant.
pub proof fn prune_cutoff_is_ten_minutes_before_now(host: Seq<char>, port: Seq<char>, now: int)
    requires
        i64::MIN + 600 <= now,
    ensures
        planned_prune_url(host, port, now) == match chrono_utc_text(now - 600, seq!['%', 'F', ' ', '%', 'T', ' ', '%', 'Z']) {
            Some(t) => Some(prune_url_text(host, port, t)),
            None => None,
        },
        chrono_utc_text(now, seq!['%', 'F', ' ', '%', 'T', ' ', '%', 'Z']) matches Some(t) ==> planned_prune_url(host, port, now + 600) == Some(
            prune_url_text(host, port, t),
        ),
{
    assert(cutoff_pattern() =~= seq!['%', 'F', ' ', '%', 'T', ' ', '%', 'Z']);
}

/// The pruning URL is the filter's upstream URL for the `sessions` table with
/// the query `last_interaction=lt.{cutoff}`, the cutoff text passed on
/// verbatim.
pub proof fn prune_url_is_a_filtered_sessions_url(host: Seq<char>, port: Seq<char>, cutoff: Seq<char>)
    ensures
        prune_url_text(host, port, cutoff) == upstream_url(host, port, seq!['s', 'e', 's', 's', 'i', 'o', 'n', 's'], seq!['l', 'a', 's', 't', '_', 'i', 'n', 't', 'e', 'r', 'a', 'c', 't', 'i', 'o', 'n', '=', 'l', 't', '.'] + cutoff),
{
    assert(prune_url_text(host, port, cutoff) =~= upstream_url(host, port, seq!['s', 'e', 's', 's', 'i', 'o', 'n', 's'], seq!['l', 'a', 's', 't', '_', 'i', 'n', 't', 'e', 'r', 'a', 'c', 't', 'i', 'o', 'n', '=', 'l', 't', '.'] + cutoff));
}

/// Whether an HTTP status counts as success: its hundreds digit is 2.
pub fn is_success_status(status: u16) -> (r: bool)
    ensures
        r == (status / 100 == 2),
        r == (200 <= status && status <= 299),
{
    status / 100 == 2
}

/// How a pruning request went.
#[derive(PartialEq, Eq, Structural, Clone, Copy, Debug)]
pub enum PruneOutcome {
    /// The server answered with a success status.
    Pruned,
    /// The request failed, or the server answered with another status.
    Failed,
}

/// Reads the answer to a pruning request: the status the server answered
/// with, or `None` where the request itself failed.
pub fn prune_outcome(status: Option<u16>) -> (r: PruneOutcome)
    ensures
        r == (match status {
            Some(s) => if 200 <= s && s <= 299 { PruneOutcome::Pruned } else { PruneOutcome::Failed },
            None => PruneOutcome::Failed,
        }),
{
    match status {
        Some(s) => if is_success_status(s) {
            PruneOutcome::Pruned
        } else {
            PruneOutcome::Failed
        },
        None => PruneOutcome::Failed,
    }
}

/// The pause between two pruning runs, in milliseconds: two minutes.
pub fn prune_interval_millis() -> (r: u64)
    ensures
        r == 120_000,
{
    1000 * 60 * 2
}

} // verus!
