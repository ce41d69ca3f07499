//! Debug-endpoint discovery and the relaunch policy.
//!
//! In network mode the browser prints one diagnostic line
//! `...listening on <url>/devtools/browser/<id>` on its error stream; the
//! launcher scans that stream for it.  A line with an `ERROR ... bind`
//! diagnostic means the chosen port is already bound: a distinct, immediate
//! failure, never coalesced into the discovery timeout.  When discovery
//! fails on an auto-selected port the whole spawn is retried a bounded
//! number of times; a user-pinned port is never retried.

use vstd::prelude::*;
use rand::seq::SliceRandom;
use crate::errors::ChromeLaunchError;
use crate::strfind::match_at;
use crate::strfind::occurs_from;
use crate::strfind::find_from;
use crate::strfind::contains_substr;

verus! {

/// The diagnostic stream reports the debugging port already bound: an
/// `ERROR` followed, later on the same line, by `bind`.
pub open spec fn indicates_port_in_use(line: Seq<char>) -> bool {
    exists|i: int, j: int|
        match_at(line, "ERROR"@, i) && match_at(line, "bind"@, j) && j >= i + "ERROR"@.len()
}

/// A debug-endpoint URL announcement starts at `i`: the marker text, and a
/// browser-endpoint path somewhere in what follows it.
pub open spec fn ws_url_starts_at(line: Seq<char>, i: int) -> bool {
    match_at(line, "listening on "@, i) && occurs_from(
        line.subrange(i + "listening on "@.len(), line.len() as int),
        "/devtools/browser/"@,
        0,
    )
}

/// The line announces the debug endpoint somewhere.
pub open spec fn line_yields_ws_url(line: Seq<char>) -> bool {
    exists|i: int| ws_url_starts_at(line, i)
}

/// The URL text of an announcement starting at `i`: everything after the
/// marker.
pub open spec fn ws_url_at(line: Seq<char>, i: int) -> Seq<char> {
    line.subrange(i + "listening on "@.len(), line.len() as int)
}

/// What one diagnostic line means to the launcher.
pub enum OutputLineVerdict {
    /// The chosen debugging port is already bound.
    PortInUse,
    /// The debug endpoint was announced: here is its URL.
    WsUrl(String),
    /// Neither; the line is ignored.
    NotRecognized,
}

/// Scan one line of the browser's diagnostic output.  A bind error wins
/// over anything else on the line; otherwise the first endpoint
/// announcement is extracted.
pub fn scan_output_line(line: &str) -> (r: OutputLineVerdict)
    ensures
        r is PortInUse <==> indicates_port_in_use(line@),
        r is NotRecognized <==> (!indicates_port_in_use(line@) && !line_yields_ws_url(line@)),
        match r {
            OutputLineVerdict::WsUrl(u) => {
                &&& !indicates_port_in_use(line@)
                &&& exists|i: int|
                    ws_url_starts_at(line@, i) && (forall|j: int|
                        0 <= j < i ==> !ws_url_starts_at(line@, j)) && u@ == ws_url_at(line@, i)
            },
            _ => true,
        },
{
    proof {
        reveal_strlit("ERROR");
        reveal_strlit("listening on ");
    }
    let line_len = line.unicode_len();
    match find_from(line, "ERROR", 0) {
        Some(e0) => {
            assert(e0 + 5 <= line_len);
            match find_from(line, "bind", e0 + 5) {
                Some(_) => {
                    return OutputLineVerdict::PortInUse;
                },
                None => {
                    proof {
                        assert forall|i: int, j: int|
                            !(match_at(line@, "ERROR"@, i) && match_at(line@, "bind"@, j) && j >= i
                                + "ERROR"@.len()) by {
                            if match_at(line@, "ERROR"@, i) && match_at(line@, "bind"@, j) && j >= i
                                + 5 {
                                assert(i >= e0);
                            }
                        }
                    }
                },
            }
        },
        None => {},
    }
    assert(!indicates_port_in_use(line@));
    let mut start: usize = 0;
    loop
        invariant
            start <= line_len,
            line_len == line@.len(),
            !indicates_port_in_use(line@),
            forall|j: int| 0 <= j < start ==> !ws_url_starts_at(line@, j),
        decreases line_len - start,
    {
        proof {
            reveal_strlit("listening on ");
        }
        match find_from(line, "listening on ", start) {
            None => {
                proof {
                    assert forall|j: int| !ws_url_starts_at(line@, j) by {
                        if ws_url_starts_at(line@, j) {
                            assert(match_at(line@, "listening on "@, j));
                            assert(j < start);
                        }
                    }
                }
                return OutputLineVerdict::NotRecognized;
            },
            Some(i) => {
                assert(i + 13 <= line_len);
                let suffix = line.substring_char(i + 13, line_len);
                if contains_substr(suffix, "/devtools/browser/") {
                    let url = suffix.to_owned();
                    proof {
                        assert(ws_url_starts_at(line@, i as int));
                        assert(url@ == ws_url_at(line@, i as int));
                        assert forall|j: int| 0 <= j < i implies !ws_url_starts_at(line@, j) by {
                            if j >= start {
                                assert(!match_at(line@, "listening on "@, j));
                            }
                        }
                    }
                    return OutputLineVerdict::WsUrl(url);
                } else {
                    proof {
                        assert(!ws_url_starts_at(line@, i as int));
                        assert forall|j: int| 0 <= j < i + 1 implies !ws_url_starts_at(
                            line@,
                            j,
                        ) by {
                            if j >= start && j < i {
                                assert(!match_at(line@, "listening on "@, j));
                            }
                        }
                    }
                    start = i + 1;
                }
            },
        }
    }
}

/// Scan the diagnostic lines read so far, in order.  The first line that
/// means something decides: a bind error fails discovery immediately with
/// [`ChromeLaunchError::DebugPortInUse`] — never a timeout — and an
/// endpoint announcement succeeds with its URL; if no line means anything
/// yet, there is no verdict and the caller keeps polling.
pub fn ws_url_from_reader(lines: &Vec<String>) -> (r: Result<Option<String>, ChromeLaunchError>)
    ensures
        match r {
            Err(e) => e is DebugPortInUse,
            Ok(_) => true,
        },
        (r is Err) <==> (exists|k: int| {
            &&& 0 <= k < lines@.len()
            &&& indicates_port_in_use(lines@[k]@)
            &&& forall|m: int|
                0 <= m < k ==> !indicates_port_in_use(lines@[m]@) && !line_yields_ws_url(
                    lines@[m]@,
                )
        }),
        (match r {
            Ok(o) => o is None,
            Err(_) => false,
        }) <==> (forall|k: int|
            0 <= k < lines@.len() ==> !indicates_port_in_use(lines@[k]@) && !line_yields_ws_url(
                lines@[k]@,
            )),
        match r {
            Ok(o) => match o {
                Some(u) => (exists|k: int| {
                    &&& 0 <= k < lines@.len()
                    &&& !indicates_port_in_use(lines@[k]@)
                    &&& line_yields_ws_url(lines@[k]@)
                    &&& forall|m: int|
                        0 <= m < k ==> !indicates_port_in_use(lines@[m]@) && !line_yields_ws_url(
                            lines@[m]@,
                        )
                    &&& exists|i: int|
                        ws_url_starts_at(lines@[k]@, i) && (forall|j: int|
                            0 <= j < i ==> !ws_url_starts_at(lines@[k]@, j)) && u@ == ws_url_at(
                            lines@[k]@,
                            i,
                        )
                }),
                None => true,
            },
            Err(_) => true,
        },
{
    let mut k: usize = 0;
    while k < lines.len()
        invariant
            k <= lines@.len(),
            forall|m: int|
                0 <= m < k ==> !indicates_port_in_use(lines@[m]@) && !line_yields_ws_url(
                    lines@[m]@,
                ),
        decreases lines@.len() - k,
    {
        match scan_output_line(lines[k].as_str()) {
            OutputLineVerdict::PortInUse => {
                return Err(ChromeLaunchError::DebugPortInUse);
            },
            OutputLineVerdict::WsUrl(u) => {
                return Ok(Some(u));
            },
            OutputLineVerdict::NotRecognized => {},
        }
        k = k + 1;
    }
    Ok(None)
}

/// How many times a failed discovery is retried with a fresh process when
/// the port was auto-selected.
pub const MAX_PORT_DISCOVERY_ATTEMPTS: u32 = 10;

/// What the launcher does after one failed endpoint discovery.
pub enum RetryVerdict {
    /// Spawn a fresh process on a newly selected port and try again.
    TryAgain,
    /// The bounded attempt budget is spent: fail with "no available ports".
    NoPortsLeft,
    /// The port was pinned by the user: fail immediately with the
    /// discovery error, never retry.
    PropagateError,
}

/// The relaunch policy: a pinned port propagates its failure immediately;
/// an auto-selected port is retried until the attempt budget is spent.
pub fn after_discovery_failure(attempts_so_far: u32, port_pinned: bool) -> (r: RetryVerdict)
    ensures
        port_pinned <==> r is PropagateError,
        (!port_pinned && attempts_so_far <= MAX_PORT_DISCOVERY_ATTEMPTS) <==> r is TryAgain,
        (!port_pinned && attempts_so_far > MAX_PORT_DISCOVERY_ATTEMPTS) <==> r is NoPortsLeft,
{
    if port_pinned {
        RetryVerdict::PropagateError
    } else if attempts_so_far <= MAX_PORT_DISCOVERY_ATTEMPTS {
        RetryVerdict::TryAgain
    } else {
        RetryVerdict::NoPortsLeft
    }
}

/// The fixed range scanned for an auto-selected debugging port.
pub open spec fn candidate_ports() -> Seq<u16> {
    Seq::new(1000, |i: int| (8000 + i) as u16)
}

/// The candidate ports in their fixed order.
pub fn port_candidates() -> (r: Vec<u16>)
    ensures
        r@ == candidate_ports(),
{
    let mut v: Vec<u16> = Vec::new();
    let mut k: usize = 0;
    while k < 1000
        invariant
            k <= 1000,
            v@ =~= candidate_ports().subrange(0, k as int),
        decreases 1000 - k,
    {
        v.push((8000 + k) as u16);
        proof {
            assert(v@ =~= candidate_ports().subrange(0, k as int + 1));
        }
        k = k + 1;
    }
    proof {
        assert(candidate_ports().subrange(0, 1000) =~= candidate_ports());
    }
    v
}

/// Relies on rand's SliceRandom::shuffle: permutes the slice in place, so
/// the contents are preserved as a multiset.
#[verifier::external_body]
fn shuffle_u16s(v: &mut Vec<u16>)
    ensures
        final(v)@.to_multiset() == old(v)@.to_multiset(),
{
    v.shuffle(&mut rand::thread_rng());
}

/// The candidate ports in a fresh random order, so that concurrent
/// launches scan the range differently.  Whatever the order, it holds
/// every port of the range exactly once.
pub fn shuffled_port_candidates() -> (r: Vec<u16>)
    ensures
        r@.to_multiset() == candidate_ports().to_multiset(),
        r@.len() == 1000,
        forall|k: int| 0 <= k < r@.len() ==> 8000 <= #[trigger] r@[k] < 9000,
{
    let mut v = port_candidates();
    shuffle_u16s(&mut v);
    proof {
        broadcast use vstd::seq_lib::group_to_multiset_ensures;

        assert(v@.to_multiset().len() == v@.len());
        assert(candidate_ports().to_multiset().len() == candidate_ports().len());
        assert(v@.len() == candidate_ports().len());
        assert forall|k: int| 0 <= k < v@.len() implies 8000 <= #[trigger] v@[k] < 9000 by {
            assert(v@.contains(v@[k]));
            assert(v@.to_multiset().count(v@[k]) > 0);
            assert(candidate_ports().to_multiset().count(v@[k]) > 0);
            assert(candidate_ports().contains(v@[k]));
            let w = choose|w: int|
                0 <= w < candidate_ports().len() && candidate_ports()[w] == v@[k];
            assert(candidate_ports()[w] == (8000 + w) as u16);
        }
    }
    v
}

} // verus!
