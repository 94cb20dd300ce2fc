//! Rendering of the status page: the current history as an HTML document,
//! most recent first, each entry with its reason, a relative-time phrase
//! and an absolute UTC timestamp.

use vstd::prelude::*;
use vstd::string::StringExecFns;

use crate::clock::{format_relative, format_utc, now_millis, relative_text, utc_text, valid_time};
use crate::digits::{decimal_text, to_decimal};
use crate::store::{CanaryPing, CanaryState, PingModel, PING_COUNT};

verus! {

/// One history entry as an HTML list item: the reason, then the relative
/// phrase and the absolute UTC instant, measured against `now`.
pub open spec fn entry_text(e: PingModel, now: int) -> Seq<char> {
    "<li>"@ + e.reason + " - <time datetime=\""@ + utc_text(e.time) + "\">"@ + relative_text(
        e.time - now,
    ) + "</time></li>"@
}

/// All entries in order, each list item separated from the next by a line
/// break and the list's indentation.
pub open spec fn entries_text(h: Seq<PingModel>, now: int) -> Seq<char>
    decreases h.len(),
{
    if h.len() == 0 {
        Seq::empty()
    } else if h.len() == 1 {
        entry_text(h[0], now)
    } else {
        entry_text(h[0], now) + "\n    "@ + entries_text(h.drop_first(), now)
    }
}

/// Everything of the page before the capacity caption's number.
pub open spec fn page_head() -> Seq<char> {
    "<!DOCTYPE html>\n<meta charset=\"utf-8\">\n<title>presence canary</title>\n<style>\n    body {\n        max-width: 960px;\n        font-family: sans-serif;\n        font-size: 1.25em;\n        margin: 0 auto;\n    }\n</style>\n\n<h1>presence canary</h1>\n<p>known pings (up to "@
}

/// Everything between the capacity caption's number and the entry list.
pub open spec fn page_mid() -> Seq<char> {
    "):</p>\n<ol>\n    "@
}

/// Everything of the page after the entry list.
pub open spec fn page_tail() -> Seq<char> {
    "\n</ol>"@
}

/// The whole status page: head, capacity caption, the entries most recent
/// first, and tail.
pub open spec fn page_text(h: Seq<PingModel>, now: int) -> Seq<char> {
    page_head() + decimal_text(PING_COUNT as int) + page_mid() + entries_text(h, now)
        + page_tail()
}

/// Render one ping as its HTML list item, relative to the given instant.
pub fn render_entry(ping: &CanaryPing, now_millis_at: i64) -> (r: String)
    requires
        valid_time(ping@.time),
        valid_time(now_millis_at as int),
    ensures
        r@ == entry_text(ping@, now_millis_at as int),
{
    let delta = ping.time_millis - now_millis_at;
    let mut s = String::from_str("<li>");
    s.append(ping.reason.as_str());
    s.append(" - <time datetime=\"");
    let utc = format_utc(ping.time_millis);
    s.append(utc.as_str());
    s.append("\">");
    let rel = format_relative(delta);
    s.append(rel.as_str());
    s.append("</time></li>");
    proof {
        assert(s@ =~= entry_text(ping@, now_millis_at as int));
    }
    s
}

/// Render the tail of the entry list that starts at `idx`, each item
/// separated from the next by a line break and indentation.
fn render_entries_from(state: &CanaryState, idx: usize, now_millis_at: i64) -> (r: String)
    requires
        state.wf(),
        idx <= state@.len(),
        valid_time(now_millis_at as int),
    ensures
        r@ == entries_text(state@.skip(idx as int), now_millis_at as int),
    decreases state@.len() - idx,
{
    if idx >= state.pings.len() {
        let r = String::new();
        proof {
            assert(state@.skip(idx as int) =~= Seq::<PingModel>::empty());
        }
        r
    } else {
        proof {
            assert(state@.skip(idx as int)[0] == state@[idx as int]);
            assert(state.pings@[idx as int]@ == state@[idx as int]);
            assert(valid_time(state@[idx as int].time));
        }
        let mut s = render_entry(&state.pings[idx], now_millis_at);
        if idx + 1 < state.pings.len() {
            s.append("\n    ");
            let rest = render_entries_from(state, idx + 1, now_millis_at);
            s.append(rest.as_str());
            proof {
                assert(state@.skip(idx as int).drop_first() =~= state@.skip(idx as int + 1));
                assert(state@.skip(idx as int).len() > 1);
                assert(s@ =~= entries_text(state@.skip(idx as int), now_millis_at as int));
            }
        } else {
            proof {
                assert(state@.skip(idx as int).len() == 1);
                assert(s@ =~= entries_text(state@.skip(idx as int), now_millis_at as int));
            }
        }
        s
    }
}

/// Render the whole status page as it stands at the given instant.
pub fn render_status_page(state: &CanaryState, now_millis_at: i64) -> (r: String)
    requires
        state.wf(),
        valid_time(now_millis_at as int),
    ensures
        r@ == page_text(state@, now_millis_at as int),
{
    let mut s = String::from_str(
        "<!DOCTYPE html>\n<meta charset=\"utf-8\">\n<title>presence canary</title>\n<style>\n    body {\n        max-width: 960px;\n        font-family: sans-serif;\n        font-size: 1.25em;\n        margin: 0 auto;\n    }\n</style>\n\n<h1>presence canary</h1>\n<p>known pings (up to ",
    );
    let cap = to_decimal(PING_COUNT as u64);
    s.append(cap.as_str());
    s.append("):</p>\n<ol>\n    ");
    let entries = render_entries_from(state, 0, now_millis_at);
    s.append(entries.as_str());
    s.append("\n</ol>");
    proof {
        assert(state@.skip(0) =~= state@);
        assert(s@ =~= page_text(state@, now_millis_at as int));
    }
    s
}

/// Render the status page at the current instant. The store is only read:
/// the receiver is a shared reference, so no call can change it.
pub fn status_page(state: &CanaryState) -> (r: String)
    requires
        state.wf(),
    ensures
        exists|now: int| valid_time(now) && r@ == page_text(state@, now),
{
    let t = now_millis();
    let r = render_status_page(state, t);
    proof {
        assert(valid_time(t as int) && r@ == page_text(state@, t as int));
    }
    r
}

} // verus!
