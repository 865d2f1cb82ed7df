//! A publish/subscribe message router behind a small JSON request protocol.
//!
//! Connections send requests that name a method (`topic.create`,
//! `topic.subscribe`, `topic.publish`, `topic.unsubscribe`). A handler table
//! turns each request into a [`router::RouterCommand`] or an error response;
//! the [`router::Registry`] applies commands one at a time and answers each
//! with the deliveries it calls for. Nothing here performs I/O: callers feed
//! frames in and carry responses and deliveries out.

use vstd::prelude::*;

pub mod api;
pub mod config;
pub mod json;
pub mod kernel;
pub mod logger;
pub mod network;
pub mod router;
pub mod schema;
pub mod string_map;
pub mod text;

verus! {

/// The version of this library: major, minor, patch.
pub const VERSION: [i32; 3] = [0, 0, 1];

/// The version as a dotted triple of decimal numbers.
pub open spec fn version_text() -> Seq<char> {
    text::decimal(VERSION[0] as int) + seq!['.'] + text::decimal(VERSION[1] as int) + seq!['.']
        + text::decimal(VERSION[2] as int)
}

/// The version reads `0.0.1`.
pub proof fn lemma_version_text()
    ensures
        version_text() == "0.0.1"@,
{
    reveal_strlit("0.0.1");
    assert(version_text() =~= "0.0.1"@);
}

/// Returns the version in the form `major.minor.patch`.
pub fn get_version() -> (r: String)
    ensures
        r@ == version_text(),
{
    let mut out = text::int_text(VERSION[0] as i64);
    out.append(".");
    out.append(text::int_text(VERSION[1] as i64).as_str());
    out.append(".");
    out.append(text::int_text(VERSION[2] as i64).as_str());
    proof {
        reveal_strlit(".");
        assert("."@ =~= seq!['.']);
    }
    out
}

} // verus!
