//! What holds of the cache as a whole, stated over the models that the
//! contracts of the store, the evictor and the router use.

use vstd::prelude::*;
use vstd::utf8::decode_utf8;
use vstd::utf8::encode_utf8;
use vstd::utf8::valid_utf8;
use crate::entry::is_expired;
use crate::evictor::sweep_interval_of;
use crate::evictor::MAX_SWEEP_INTERVAL;
use crate::router::lowercase_of;
use crate::router::reply_of;
use crate::router::route_of;
use crate::router::size_token;
use crate::router::store_after;
use crate::router::verb_of;
use crate::router::Rejection;
use crate::router::Reply;
use crate::router::ReplyView;
use crate::router::Route;
use crate::router::Verb;
use crate::store::unexpired;

verus! {

/// The contents of a store after the writes `ws` (key, text, timestamp), in
/// order, on a store that held `m`.
pub open spec fn after_puts(
    m: Map<Seq<char>, (Seq<char>, u128)>,
    ws: Seq<(Seq<char>, Seq<char>, u128)>,
) -> Map<Seq<char>, (Seq<char>, u128)>
    decreases ws.len(),
{
    if ws.len() == 0 {
        m
    } else {
        after_puts(m, ws.drop_last()).insert(ws.last().0, (ws.last().1, ws.last().2))
    }
}

/// The keys that the writes `ws` name.
pub open spec fn written_keys(ws: Seq<(Seq<char>, Seq<char>, u128)>) -> Set<Seq<char>> {
    Set::new(|k: Seq<char>| exists|i: int| 0 <= i < ws.len() && (#[trigger] ws[i]).0 == k)
}

/// Every key is one that the router admits for a write: at least two bytes
/// long, and not the size token in any casing.
pub open spec fn keys_admitted(m: Map<Seq<char>, (Seq<char>, u128)>) -> bool {
    forall|k: Seq<char>| #[trigger]
        m.contains_key(k) ==> encode_utf8(k).len() >= 2 && lowercase_of(k) != size_token()
}

/// A write of a text body under a key that reads look up, followed by a read
/// of the same key, replies with the text written.
pub proof fn law_round_trip(
    m: Map<Seq<char>, (Seq<char>, u128)>,
    path: Seq<char>,
    body: Seq<u8>,
    now: u128,
    read_body: Seq<u8>,
)
    requires
        route_of(Verb::Read, path) == Route::Lookup,
        valid_utf8(body),
    ensures
        reply_of(m, Verb::Write, path, body) == ReplyView::Empty,
        reply_of(store_after(m, Verb::Write, path, body, now), Verb::Read, path, read_body)
            == ReplyView::Text(decode_utf8(body)),
{
}

/// An entry written at `t0` is gone after a sweep at `now` exactly when
/// `now - t0` is greater than the time-to-live; otherwise the sweep leaves
/// it as it was written. All other entries are judged by their own age.
pub proof fn law_sweep_removes_exactly_the_expired(
    m: Map<Seq<char>, (Seq<char>, u128)>,
    key: Seq<char>,
    text: Seq<char>,
    t0: u128,
    now: u128,
    ttl: u128,
)
    ensures
        unexpired(m.insert(key, (text, t0)), now, ttl).contains_key(key) <==> now as int - t0 as int
            <= ttl as int,
        now as int - t0 as int <= ttl as int ==> unexpired(m.insert(key, (text, t0)), now, ttl)[key]
            == (text, t0),
{
}

/// A read, after a sweep, of a key written at `t0`: an empty success where
/// the sweep came later than `t0 + ttl`, the text written where it came no
/// later. Without a sweep in between the read replies with the text,
/// whatever the entry's age.
pub proof fn law_read_after_sweep(
    m: Map<Seq<char>, (Seq<char>, u128)>,
    path: Seq<char>,
    body: Seq<u8>,
    t0: u128,
    sweep_time: u128,
    ttl: u128,
    read_body: Seq<u8>,
)
    requires
        route_of(Verb::Read, path) == Route::Lookup,
        valid_utf8(body),
    ensures
        ({
            let written = store_after(m, Verb::Write, path, body, t0);
            let swept = unexpired(written, sweep_time, ttl);
            &&& reply_of(written, Verb::Read, path, read_body) == ReplyView::Text(decode_utf8(body))
            &&& is_expired(t0, sweep_time, ttl) ==> reply_of(swept, Verb::Read, path, read_body)
                == ReplyView::Empty
            &&& !is_expired(t0, sweep_time, ttl) ==> reply_of(swept, Verb::Read, path, read_body)
                == ReplyView::Text(decode_utf8(body))
        }),
{
}

/// Sweeps that follow each other by the sweep interval leave no entry
/// resident for longer than the time-to-live and one interval: where a sweep
/// at `prev` came no later than the entry's expiry and the next one after
/// it, the next one comes within one interval of the expiry and finds the
/// entry expired.
pub proof fn law_next_sweep_is_due(t0: u128, ttl: u128, prev: u128, next: u128)
    requires
        next as int == prev as int + sweep_interval_of(ttl) as int,
        prev as int <= t0 as int + ttl as int,
        (t0 as int) + (ttl as int) < (next as int),
    ensures
        is_expired(t0, next, ttl),
        next as int <= t0 as int + ttl as int + sweep_interval_of(ttl) as int,
        next as int <= t0 as int + ttl as int + MAX_SWEEP_INTERVAL as int,
{
}

/// After a sweep the store holds exactly the keys whose age was at most the
/// time-to-live at sweep time, so its size is their count; a sweep never
/// adds a key.
pub proof fn law_size_after_sweep(m: Map<Seq<char>, (Seq<char>, u128)>, now: u128, ttl: u128)
    requires
        m.dom().finite(),
    ensures
        unexpired(m, now, ttl).dom() == m.dom().filter(
            |k: Seq<char>| now as int - m[k].1 as int <= ttl as int,
        ),
        unexpired(m, now, ttl).dom().finite(),
        unexpired(m, now, ttl).dom().len() <= m.dom().len(),
{
    let kept = m.dom().filter(|k: Seq<char>| now as int - m[k].1 as int <= ttl as int);
    assert(unexpired(m, now, ttl).dom() =~= kept);
    vstd::set_lib::lemma_len_subset(kept, m.dom());
}

/// Writes add exactly the keys they name: the keys after the writes are the
/// keys before together with the written ones, and the size grows by at most
/// one for each write.
pub proof fn law_size_bounded_by_writes(
    m: Map<Seq<char>, (Seq<char>, u128)>,
    ws: Seq<(Seq<char>, Seq<char>, u128)>,
)
    requires
        m.dom().finite(),
    ensures
        after_puts(m, ws).dom() == m.dom().union(written_keys(ws)),
        after_puts(m, ws).dom().finite(),
        written_keys(ws).finite(),
        written_keys(ws).len() <= ws.len(),
        after_puts(m, ws).dom().len() <= m.dom().len() + written_keys(ws).len(),
    decreases ws.len(),
{
    if ws.len() == 0 {
        assert(written_keys(ws) =~= Set::<Seq<char>>::empty());
        assert(after_puts(m, ws).dom() =~= m.dom().union(written_keys(ws)));
    } else {
        let front = ws.drop_last();
        let k = ws.last().0;
        law_size_bounded_by_writes(m, front);
        assert(written_keys(ws) =~= written_keys(front).insert(k)) by {
            assert forall|x: Seq<char>| written_keys(ws).contains(x) implies written_keys(
                front,
            ).insert(k).contains(x) by {
                let i = choose|i: int| 0 <= i < ws.len() && (#[trigger] ws[i]).0 == x;
                if i < front.len() {
                    assert(front[i].0 == x);
                }
            }
            assert forall|x: Seq<char>| written_keys(front).insert(k).contains(
                x,
            ) implies written_keys(ws).contains(x) by {
                if x == k {
                    assert(ws[ws.len() - 1].0 == x);
                } else {
                    let i = choose|i: int| 0 <= i < front.len() && (#[trigger] front[i]).0 == x;
                    assert(ws[i].0 == x);
                }
            }
        }
        assert(after_puts(m, ws).dom() =~= m.dom().union(written_keys(ws)));
        vstd::set_lib::lemma_len_union(m.dom(), written_keys(ws));
    }
}

/// Writes to pairwise distinct keys lose nothing: after all of them, each
/// key holds the text and the timestamp of its own write.
pub proof fn law_distinct_writes_all_kept(
    m: Map<Seq<char>, (Seq<char>, u128)>,
    ws: Seq<(Seq<char>, Seq<char>, u128)>,
    i: int,
)
    requires
        0 <= i < ws.len(),
        forall|a: int, b: int| 0 <= a < b < ws.len() ==> ws[a].0 != ws[b].0,
    ensures
        after_puts(m, ws).contains_key(ws[i].0),
        after_puts(m, ws)[ws[i].0] == (ws[i].1, ws[i].2),
    decreases ws.len(),
{
    if i < ws.len() - 1 {
        let front = ws.drop_last();
        assert forall|a: int, b: int| 0 <= a < b < front.len() implies front[a].0 != front[b].0 by {
            assert(ws[a].0 != ws[b].0);
        }
        law_distinct_writes_all_kept(m, front, i);
        assert(ws[i].0 != ws[ws.len() - 1].0);
    }
}

/// A write to the size token, in any casing, is rejected and leaves the
/// store as it was.
pub proof fn law_size_token_not_writable(
    m: Map<Seq<char>, (Seq<char>, u128)>,
    path: Seq<char>,
    body: Seq<u8>,
    now: u128,
)
    requires
        lowercase_of(path) == size_token(),
    ensures
        reply_of(m, Verb::Write, path, body) == ReplyView::Rejected(Rejection::MissingKey),
        Reply::status_of(reply_of(m, Verb::Write, path, body)) == 400,
        store_after(m, Verb::Write, path, body, now) == m,
{
}

/// A read of the size token looks at no key: two stores with equally many
/// entries get the same reply, whatever their keys are.
pub proof fn law_size_read_ignores_keys(
    m1: Map<Seq<char>, (Seq<char>, u128)>,
    m2: Map<Seq<char>, (Seq<char>, u128)>,
    path: Seq<char>,
    body: Seq<u8>,
)
    requires
        lowercase_of(path) == size_token(),
        m1.dom().len() == m2.dom().len(),
    ensures
        reply_of(m1, Verb::Read, path, body) == reply_of(m2, Verb::Read, path, body),
{
}

/// A path shorter than two bytes holds no key: a read and a write of it are
/// both rejected with status 400, and the store stays as it was.
pub proof fn law_empty_key_rejected(
    m: Map<Seq<char>, (Seq<char>, u128)>,
    path: Seq<char>,
    body: Seq<u8>,
    now: u128,
)
    requires
        encode_utf8(path).len() < 2,
    ensures
        reply_of(m, Verb::Read, path, body) == ReplyView::Rejected(Rejection::MissingKey),
        reply_of(m, Verb::Write, path, body) == ReplyView::Rejected(Rejection::MissingKey),
        Reply::status_of(ReplyView::Rejected(Rejection::MissingKey)) == 400,
        store_after(m, Verb::Read, path, body, now) == m,
        store_after(m, Verb::Write, path, body, now) == m,
{
}

/// A method that is neither `GET` nor `POST` gets status 404 on every path,
/// and the store stays as it was.
pub proof fn law_unknown_verb_not_found(
    m: Map<Seq<char>, (Seq<char>, u128)>,
    method: Seq<char>,
    path: Seq<char>,
    body: Seq<u8>,
    now: u128,
)
    requires
        method != "GET"@,
        method != "POST"@,
    ensures
        verb_of(method) == Verb::Other,
        reply_of(m, verb_of(method), path, body) == ReplyView::NotFound,
        Reply::status_of(reply_of(m, verb_of(method), path, body)) == 404,
        store_after(m, verb_of(method), path, body, now) == m,
{
}

/// Reads never change the store.
pub proof fn law_reads_change_nothing(
    m: Map<Seq<char>, (Seq<char>, u128)>,
    path: Seq<char>,
    body: Seq<u8>,
    now: u128,
)
    ensures
        store_after(m, Verb::Read, path, body, now) == m,
{
}

/// The router and the sweep keep the store's keys admitted: no operation
/// brings in an empty key or the size token.
pub proof fn law_keys_stay_admitted(
    m: Map<Seq<char>, (Seq<char>, u128)>,
    verb: Verb,
    path: Seq<char>,
    body: Seq<u8>,
    now: u128,
    ttl: u128,
)
    requires
        keys_admitted(m),
    ensures
        keys_admitted(store_after(m, verb, path, body, now)),
        keys_admitted(unexpired(m, now, ttl)),
{
    assert forall|k: Seq<char>| #[trigger]
        store_after(m, verb, path, body, now).contains_key(k) implies encode_utf8(k).len() >= 2
        && lowercase_of(k) != size_token() by {
        if k != path {
            assert(m.contains_key(k));
        }
    }
    assert forall|k: Seq<char>| #[trigger]
        unexpired(m, now, ttl).contains_key(k) implies encode_utf8(k).len() >= 2 && lowercase_of(k)
        != size_token() by {
        assert(m.contains_key(k));
    }
}

} // verus!
