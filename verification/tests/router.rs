use expiring_cache::evictor::Evictor;
use expiring_cache::router::{
    classify, handle, handle_at, route, Label, Outcome, Rejection, Reply, Route, Verb,
};
use expiring_cache::store::Store;

const SECOND: u128 = 1_000_000_000;

fn read(store: &mut Store, path: &str, now: u128) -> Outcome {
    handle_at(store, Verb::Read, path, Vec::new(), now)
}

fn write(store: &mut Store, path: &str, body: &str, now: u128) -> Outcome {
    handle_at(store, Verb::Write, path, body.as_bytes().to_vec(), now)
}

fn text(s: &str) -> Reply {
    Reply::Text(String::from(s))
}

#[test]
fn method_names_are_case_sensitive() {
    assert_eq!(Verb::from_method("GET"), Verb::Read);
    assert_eq!(Verb::from_method("POST"), Verb::Write);
    assert_eq!(Verb::from_method("get"), Verb::Other);
    assert_eq!(Verb::from_method("Post"), Verb::Other);
    assert_eq!(Verb::from_method("PUT"), Verb::Other);
    assert_eq!(Verb::from_method("DELETE"), Verb::Other);
    assert_eq!(Verb::from_method(""), Verb::Other);
}

#[test]
fn labels_by_verb() {
    assert_eq!(Verb::Read.label(), Label::Get);
    assert_eq!(Verb::Write.label(), Label::Post);
    assert_eq!(Verb::Other.label(), Label::Other);
    assert_eq!(Label::Get.name(), "get");
    assert_eq!(Label::Post.name(), "post");
    assert_eq!(Label::Other.name(), "other");
}

#[test]
fn status_codes() {
    assert_eq!(Reply::Rejected(Rejection::MissingKey).status(), 400);
    assert_eq!(Reply::Rejected(Rejection::NotText).status(), 400);
    assert_eq!(text("x").status(), 200);
    assert_eq!(Reply::Exposition.status(), 200);
    assert_eq!(Reply::Empty.status(), 200);
    assert_eq!(Reply::NotFound.status(), 404);
}

#[test]
fn rejection_messages() {
    assert_eq!(Rejection::MissingKey.message(), "Must provide a key in the path");
    assert_eq!(Rejection::NotText.message(), "Body must be valid UTF-8 text");
}

#[test]
fn classify_reads() {
    assert_eq!(classify(Verb::Read, 0, ""), Route::Invalid);
    assert_eq!(classify(Verb::Read, 1, "/"), Route::Invalid);
    assert_eq!(classify(Verb::Read, 1, "/size"), Route::Invalid);
    assert_eq!(classify(Verb::Read, 5, "/size"), Route::Size);
    assert_eq!(classify(Verb::Read, 8, "/metrics"), Route::Metrics);
    assert_eq!(classify(Verb::Read, 5, "/SIZE"), Route::Lookup);
    assert_eq!(classify(Verb::Read, 6, "/sizes"), Route::Lookup);
    assert_eq!(classify(Verb::Read, 2, "/k"), Route::Lookup);
}

#[test]
fn classify_writes() {
    assert_eq!(classify(Verb::Write, 0, ""), Route::Invalid);
    assert_eq!(classify(Verb::Write, 1, "/"), Route::Invalid);
    assert_eq!(classify(Verb::Write, 5, "/size"), Route::Invalid);
    assert_eq!(classify(Verb::Write, 8, "/metrics"), Route::Store);
    assert_eq!(classify(Verb::Write, 2, "/k"), Route::Store);
}

#[test]
fn classify_other_verbs() {
    assert_eq!(classify(Verb::Other, 0, ""), Route::Unsupported);
    assert_eq!(classify(Verb::Other, 5, "/size"), Route::Unsupported);
    assert_eq!(classify(Verb::Other, 2, "/k"), Route::Unsupported);
}

#[test]
fn reserved_tokens_match_in_any_casing() {
    assert_eq!(route(Verb::Read, "/size"), Route::Size);
    assert_eq!(route(Verb::Read, "/SIZE"), Route::Size);
    assert_eq!(route(Verb::Read, "/SiZe"), Route::Size);
    assert_eq!(route(Verb::Read, "/metrics"), Route::Metrics);
    assert_eq!(route(Verb::Read, "/METRICS"), Route::Metrics);
    assert_eq!(route(Verb::Read, "/Metrics"), Route::Metrics);
    assert_eq!(route(Verb::Write, "/size"), Route::Invalid);
    assert_eq!(route(Verb::Write, "/Size"), Route::Invalid);
    assert_eq!(route(Verb::Write, "/SIZE"), Route::Invalid);
    assert_eq!(route(Verb::Write, "/Metrics"), Route::Store);
}

#[test]
fn keys_keep_their_casing() {
    let mut s = Store::new();
    write(&mut s, "/Key", "upper", 1);
    write(&mut s, "/key", "lower", 2);
    assert_eq!(s.size(), 2);
    assert_eq!(read(&mut s, "/Key", 3).reply, text("upper"));
    assert_eq!(read(&mut s, "/key", 3).reply, text("lower"));
    assert_eq!(read(&mut s, "/KEY", 3).reply, Reply::Empty);
}

#[test]
fn path_length_counts_bytes() {
    // one character, two bytes
    assert_eq!(route(Verb::Read, "\u{e9}"), Route::Lookup);
    assert_eq!(route(Verb::Write, "\u{e9}"), Route::Store);
    assert_eq!(route(Verb::Read, "k"), Route::Invalid);
    assert_eq!(route(Verb::Write, "k"), Route::Invalid);
    assert_eq!(route(Verb::Read, "/k"), Route::Lookup);
}

#[test]
fn round_trip() {
    let mut s = Store::new();
    let w = write(&mut s, "/k1", "foo", 5);
    assert_eq!(w, Outcome { reply: Reply::Empty, label: Label::Post, wrote: true });
    let r = read(&mut s, "/k1", 6);
    assert_eq!(r, Outcome { reply: text("foo"), label: Label::Get, wrote: false });
    assert_eq!(s.get("/k1").unwrap().timestamp(), 5);
}

#[test]
fn round_trip_of_unicode_and_empty_bodies() {
    let mut s = Store::new();
    write(&mut s, "/u", "h\u{e9}llo \u{1f600}", 1);
    assert_eq!(read(&mut s, "/u", 2).reply, text("h\u{e9}llo \u{1f600}"));
    let w = write(&mut s, "/e", "", 1);
    assert!(w.wrote);
    assert_eq!(read(&mut s, "/e", 2).reply, text(""));
    assert_eq!(s.size(), 2);
}

#[test]
fn round_trip_on_wall_clock() {
    let mut s = Store::new();
    let w = handle(&mut s, "POST", "/k", b"v".to_vec());
    assert_eq!(w, Outcome { reply: Reply::Empty, label: Label::Post, wrote: true });
    let r = handle(&mut s, "GET", "/k", Vec::new());
    assert_eq!(r, Outcome { reply: text("v"), label: Label::Get, wrote: false });
    assert!(!s.get("/k").unwrap().expired());
}

#[test]
fn write_replaces_earlier_write() {
    let mut s = Store::new();
    write(&mut s, "/k", "one", 1);
    write(&mut s, "/k", "two", 2);
    assert_eq!(read(&mut s, "/k", 3).reply, text("two"));
    assert_eq!(read(&mut s, "/size", 3).reply, text("1"));
}

#[test]
fn read_of_absent_key_is_empty_success() {
    let mut s = Store::new();
    let r = read(&mut s, "/nothing", 1);
    assert_eq!(r, Outcome { reply: Reply::Empty, label: Label::Get, wrote: false });
    assert_eq!(r.reply.status(), 200);
    assert_eq!(s.size(), 0);
}

#[test]
fn empty_key_is_rejected() {
    let mut s = Store::new();
    for path in ["/", ""] {
        let r = handle(&mut s, "GET", path, Vec::new());
        assert_eq!(r.reply, Reply::Rejected(Rejection::MissingKey));
        assert_eq!(r.reply.status(), 400);
        assert_eq!(r.label, Label::Get);
        assert!(!r.wrote);
        let w = handle(&mut s, "POST", path, b"body".to_vec());
        assert_eq!(w.reply, Reply::Rejected(Rejection::MissingKey));
        assert_eq!(w.reply.status(), 400);
        assert_eq!(w.label, Label::Post);
        assert!(!w.wrote);
    }
    assert_eq!(s.size(), 0);
}

#[test]
fn size_token_cannot_be_written() {
    let mut s = Store::new();
    for path in ["/size", "/SIZE", "/Size"] {
        let w = write(&mut s, path, "x", 1);
        assert_eq!(
            w,
            Outcome {
                reply: Reply::Rejected(Rejection::MissingKey),
                label: Label::Post,
                wrote: false
            }
        );
        assert_eq!(w.reply.status(), 400);
    }
    assert_eq!(s.size(), 0);
    assert!(s.get("/size").is_none());
}

#[test]
fn size_read_reports_count_not_an_entry() {
    let mut s = Store::new();
    assert_eq!(read(&mut s, "/size", 1).reply, text("0"));
    // an entry under the token's own name, written past the router
    s.put_at(String::from("/size"), String::from("shadow"), 1);
    assert_eq!(read(&mut s, "/size", 2).reply, text("1"));
    assert_eq!(read(&mut s, "/SIZE", 2).reply, text("1"));
    for i in 0..11 {
        write(&mut s, &format!("/k{}", i), "v", 3);
    }
    let r = read(&mut s, "/size", 4);
    assert_eq!(r, Outcome { reply: text("12"), label: Label::Get, wrote: false });
}

#[test]
fn metrics_read_is_delegated() {
    let mut s = Store::new();
    for path in ["/metrics", "/METRICS", "/Metrics"] {
        let r = read(&mut s, path, 1);
        assert_eq!(r, Outcome { reply: Reply::Exposition, label: Label::Get, wrote: false });
        assert_eq!(r.reply.status(), 200);
    }
}

#[test]
fn metrics_token_is_reserved_for_reads_only() {
    let mut s = Store::new();
    let w = write(&mut s, "/metrics", "shadow", 1);
    assert_eq!(w, Outcome { reply: Reply::Empty, label: Label::Post, wrote: true });
    assert_eq!(s.size(), 1);
    assert_eq!(s.get("/metrics").unwrap().to_string(), "shadow");
    assert_eq!(read(&mut s, "/metrics", 2).reply, Reply::Exposition);
}

#[test]
fn unknown_verb_is_not_found() {
    let mut s = Store::new();
    write(&mut s, "/k", "v", 1);
    for method in ["PUT", "DELETE", "HEAD", "PATCH", "get", ""] {
        for path in ["/k", "/", "", "/size", "/metrics", "/absent"] {
            let r = handle(&mut s, method, path, b"body".to_vec());
            assert_eq!(r, Outcome { reply: Reply::NotFound, label: Label::Other, wrote: false });
            assert_eq!(r.reply.status(), 404);
        }
    }
    assert_eq!(s.size(), 1);
    assert_eq!(read(&mut s, "/k", 2).reply, text("v"));
}

#[test]
fn body_that_is_not_text_is_rejected() {
    let mut s = Store::new();
    write(&mut s, "/k", "kept", 1);
    for body in [vec![0xffu8], vec![0xc3u8], vec![b'a', 0x80, b'b'], vec![0xed, 0xa0, 0x80]] {
        let w = handle_at(&mut s, Verb::Write, "/k", body, 2);
        assert_eq!(
            w,
            Outcome { reply: Reply::Rejected(Rejection::NotText), label: Label::Post, wrote: false }
        );
        assert_eq!(w.reply.status(), 400);
    }
    assert_eq!(s.size(), 1);
    assert_eq!(read(&mut s, "/k", 3).reply, text("kept"));
    assert_eq!(s.get("/k").unwrap().timestamp(), 1);
}

#[test]
fn path_is_validated_before_body() {
    let mut s = Store::new();
    let w = handle_at(&mut s, Verb::Write, "/", vec![0xff], 1);
    assert_eq!(w.reply, Reply::Rejected(Rejection::MissingKey));
    let w = handle_at(&mut s, Verb::Write, "/size", vec![0xff], 1);
    assert_eq!(w.reply, Reply::Rejected(Rejection::MissingKey));
}

#[test]
fn body_of_a_read_is_ignored() {
    let mut s = Store::new();
    write(&mut s, "/k", "v", 1);
    let r = handle_at(&mut s, Verb::Read, "/k", vec![0xff], 2);
    assert_eq!(r.reply, text("v"));
    assert_eq!(s.size(), 1);
}

#[test]
fn ttl_expiry() {
    let ttl = 20 * SECOND;
    let e = Evictor::new(ttl);
    assert_eq!(e.interval(), 10 * SECOND);
    let mut s = Store::new();
    let t0 = 1000 * SECOND;
    write(&mut s, "/k", "v", t0);
    // half the time-to-live later a sweep leaves it, and a read finds it
    e.tick_at(&mut s, t0 + ttl / 2);
    assert_eq!(read(&mut s, "/k", t0 + ttl / 2).reply, text("v"));
    // exactly at the time-to-live it is still not expired
    e.tick_at(&mut s, t0 + ttl);
    assert_eq!(read(&mut s, "/k", t0 + ttl).reply, text("v"));
    // until a sweep comes, a read finds it whatever its age
    assert_eq!(read(&mut s, "/k", t0 + ttl + e.interval() + 1).reply, text("v"));
    // the first sweep after the time-to-live removes it
    let t = e.tick_at(&mut s, t0 + ttl + 1);
    assert_eq!(t.removed, 1);
    assert_eq!(t.size, 0);
    assert_eq!(read(&mut s, "/k", t0 + ttl + e.interval() + 1).reply, Reply::Empty);
}

#[test]
fn entry_written_at_zero_is_swept_at_seventy() {
    let e = Evictor::new(60 * SECOND);
    assert!(e.interval() <= 10 * SECOND);
    let mut s = Store::new();
    let w = write(&mut s, "/k1", "foo", 0);
    assert_eq!(w.reply, Reply::Empty);
    assert_eq!(read(&mut s, "/k1", 30 * SECOND).reply, text("foo"));
    let early = e.tick_at(&mut s, 30 * SECOND);
    assert_eq!(early.removed, 0);
    assert_eq!(early.size, 1);
    let t = e.tick_at(&mut s, 70 * SECOND);
    assert_eq!(t.removed, 1);
    assert_eq!(t.size, 0);
    assert_eq!(t.sleep_for, 10 * SECOND);
    let r = read(&mut s, "/k1", 75 * SECOND);
    assert_eq!(r.reply, Reply::Empty);
    assert_eq!(r.reply.status(), 200);
    assert!(s.get("/k1").is_none());
}

#[test]
fn rewrite_renews_the_entry() {
    let e = Evictor::new(60 * SECOND);
    let mut s = Store::new();
    write(&mut s, "/k", "a", 0);
    write(&mut s, "/k", "b", 50 * SECOND);
    let t = e.tick_at(&mut s, 70 * SECOND);
    assert_eq!(t.removed, 0);
    assert_eq!(read(&mut s, "/k", 71 * SECOND).reply, text("b"));
    let t = e.tick_at(&mut s, 111 * SECOND);
    assert_eq!(t.removed, 1);
    assert_eq!(read(&mut s, "/k", 112 * SECOND).reply, Reply::Empty);
}

#[test]
fn distinct_writers_lose_nothing() {
    let mut s = Store::new();
    let n = 200usize;
    for i in 0..n {
        let w = write(&mut s, &format!("/w{}", i), &format!("body {}", i), i as u128);
        assert!(w.wrote);
    }
    assert_eq!(read(&mut s, "/size", 0).reply, text("200"));
    for i in 0..n {
        assert_eq!(read(&mut s, &format!("/w{}", i), 0).reply, text(&format!("body {}", i)));
    }
}
