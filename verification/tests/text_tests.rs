use fastrace_tracing::text::bool_text;
use fastrace_tracing::text::i64_text;
use fastrace_tracing::text::parse_thread_id;
use fastrace_tracing::text::thread_id_integer;
use fastrace_tracing::text::u64_text;

#[test]
fn bool_text_canonical() {
    assert_eq!(bool_text(true), "true");
    assert_eq!(bool_text(false), "false");
}

#[test]
fn u64_text_values() {
    assert_eq!(u64_text(0), "0");
    assert_eq!(u64_text(7), "7");
    assert_eq!(u64_text(10), "10");
    assert_eq!(u64_text(409), "409");
    assert_eq!(u64_text(u64::MAX), "18446744073709551615");
}

#[test]
fn i64_text_values() {
    assert_eq!(i64_text(0), "0");
    assert_eq!(i64_text(42), "42");
    assert_eq!(i64_text(-1), "-1");
    assert_eq!(i64_text(-409), "-409");
    assert_eq!(i64_text(i64::MAX), "9223372036854775807");
    assert_eq!(i64_text(i64::MIN), "-9223372036854775808");
}

#[test]
fn thread_id_parse_well_formed() {
    assert_eq!(parse_thread_id("ThreadId(42)"), Some(42));
    assert_eq!(parse_thread_id("ThreadId(0)"), Some(0));
    assert_eq!(parse_thread_id("ThreadId(18446744073709551615)"), Some(u64::MAX));
    assert_eq!(thread_id_integer("ThreadId(7)"), 7);
}

#[test]
fn thread_id_parse_strips_repeated_wrappers() {
    // The stripping repeats, as prefix/suffix trimming does.
    assert_eq!(parse_thread_id("ThreadId(ThreadId(5))"), Some(5));
    // A bare digit text needs no wrapper at all.
    assert_eq!(parse_thread_id("123"), Some(123));
    assert_eq!(parse_thread_id("123))"), Some(123));
}

#[test]
fn thread_id_parse_rejects_malformed() {
    assert_eq!(parse_thread_id(""), None);
    assert_eq!(parse_thread_id("ThreadId()"), None);
    assert_eq!(parse_thread_id("ThreadId(abc)"), None);
    assert_eq!(parse_thread_id("ThreadId(4x2)"), None);
    assert_eq!(parse_thread_id("ThreadId(-3)"), None);
    // One past u64::MAX does not fit.
    assert_eq!(parse_thread_id("ThreadId(18446744073709551616)"), None);
}
