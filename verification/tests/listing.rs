use rkctl::command::RawCommand;
use rkctl::flow::{ListingPlan, ParsedCommand};

fn parsed(args: &[&str]) -> ParsedCommand {
    let args: Vec<String> = args.iter().map(|a| a.to_string()).collect();
    RawCommand::new(&args).unwrap().into_parsed()
}

#[test]
fn prepare_valid_pattern_lists_the_kind() {
    let mut cmd = parsed(&["get", "pod", "web-.*"]);
    match cmd.prepare() {
        ListingPlan::Filtered(args) => {
            assert_eq!(args, vec!["get", "pod", "-n", "default"]);
        }
        ListingPlan::Direct(_, _) => panic!("a valid pattern must filter a listing"),
    }
}

#[test]
fn prepare_invalid_pattern_queries_the_literal_name() {
    let mut cmd = parsed(&["get", "pod", "web-["]);
    match cmd.prepare() {
        ListingPlan::Filtered(_) => panic!("an invalid pattern must fall back to a literal name"),
        ListingPlan::Direct(args, name) => {
            assert_eq!(name, "web-[");
            assert_eq!(args, vec!["get", "pod", "-n", "default", "web-["]);
        }
    }
}

#[test]
fn prepare_invalid_pattern_delete_queries_with_get() {
    let mut cmd = parsed(&["delete", "svc", "db-(", "-n", "prod"]);
    match cmd.prepare() {
        ListingPlan::Filtered(_) => panic!("an invalid pattern must fall back to a literal name"),
        ListingPlan::Direct(args, name) => {
            assert_eq!(name, "db-(");
            assert_eq!(args, vec!["get", "svc", "-n", "prod", "db-("]);
        }
    }
}

#[test]
fn filter_keeps_matching_names_in_listing_order() {
    let mut cmd = parsed(&["get", "pod", "web-.*"]);
    cmd.prepare();
    let listing = "NAME READY\nweb-1 Running\nweb-2 Running\ndb-1 Running";
    let outcome = cmd.filter_listing(listing);
    assert_eq!(outcome.header, "NAME READY");
    assert_eq!(outcome.matched_names, vec!["web-1", "web-2"]);
    assert_eq!(outcome.matched_lines, vec!["web-1 Running", "web-2 Running"]);
}

#[test]
fn filter_echoes_header_when_nothing_matches() {
    let mut cmd = parsed(&["get", "pod", "zzz-.*"]);
    cmd.prepare();
    let listing = "NAME READY\nweb-1 Running\ndb-1 Running";
    let outcome = cmd.filter_listing(listing);
    assert_eq!(outcome.header, "NAME READY");
    assert!(outcome.matched_names.is_empty());
    assert!(outcome.matched_lines.is_empty());
}

#[test]
fn filter_ignores_trailing_empty_line() {
    let mut cmd = parsed(&["get", "pod", "web-.*"]);
    cmd.prepare();
    let listing = "NAME READY\nweb-1 Running\ndb-1 Running\n";
    let outcome = cmd.filter_listing(listing);
    assert_eq!(outcome.matched_names, vec!["web-1"]);
}

#[test]
fn filter_matches_anywhere_unless_anchored() {
    let mut cmd = parsed(&["get", "pod", "b-1"]);
    cmd.prepare();
    let listing = "NAME READY\nweb-1 Running\ndb-1 Running";
    let outcome = cmd.filter_listing(listing);
    assert_eq!(outcome.matched_names, vec!["web-1", "db-1"]);

    let mut cmd = parsed(&["get", "pod", "^web-1$"]);
    cmd.prepare();
    let outcome = cmd.filter_listing(listing);
    assert_eq!(outcome.matched_names, vec!["web-1"]);
}

#[test]
fn filter_of_empty_listing_yields_empty_header() {
    let mut cmd = parsed(&["get", "pod", "web-.*"]);
    cmd.prepare();
    let outcome = cmd.filter_listing("");
    assert_eq!(outcome.header, "");
    assert!(outcome.matched_names.is_empty());
}

#[test]
fn prepare_compiles_the_pattern_only_once() {
    let mut cmd = parsed(&["get", "pod", "web-.*"]);
    match cmd.prepare() {
        ListingPlan::Filtered(_) => {}
        ListingPlan::Direct(_, _) => panic!("a valid pattern must filter a listing"),
    }
    match cmd.prepare() {
        ListingPlan::Filtered(args) => {
            assert_eq!(args, vec!["get", "pod", "-n", "default"]);
        }
        ListingPlan::Direct(_, _) => panic!("the cached pattern must be kept"),
    }
}
