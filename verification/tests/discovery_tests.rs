//! Reconciliation of peer lifecycle events.

use shelfsync::discovery::{DiscoveryEvent, DiscoveryState};

fn resolved(ip: &str, port: u16, name: &str) -> DiscoveryEvent {
    DiscoveryEvent::Resolved(ip.to_string(), port, name.to_string())
}

#[test]
fn test_duplicate_address_kept_once() {
    let mut d = DiscoveryState::new();
    assert!(d.handle_event(resolved("10.0.0.5", 8080, "ShelfSync on a._shelfsync._tcp.local.")));
    // A second resolution of the same address changes nothing.
    assert!(!d.handle_event(resolved("10.0.0.5", 8080, "ShelfSync on a._shelfsync._tcp.local.")));
    let hosts = d.hosts_snapshot();
    assert_eq!(hosts.len(), 1);
    assert_eq!(hosts[0].ip, "10.0.0.5");
    assert_eq!(hosts[0].port, 8080);
    // Removal by the advertised service name deletes the entry.
    assert!(d.handle_event(DiscoveryEvent::Removed(
        "ShelfSync on a._shelfsync._tcp.local.".to_string()
    )));
    assert!(d.hosts_snapshot().is_empty());
}

#[test]
fn test_distinct_addresses_both_kept() {
    let mut d = DiscoveryState::new();
    assert!(d.handle_event(resolved("10.0.0.5", 8080, "a.local.")));
    assert!(d.handle_event(resolved("10.0.0.6", 8080, "b.local.")));
    let hosts = d.hosts_snapshot();
    assert_eq!(hosts.len(), 2);
    assert_eq!(hosts[0].ip, "10.0.0.5");
    assert_eq!(hosts[1].ip, "10.0.0.6");
}

#[test]
fn test_removal_of_unknown_name_changes_nothing() {
    let mut d = DiscoveryState::new();
    d.handle_event(resolved("10.0.0.5", 8080, "a.local."));
    assert!(!d.handle_event(DiscoveryEvent::Removed("stranger.local.".to_string())));
    assert_eq!(d.hosts_snapshot().len(), 1);
}

#[test]
fn test_removal_drops_every_entry_with_the_name() {
    let mut d = DiscoveryState::new();
    // Two addresses may advertise the same name; removal names the
    // service, so both go.
    d.handle_event(resolved("10.0.0.5", 8080, "twin.local."));
    d.handle_event(resolved("10.0.0.6", 8080, "twin.local."));
    d.handle_event(resolved("10.0.0.7", 8080, "other.local."));
    assert!(d.handle_event(DiscoveryEvent::Removed("twin.local.".to_string())));
    let hosts = d.hosts_snapshot();
    assert_eq!(hosts.len(), 1);
    assert_eq!(hosts[0].ip, "10.0.0.7");
}

#[test]
fn test_other_events_ignored() {
    let mut d = DiscoveryState::new();
    assert!(!d.handle_event(DiscoveryEvent::Other));
    assert!(d.hosts_snapshot().is_empty());
}

#[test]
fn test_new_entries_have_no_pin() {
    let mut d = DiscoveryState::new();
    d.handle_event(resolved("10.0.0.5", 8080, "a.local."));
    assert!(d.hosts_snapshot()[0].pin.is_none());
    assert_eq!(d.hosts_snapshot()[0].hostname, "a.local.");
}
