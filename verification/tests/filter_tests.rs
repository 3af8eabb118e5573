use headsniff::addr::{IpAddress, MacAddress};
use headsniff::filter::{IpFilterSet, MacFilterSet, Mode};

fn mac(last: u8) -> MacAddress {
    MacAddress::from_octets(0xde, 0xad, 0xbe, 0xef, 0x00, last)
}

fn ip(last: u8) -> IpAddress {
    IpAddress::v4_from_octets(10, 0, 0, last)
}

#[test]
fn mac_decision_table_all_four_combinations() {
    let configured = vec![mac(1)];
    let inactive = MacFilterSet::inactive();
    let block = MacFilterSet::new(Mode::BlockList, configured.clone());
    let allow = MacFilterSet::new(Mode::AllowList, configured);

    // Inactive passes matching and non-matching pairs alike.
    assert!(inactive.passes(&mac(1), &mac(2)));
    assert!(inactive.passes(&mac(3), &mac(4)));
    // BlockList: match (on source or destination) suppresses, no match passes.
    assert!(!block.passes(&mac(1), &mac(2)));
    assert!(!block.passes(&mac(2), &mac(1)));
    assert!(block.passes(&mac(3), &mac(4)));
    // AllowList: match passes, no match suppresses.
    assert!(allow.passes(&mac(1), &mac(2)));
    assert!(allow.passes(&mac(2), &mac(1)));
    assert!(!allow.passes(&mac(3), &mac(4)));
}

#[test]
fn ip_decision_table_all_four_combinations() {
    let configured = vec![ip(1)];
    let inactive = IpFilterSet::inactive();
    let block = IpFilterSet::new(Mode::BlockList, configured.clone());
    let allow = IpFilterSet::new(Mode::AllowList, configured);

    assert!(inactive.passes(&ip(1), &ip(2)));
    assert!(inactive.passes(&ip(3), &ip(4)));
    assert!(!block.passes(&ip(1), &ip(2)));
    assert!(!block.passes(&ip(2), &ip(1)));
    assert!(block.passes(&ip(3), &ip(4)));
    assert!(allow.passes(&ip(1), &ip(2)));
    assert!(allow.passes(&ip(2), &ip(1)));
    assert!(!allow.passes(&ip(3), &ip(4)));
}

#[test]
fn filtering_is_idempotent() {
    let block = IpFilterSet::new(Mode::BlockList, vec![ip(9), ip(7)]);
    let first = block.passes(&ip(7), &ip(8));
    for _ in 0..16 {
        assert_eq!(block.passes(&ip(7), &ip(8)), first);
    }
    let allow = MacFilterSet::new(Mode::AllowList, vec![mac(5)]);
    let first = allow.passes(&mac(5), &mac(6));
    for _ in 0..16 {
        assert_eq!(allow.passes(&mac(5), &mac(6)), first);
    }
}

#[test]
fn empty_block_list_blocks_nothing() {
    let block_mac = MacFilterSet::new(Mode::BlockList, Vec::new());
    assert!(block_mac.passes(&mac(1), &mac(2)));
    let block_ip = IpFilterSet::new(Mode::BlockList, Vec::new());
    assert!(block_ip.passes(&ip(1), &ip(2)));
}

#[test]
fn empty_allow_list_blocks_everything() {
    let allow_mac = MacFilterSet::new(Mode::AllowList, Vec::new());
    assert!(!allow_mac.passes(&mac(1), &mac(2)));
    let allow_ip = IpFilterSet::new(Mode::AllowList, Vec::new());
    assert!(!allow_ip.passes(&ip(1), &ip(2)));
}

#[test]
fn families_do_not_cross_match() {
    // A V4 and a V6 address never compare equal, so a set of one family
    // cannot match the other family's candidate.
    let v4 = IpAddress::v4_from_octets(10, 0, 0, 1);
    let v6 = IpAddress::v6_from_octets(&[0, 0, 0, 0, 0, 0, 0, 0, 0, 0, 0, 0, 10, 0, 0, 1]);
    assert_ne!(v4, v6);
    let block = IpFilterSet::new(Mode::BlockList, vec![v6]);
    assert!(block.passes(&v4, &v4));
}
