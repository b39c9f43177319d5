use blocky_tui::app::CurrentFocus;

#[test]
fn test_increase_visits_all_tiles_and_wraps() {
    let mut f = CurrentFocus::DNSStatus;
    let mut seen = Vec::new();
    for _ in 0..5 {
        f.increase();
        seen.push(f.get_tile_number());
    }
    assert_eq!(seen, vec![2, 3, 4, 5, 1]);
    assert_eq!(f, CurrentFocus::DNSStatus);
}

#[test]
fn test_decrease_visits_all_tiles_in_reverse_and_wraps() {
    let mut f = CurrentFocus::DNSStatus;
    let mut seen = Vec::new();
    for _ in 0..5 {
        f.decrease();
        seen.push(f.get_tile_number());
    }
    assert_eq!(seen, vec![5, 4, 3, 2, 1]);
    assert_eq!(f, CurrentFocus::DNSStatus);
}

#[test]
fn test_increase_then_decrease_is_identity() {
    let mut f = CurrentFocus::RefreshLists;
    f.increase();
    f.decrease();
    assert_eq!(f, CurrentFocus::RefreshLists);
}

#[test]
fn test_set_on_number_in_range() {
    let mut f = CurrentFocus::DNSStatus;
    f.set_on_number(4);
    assert_eq!(f, CurrentFocus::DeleteCache);
    f.set_on_number(2);
    assert_eq!(f, CurrentFocus::BlockingStatus);
    f.set_on_number(5);
    assert_eq!(f, CurrentFocus::QueryDNS);
}

#[test]
fn test_set_on_number_out_of_range_falls_back_to_first_tile() {
    let mut f = CurrentFocus::QueryDNS;
    f.set_on_number(0);
    assert_eq!(f, CurrentFocus::DNSStatus);

    let mut f = CurrentFocus::RefreshLists;
    f.set_on_number(6);
    assert_eq!(f, CurrentFocus::DNSStatus);

    let mut f = CurrentFocus::DeleteCache;
    f.set_on_number(255);
    assert_eq!(f, CurrentFocus::DNSStatus);
}

#[test]
fn test_tile_numbers_are_the_display_order() {
    assert_eq!(CurrentFocus::DNSStatus.get_tile_number(), 1);
    assert_eq!(CurrentFocus::BlockingStatus.get_tile_number(), 2);
    assert_eq!(CurrentFocus::RefreshLists.get_tile_number(), 3);
    assert_eq!(CurrentFocus::DeleteCache.get_tile_number(), 4);
    assert_eq!(CurrentFocus::QueryDNS.get_tile_number(), 5);
}
