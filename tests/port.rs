use sidecar_supervisor::port::find_available_port;

#[test]
fn first_free_port_is_chosen() {
    let available = vec![false, false, true, true, false];
    assert_eq!(find_available_port(8080, 5, &available), Some(8082));
}

#[test]
fn start_port_free() {
    let available = vec![true; 10];
    assert_eq!(find_available_port(8080, 10, &available), Some(8080));
}

#[test]
fn no_free_port() {
    let available = vec![false; 10];
    assert_eq!(find_available_port(8080, 10, &available), None);
}

#[test]
fn empty_range() {
    let available: Vec<bool> = Vec::new();
    assert_eq!(find_available_port(8080, 0, &available), None);
}

#[test]
fn last_port_of_range() {
    let mut available = vec![false; 10];
    available[9] = true;
    assert_eq!(find_available_port(8080, 10, &available), Some(8089));
}

#[test]
fn range_past_last_tcp_port() {
    let available = vec![false, true, true, true];
    assert_eq!(find_available_port(65534, 4, &available), Some(65535));
    let only_beyond = vec![false, false, true, true];
    assert_eq!(find_available_port(65534, 4, &only_beyond), None);
}
