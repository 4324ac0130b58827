use peerchat::peers::{has_node, same_bytes, unique_peers};
use peerchat::{equals, starts_with};

#[test]
fn byte_and_text_equality() {
    assert!(same_bytes(&[1, 2, 3], &[1, 2, 3]));
    assert!(!same_bytes(&[1, 2, 3], &[1, 2]));
    assert!(!same_bytes(&[1, 2, 3], &[1, 2, 4]));
    assert!(same_bytes(&[], &[]));
    assert!(equals("ls p", "ls p"));
    assert!(!equals("ls p", "ls q"));
    assert!(starts_with("ls c x", "ls c"));
    assert!(!starts_with("ls", "ls c"));
    assert!(starts_with("anything", ""));
}

#[test]
fn has_node_is_membership() {
    let list = vec![vec![1u8, 2], vec![3u8], vec![1u8, 2]];
    assert!(has_node(&list, &[3]));
    assert!(has_node(&list, &[1, 2]));
    assert!(!has_node(&list, &[1]));
    assert!(!has_node(&[], &[1]));
}

#[test]
fn unique_peers_keeps_first_appearances() {
    let list = vec![vec![5u8], vec![1u8, 2], vec![5u8], vec![7u8], vec![1u8, 2]];
    assert_eq!(unique_peers(&list), vec![vec![5u8], vec![1u8, 2], vec![7u8]]);
    assert_eq!(unique_peers(&[]), Vec::<Vec<u8>>::new());
}

#[test]
fn unique_peers_is_idempotent() {
    let list = vec![vec![9u8], vec![9u8], vec![4u8], vec![9u8]];
    let once = unique_peers(&list);
    assert_eq!(unique_peers(&once), once);
}

#[test]
fn found_iff_listed() {
    let list = vec![vec![2u8], vec![2u8], vec![3u8]];
    let unique = unique_peers(&list);
    for probe in [vec![2u8], vec![3u8], vec![4u8]] {
        assert_eq!(has_node(&list, &probe), unique.contains(&probe));
    }
}
