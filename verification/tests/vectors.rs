use starknet_simulation::vectors::reversed;

#[test]
fn reversed_turns_a_vector_round() {
    assert_eq!(reversed(vec![1, 2, 3]), vec![3, 2, 1]);
    assert_eq!(reversed(vec!["a".to_string()]), vec!["a".to_string()]);
    assert_eq!(reversed(Vec::<u8>::new()), Vec::<u8>::new());
    let mut turned = reversed(vec!['x', 'y', 'z']);
    assert_eq!(turned.pop(), Some('x'));
    assert_eq!(turned.pop(), Some('y'));
    assert_eq!(turned.pop(), Some('z'));
}
