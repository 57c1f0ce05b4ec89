use cargo_darwin::sample::sub;

#[test]
fn test_sub() {
    assert_eq!(sub(5, 2), 3)
}
