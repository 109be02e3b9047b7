use ferroflow::error::FerroFlowError;
use ferroflow::tensor::Shape;

#[test]
fn size_is_the_product_of_the_dimensions() {
    assert_eq!(Shape::new(vec![2, 3]).size(), 6);
    assert_eq!(Shape::new(vec![4, 5, 6]).size(), 120);
    assert_eq!(Shape::new(vec![7]).size(), 7);
}

#[test]
fn size_of_no_dimensions_is_one() {
    assert_eq!(Shape::new(vec![]).size(), 1);
    assert_eq!(Shape::new(vec![]).checked_size(), Some(1));
}

#[test]
fn size_is_zero_when_any_dimension_is_zero() {
    assert_eq!(Shape::new(vec![0]).size(), 0);
    assert_eq!(Shape::new(vec![3, 0, 5]).size(), 0);
    assert_eq!(Shape::new(vec![0, 4]).size(), 0);
}

#[test]
fn checked_size_sees_a_zero_behind_huge_dimensions() {
    let shape = Shape::new(vec![usize::MAX, usize::MAX, 0]);
    assert_eq!(shape.checked_size(), Some(0));
    assert_eq!(shape.size(), 0);
}

#[test]
fn checked_size_refuses_a_product_beyond_the_word() {
    assert_eq!(Shape::new(vec![usize::MAX, 2]).checked_size(), None);
    assert_eq!(Shape::new(vec![2, usize::MAX]).checked_size(), None);
    assert_eq!(
        Shape::new(vec![usize::MAX, 1]).checked_size(),
        Some(usize::MAX)
    );
}

#[test]
fn dims_and_rank_give_back_what_was_put_in() {
    let shape = Shape::new(vec![2, 3, 4]);
    assert_eq!(shape.dims(), &[2, 3, 4]);
    assert_eq!(shape.rank(), 3);
    assert_eq!(Shape::new(vec![]).rank(), 0);
}

#[test]
fn batch_size_needs_three_dimensions() {
    assert_eq!(Shape::new(vec![5, 2, 3]).batch_size(), Some(5));
    assert_eq!(Shape::new(vec![6, 1, 2, 3]).batch_size(), Some(6));
    assert_eq!(Shape::new(vec![2, 3]).batch_size(), None);
    assert_eq!(Shape::new(vec![2]).batch_size(), None);
    assert_eq!(Shape::new(vec![]).batch_size(), None);
}

#[test]
fn matrix_dims_of_a_plain_matrix() {
    assert_eq!(Shape::new(vec![2, 3]).matrix_dims().unwrap(), (2, 3));
}

#[test]
fn matrix_dims_of_a_batch_skip_the_batch_count() {
    assert_eq!(Shape::new(vec![7, 2, 3]).matrix_dims().unwrap(), (2, 3));
}

#[test]
fn matrix_dims_of_any_other_rank_is_an_error() {
    for dims in [vec![], vec![4], vec![1, 2, 3, 4]] {
        let e = Shape::new(dims).matrix_dims().unwrap_err();
        assert!(matches!(e, FerroFlowError::InvalidOperation(_)));
        assert_eq!(e.message(), "Invalid shape for matrix operation");
    }
}

#[test]
fn new_batched_puts_the_batch_first() {
    let shape = Shape::new_batched(4, 2, 3);
    assert_eq!(shape.dims(), &[4, 2, 3]);
    assert_eq!(shape.batch_size(), Some(4));
    assert_eq!(shape.matrix_dims().unwrap(), (2, 3));
    assert_eq!(shape.size(), 24);
}

#[test]
fn shapes_are_equal_by_rank_and_dimensions() {
    assert!(Shape::new(vec![2, 3]) == Shape::new(vec![2, 3]));
    assert!(Shape::new(vec![2, 3]) != Shape::new(vec![3, 2]));
    assert!(Shape::new(vec![6]) != Shape::new(vec![2, 3]));
    assert!(Shape::new(vec![2, 3]) != Shape::new(vec![2, 3, 1]));
    assert!(Shape::new(vec![]) == Shape::new(vec![]));
}

#[test]
fn a_clone_has_the_same_dimensions() {
    let shape = Shape::new(vec![3, 1, 4]);
    let copy = shape.clone();
    assert_eq!(copy.dims(), shape.dims());
    assert!(copy == shape);
}
