use ferroflow::compute::{
    checked_volume, operands_fit, CPUBackend, CPUContext, ComputeBackend, Element,
};
use ferroflow::error::FerroFlowError;

/// A 32-bit float as a buffer element.
#[derive(Clone, Copy, Debug, PartialEq)]
struct F32(f32);

impl Element for F32 {
    fn zero_value() -> Self {
        F32(0.0)
    }

    fn one_value() -> Self {
        F32(1.0)
    }

    fn minus_one_value() -> Self {
        F32(-1.0)
    }

    fn sum(self, rhs: Self) -> Self {
        F32(self.0 + rhs.0)
    }

    fn product(self, rhs: Self) -> Self {
        F32(self.0 * rhs.0)
    }

    fn zero() -> Self {
        F32(0.0)
    }

    fn one() -> Self {
        F32(1.0)
    }

    fn minus_one() -> Self {
        F32(-1.0)
    }

    fn plus(self, rhs: Self) -> Self {
        F32(self.0 + rhs.0)
    }

    fn times(self, rhs: Self) -> Self {
        F32(self.0 * rhs.0)
    }
}

fn floats(values: &[f32]) -> Vec<F32> {
    values.iter().map(|v| F32(*v)).collect()
}

type Cpu = CPUBackend<F32>;
type IntCpu = CPUBackend<i32>;

fn buffer_error<T>(outcome: Result<T, FerroFlowError>, message: &str) {
    match outcome {
        Ok(_) => panic!("the operation should have failed"),
        Err(e) => {
            assert!(matches!(e, FerroFlowError::BufferError(_)));
            assert_eq!(e.message(), message);
        }
    }
}

#[test]
fn a_context_can_always_be_made() {
    assert!(Cpu::new().is_ok());
    assert!(IntCpu::new().is_ok());
    let _ctx: CPUContext = CPUContext::new();
}

#[test]
fn integer_elements_wrap_around() {
    assert_eq!(<i32 as Element>::zero(), 0);
    assert_eq!(<i32 as Element>::one(), 1);
    assert_eq!(<i32 as Element>::minus_one(), -1);
    assert_eq!(3i32.plus(4), 7);
    assert_eq!(3i32.times(-4), -12);
    assert_eq!(i32::MAX.plus(1), i32::MIN);
    assert_eq!(i32::MAX.times(2), -2);
    assert_eq!(<i64 as Element>::zero(), 0);
    assert_eq!(<i64 as Element>::one(), 1);
    assert_eq!(<i64 as Element>::minus_one(), -1);
    assert_eq!(5i64.plus(-7), -2);
    assert_eq!(5i64.times(-7), -35);
    assert_eq!(i64::MIN.plus(-1), i64::MAX);
    assert_eq!(i64::MIN.times(-1), i64::MIN);
}

#[test]
fn checked_volume_is_the_product_or_nothing() {
    assert_eq!(checked_volume(2, 3, 4), Some(24));
    assert_eq!(checked_volume(1, 5, 6), Some(30));
    assert_eq!(checked_volume(0, usize::MAX, usize::MAX), Some(0));
    assert_eq!(checked_volume(3, 0, usize::MAX), Some(0));
    assert_eq!(checked_volume(1, usize::MAX, 1), Some(usize::MAX));
    assert_eq!(checked_volume(1, usize::MAX, 2), None);
    assert_eq!(checked_volume(2, usize::MAX, 1), None);
}

#[test]
fn operands_fit_when_the_buffers_hold_exactly_what_is_read() {
    assert!(operands_fit(6, 6, 1, 2, 2, 3));
    assert!(operands_fit(12, 12, 2, 2, 2, 3));
    assert!(operands_fit(0, 0, 0, 7, 8, 9));
    assert!(!operands_fit(6, 5, 1, 2, 2, 3));
    assert!(!operands_fit(7, 6, 1, 2, 2, 3));
    assert!(!operands_fit(6, 6, 2, 2, 2, 3));
    // the operands are empty, the result cannot be held
    assert!(!operands_fit(0, 0, 1, usize::MAX, 2, 0));
}

#[test]
fn allocate_copies_the_data() {
    let ctx = Cpu::new().unwrap();
    let data = floats(&[1.0, 2.0, 3.0]);
    let buffer = Cpu::allocate_buffer(&ctx, 3, Some(&data)).unwrap();
    assert_eq!(buffer, data);
    assert_eq!(Cpu::read_buffer(&ctx, &buffer).unwrap(), data);
}

#[test]
fn allocate_without_data_gives_zeros() {
    let ctx = Cpu::new().unwrap();
    let buffer = Cpu::allocate_buffer(&ctx, 4, None).unwrap();
    assert_eq!(buffer, floats(&[0.0; 4]));
    assert_eq!(Cpu::allocate_buffer(&ctx, 0, None).unwrap(), vec![]);
}

#[test]
fn allocate_refuses_data_of_another_length() {
    let ctx = Cpu::new().unwrap();
    let data = floats(&[1.0, 2.0, 3.0]);
    buffer_error(
        Cpu::allocate_buffer(&ctx, 4, Some(&data)),
        "Data size mismatch",
    );
    buffer_error(
        Cpu::allocate_buffer(&ctx, 2, Some(&data)),
        "Data size mismatch",
    );
}

#[test]
fn elementwise_operations_on_buffers() {
    let ctx = Cpu::new().unwrap();
    let a = floats(&[1.0, 2.0, 3.0, 4.0]);
    let b = floats(&[5.0, 6.0, 7.0, 8.0]);
    assert_eq!(
        Cpu::element_wise_add(&ctx, &a, &b, 4).unwrap(),
        floats(&[6.0, 8.0, 10.0, 12.0])
    );
    assert_eq!(
        Cpu::element_wise_multiply(&ctx, &a, &b, 4).unwrap(),
        floats(&[5.0, 12.0, 21.0, 32.0])
    );
    assert_eq!(
        Cpu::scalar_multiply(&ctx, &a, F32(2.0), 4).unwrap(),
        floats(&[2.0, 4.0, 6.0, 8.0])
    );
    // the inputs are as they were
    assert_eq!(a, floats(&[1.0, 2.0, 3.0, 4.0]));
    assert_eq!(b, floats(&[5.0, 6.0, 7.0, 8.0]));
}

#[test]
fn elementwise_operations_refuse_buffers_of_another_size() {
    let ctx = Cpu::new().unwrap();
    let a = floats(&[1.0, 2.0, 3.0]);
    let b = floats(&[1.0, 2.0]);
    buffer_error(Cpu::element_wise_add(&ctx, &a, &b, 3), "Buffer size mismatch");
    buffer_error(Cpu::element_wise_add(&ctx, &b, &a, 3), "Buffer size mismatch");
    buffer_error(Cpu::element_wise_add(&ctx, &a, &a, 2), "Buffer size mismatch");
    buffer_error(
        Cpu::element_wise_multiply(&ctx, &a, &b, 3),
        "Buffer size mismatch",
    );
    buffer_error(
        Cpu::element_wise_multiply(&ctx, &a, &a, 4),
        "Buffer size mismatch",
    );
    buffer_error(
        Cpu::scalar_multiply(&ctx, &a, F32(1.0), 2),
        "Buffer size mismatch",
    );
}

#[test]
fn synchronize_has_nothing_to_wait_for() {
    let ctx = Cpu::new().unwrap();
    assert!(Cpu::synchronize(&ctx).is_ok());
}

#[test]
fn matmul_on_buffers() {
    let ctx = IntCpu::new().unwrap();
    let a = vec![1, 2, 3, 4, 5, 6];
    let b = vec![7, 8, 9, 10, 11, 12];
    assert_eq!(
        IntCpu::matmul(&ctx, &a, &b, 2, 2, 3).unwrap(),
        vec![58, 64, 139, 154]
    );
    // 3 x 2 times 2 x 3
    assert_eq!(
        IntCpu::matmul(&ctx, &a, &b, 3, 3, 2).unwrap(),
        vec![27, 30, 33, 61, 68, 75, 95, 106, 117]
    );
    // 1 x 6 times 6 x 1
    assert_eq!(IntCpu::matmul(&ctx, &a, &b, 1, 1, 6).unwrap(), vec![217]);
    // 6 x 1 times 1 x 1
    assert_eq!(
        IntCpu::matmul(&ctx, &a, &vec![2], 6, 1, 1).unwrap(),
        vec![2, 4, 6, 8, 10, 12]
    );
}

#[test]
fn matmul_transposed_on_buffers() {
    let ctx = IntCpu::new().unwrap();
    let a = vec![1, 2, 3, 4, 5, 6];
    let b = vec![7, 8, 9, 10, 11, 12];
    // a stored 3 x 2
    assert_eq!(
        IntCpu::matmul_transposed(&ctx, &a, &b, 2, 2, 3, true, false).unwrap(),
        vec![89, 98, 116, 128]
    );
    // b stored 2 x 3
    assert_eq!(
        IntCpu::matmul_transposed(&ctx, &a, &b, 2, 2, 3, false, true).unwrap(),
        vec![50, 68, 122, 167]
    );
    // both
    assert_eq!(
        IntCpu::matmul_transposed(&ctx, &a, &b, 2, 2, 3, true, true).unwrap(),
        vec![76, 103, 100, 136]
    );
    assert_eq!(
        IntCpu::matmul_transposed(&ctx, &a, &b, 2, 2, 3, false, false).unwrap(),
        IntCpu::matmul(&ctx, &a, &b, 2, 2, 3).unwrap()
    );
}

#[test]
fn matmul_batched_on_buffers() {
    let ctx = IntCpu::new().unwrap();
    let a = vec![1, 2, 3, 4, 5, 6, 7, 8, 9, 10, 11, 12];
    let b = vec![7, 8, 9, 10, 11, 12, 1, 0, 0, 1, 1, 1];
    assert_eq!(
        IntCpu::matmul_batched(&ctx, &a, &b, 2, 2, 2, 3).unwrap(),
        vec![58, 64, 139, 154, 16, 17, 22, 23]
    );
    // every pair is multiplied on its own
    let first = IntCpu::matmul(&ctx, &a[..6].to_vec(), &b[..6].to_vec(), 2, 2, 3).unwrap();
    let second = IntCpu::matmul(&ctx, &a[6..].to_vec(), &b[6..].to_vec(), 2, 2, 3).unwrap();
    assert_eq!(
        IntCpu::matmul_batched(&ctx, &a, &b, 2, 2, 2, 3).unwrap(),
        [first, second].concat()
    );
    assert_eq!(
        IntCpu::matmul_transposed_batched(&ctx, &a, &b, 2, 2, 2, 3, true, false).unwrap(),
        vec![89, 98, 116, 128, 18, 20, 20, 22]
    );
    assert_eq!(
        IntCpu::matmul_batched(&ctx, &vec![], &vec![], 0, 2, 2, 3).unwrap(),
        vec![]
    );
    assert_eq!(
        IntCpu::matmul_batched(&ctx, &a, &b, 1, 2, 2, 6).unwrap(),
        IntCpu::matmul(&ctx, &a, &b, 2, 2, 6).unwrap()
    );
}

#[test]
fn matmul_refuses_buffers_of_another_size() {
    let ctx = IntCpu::new().unwrap();
    let a = vec![1, 2, 3, 4, 5, 6];
    let b = vec![7, 8, 9, 10, 11, 12];
    buffer_error(IntCpu::matmul(&ctx, &a, &b, 2, 2, 2), "Buffer size mismatch");
    buffer_error(IntCpu::matmul(&ctx, &a, &b, 2, 3, 3), "Buffer size mismatch");
    buffer_error(
        IntCpu::matmul_transposed(&ctx, &a, &b, 4, 2, 3, true, true),
        "Buffer size mismatch",
    );
    buffer_error(
        IntCpu::matmul_batched(&ctx, &a, &b, 2, 2, 2, 3),
        "Buffer size mismatch",
    );
    buffer_error(
        IntCpu::matmul_transposed_batched(&ctx, &a, &b, 0, 2, 2, 3, false, false),
        "Buffer size mismatch",
    );
    buffer_error(
        IntCpu::matmul(&ctx, &vec![], &vec![], usize::MAX, 2, 0),
        "Buffer size mismatch",
    );
    buffer_error(
        IntCpu::matmul(&ctx, &a, &b, usize::MAX, 2, usize::MAX),
        "Buffer size mismatch",
    );
}

#[test]
fn float_sums_are_taken_in_the_order_of_the_inner_index() {
    // 1e8 + 1 - 1e8 is 0 in this order, and would be 1 in another
    let ctx = Cpu::new().unwrap();
    let a = floats(&[1.0e8, 1.0, -1.0e8]);
    let b = floats(&[1.0, 1.0, 1.0]);
    let c = Cpu::matmul(&ctx, &a, &b, 1, 1, 3).unwrap();
    assert_eq!(c, floats(&[((0.0f32 + 1.0e8) + 1.0) + -1.0e8]));
    assert_eq!(c, floats(&[0.0]));
}
