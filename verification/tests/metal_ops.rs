//! The GPU backend driven end to end, with the device emulated on the host:
//! every launch is run thread by thread over its grid, and every kernel does
//! what its name and its argument slots say.

use ferroflow::compute::{
    ComputeBackend, Dispatch, Element, InitStep, Kernel, MetalBackend, MetalContext, Uniform,
};
use ferroflow::error::FerroFlowError;
use ferroflow::tensor::{Shape, Tensor};
use std::sync::Arc;

/// A 32-bit float as a buffer element.
#[derive(Clone, Copy, Debug, PartialEq)]
struct F32(f32);

impl Element for F32 {
    fn zero_value() -> Self {
        F32(0.0)
    }

    fn one_value() -> Self {
        F32(1.0)
    }

    fn minus_one_value() -> Self {
        F32(-1.0)
    }

    fn sum(self, rhs: Self) -> Self {
        F32(self.0 + rhs.0)
    }

    fn product(self, rhs: Self) -> Self {
        F32(self.0 * rhs.0)
    }

    fn zero() -> Self {
        F32(0.0)
    }

    fn one() -> Self {
        F32(1.0)
    }

    fn minus_one() -> Self {
        F32(-1.0)
    }

    fn plus(self, rhs: Self) -> Self {
        F32(self.0 + rhs.0)
    }

    fn times(self, rhs: Self) -> Self {
        F32(self.0 * rhs.0)
    }
}

fn floats(values: &[f32]) -> Vec<F32> {
    values.iter().map(|v| F32(*v)).collect()
}

/// The pipelines that were built, in the order they were built in.
struct HostDevice {
    pipelines: Vec<Kernel>,
}

/// The GPU backend on an emulated device.
struct Emulated;

fn word(plan: &Dispatch, slot: u64) -> usize {
    match plan.uniforms.iter().find(|b| b.slot == slot) {
        Some(binding) => match binding.value {
            Uniform::Word(w) => w as usize,
            _ => panic!("slot {} holds no number", slot),
        },
        None => panic!("nothing is bound to slot {}", slot),
    }
}

fn flag(plan: &Dispatch, slot: u64) -> bool {
    match plan.uniforms.iter().find(|b| b.slot == slot) {
        Some(binding) => match binding.value {
            Uniform::Flag(f) => f,
            _ => panic!("slot {} holds no flag", slot),
        },
        None => panic!("nothing is bound to slot {}", slot),
    }
}

/// What one thread of a matmul kernel computes.
fn matmul_thread(
    a: &[F32],
    b: &[F32],
    (m, n, k): (usize, usize, usize),
    (transpose_a, transpose_b): (bool, bool),
    (row, col): (usize, usize),
) -> F32 {
    let mut sum = 0.0f32;
    for inner in 0..k {
        let left = if transpose_a {
            a[inner * m + row]
        } else {
            a[row * k + inner]
        };
        let right = if transpose_b {
            b[col * k + inner]
        } else {
            b[inner * n + col]
        };
        sum += left.0 * right.0;
    }
    F32(sum)
}

fn launch(
    device: &HostDevice,
    plan: &Dispatch,
    inputs: &[&Vec<F32>],
    scalar: Option<F32>,
) -> Vec<F32> {
    assert_eq!(device.pipelines[plan.kernel.position()], plan.kernel);
    assert_eq!(inputs.len() as u64, plan.inputs);
    assert_eq!(plan.output_bytes, 4 * plan.output_len as u64);
    let mut out = vec![F32(0.0); plan.output_len];
    let (width, height, depth) = (
        plan.grid.0 as usize,
        plan.grid.1 as usize,
        plan.grid.2 as usize,
    );
    for z in 0..depth {
        for y in 0..height {
            for x in 0..width {
                match plan.kernel {
                    Kernel::ElementWiseAdd => out[x] = F32(inputs[0][x].0 + inputs[1][x].0),
                    Kernel::ElementWiseMultiply => out[x] = F32(inputs[0][x].0 * inputs[1][x].0),
                    Kernel::ScalarMultiply => {
                        assert!(plan
                            .uniforms
                            .iter()
                            .any(|b| b.slot == 2 && b.value == Uniform::Scalar));
                        out[x] = F32(inputs[0][x].0 * scalar.unwrap().0)
                    }
                    Kernel::Matmul | Kernel::MatmulTiled => {
                        let dims = (word(plan, 3), word(plan, 4), word(plan, 5));
                        out[y * dims.1 + x] =
                            matmul_thread(inputs[0], inputs[1], dims, (false, false), (y, x));
                    }
                    Kernel::MatmulBatched | Kernel::MatmulBatchedTiled => {
                        let (m, n, k) = (word(plan, 3), word(plan, 4), word(plan, 5));
                        assert_eq!(word(plan, 6), depth);
                        out[z * m * n + y * n + x] = matmul_thread(
                            &inputs[0][z * m * k..],
                            &inputs[1][z * k * n..],
                            (m, n, k),
                            (false, false),
                            (y, x),
                        );
                    }
                    Kernel::MatmulTransposed | Kernel::MatmulTransposedTiled => {
                        let dims = (word(plan, 3), word(plan, 4), word(plan, 5));
                        let flags = (flag(plan, 6), flag(plan, 7));
                        out[y * dims.1 + x] =
                            matmul_thread(inputs[0], inputs[1], dims, flags, (y, x));
                    }
                }
            }
        }
    }
    out
}

impl ComputeBackend for Emulated {
    type Elem = F32;
    type Buffer = Vec<F32>;
    type Context = HostDevice;

    fn contents(buffer: &Vec<F32>) -> Vec<F32> {
        buffer.clone()
    }

    fn dependable() -> bool {
        false
    }

    fn sums_in_order() -> bool {
        true
    }

    fn new() -> Result<Arc<HostDevice>, FerroFlowError> {
        let mut progress = MetalContext::new();
        let mut pipelines = Vec::new();
        loop {
            match progress.next_step() {
                InitStep::BuildPipeline(kernel) => pipelines.push(kernel),
                InitStep::Done => break,
                _ => {}
            }
            progress = progress.advance(None)?;
        }
        Ok(Arc::new(HostDevice { pipelines }))
    }

    fn allocate_buffer(
        _ctx: &HostDevice,
        size: usize,
        data: Option<&[F32]>,
    ) -> Result<Vec<F32>, FerroFlowError> {
        let bytes = MetalBackend::allocate_buffer(size, data.map(|d| d.len()))?;
        match data {
            Some(data) => Ok(data.to_vec()),
            None => Ok(vec![F32(0.0); (bytes / 4) as usize]),
        }
    }

    fn read_buffer(_ctx: &HostDevice, buffer: &Vec<F32>) -> Result<Vec<F32>, FerroFlowError> {
        let len = MetalBackend::read_buffer(4 * buffer.len() as u64)?;
        Ok(buffer[..len].to_vec())
    }

    fn element_wise_add(
        ctx: &HostDevice,
        a: &Vec<F32>,
        b: &Vec<F32>,
        size: usize,
    ) -> Result<Vec<F32>, FerroFlowError> {
        MetalBackend::check_lengths(a.len(), b.len(), size)?;
        Ok(launch(ctx, &MetalBackend::element_wise_add(size)?, &[a, b], None))
    }

    fn element_wise_multiply(
        ctx: &HostDevice,
        a: &Vec<F32>,
        b: &Vec<F32>,
        size: usize,
    ) -> Result<Vec<F32>, FerroFlowError> {
        MetalBackend::check_lengths(a.len(), b.len(), size)?;
        Ok(launch(
            ctx,
            &MetalBackend::element_wise_multiply(size)?,
            &[a, b],
            None,
        ))
    }

    fn scalar_multiply(
        ctx: &HostDevice,
        input: &Vec<F32>,
        scalar: F32,
        size: usize,
    ) -> Result<Vec<F32>, FerroFlowError> {
        MetalBackend::check_lengths(input.len(), input.len(), size)?;
        Ok(launch(
            ctx,
            &MetalBackend::scalar_multiply(size)?,
            &[input],
            Some(scalar),
        ))
    }

    fn synchronize(_ctx: &HostDevice) -> Result<(), FerroFlowError> {
        Ok(())
    }

    fn matmul_transposed(
        ctx: &HostDevice,
        a: &Vec<F32>,
        b: &Vec<F32>,
        m: usize,
        n: usize,
        k: usize,
        transpose_a: bool,
        transpose_b: bool,
    ) -> Result<Vec<F32>, FerroFlowError> {
        MetalBackend::check_operands(a.len(), b.len(), 1, m, n, k)?;
        let plan = MetalBackend::matmul_transposed(m, n, k, transpose_a, transpose_b)?;
        Ok(launch(ctx, &plan, &[a, b], None))
    }

    fn matmul_transposed_batched(
        ctx: &HostDevice,
        a: &Vec<F32>,
        b: &Vec<F32>,
        batch_size: usize,
        m: usize,
        n: usize,
        k: usize,
        transpose_a: bool,
        transpose_b: bool,
    ) -> Result<Vec<F32>, FerroFlowError> {
        MetalBackend::check_operands(a.len(), b.len(), batch_size, m, n, k)?;
        let plan =
            MetalBackend::matmul_transposed_batched(batch_size, m, n, k, transpose_a, transpose_b)?;
        Ok(launch(ctx, &plan, &[a, b], None))
    }

    fn matmul(
        ctx: &HostDevice,
        a: &Vec<F32>,
        b: &Vec<F32>,
        m: usize,
        n: usize,
        k: usize,
    ) -> Result<Vec<F32>, FerroFlowError> {
        MetalBackend::check_operands(a.len(), b.len(), 1, m, n, k)?;
        Ok(launch(ctx, &MetalBackend::matmul(m, n, k)?, &[a, b], None))
    }

    fn matmul_batched(
        ctx: &HostDevice,
        a: &Vec<F32>,
        b: &Vec<F32>,
        batch_size: usize,
        m: usize,
        n: usize,
        k: usize,
    ) -> Result<Vec<F32>, FerroFlowError> {
        MetalBackend::check_operands(a.len(), b.len(), batch_size, m, n, k)?;
        let plan = MetalBackend::matmul_batched(batch_size, m, n, k)?;
        Ok(launch(ctx, &plan, &[a, b], None))
    }
}

fn tensor(dims: &[usize], values: &[f32]) -> Tensor<Emulated> {
    Tensor::new(
        Emulated::new().unwrap(),
        Shape::new(dims.to_vec()),
        &floats(values),
    )
    .unwrap()
}

fn failure<T>(outcome: Result<T, FerroFlowError>) -> FerroFlowError {
    match outcome {
        Ok(_) => panic!("the operation should have failed"),
        Err(e) => e,
    }
}

fn backend_operations<B: ComputeBackend<Elem = F32>>(
    ctx: Arc<B::Context>,
) -> Result<(), FerroFlowError> {
    let a = Tensor::<B>::new(
        Arc::clone(&ctx),
        Shape::new(vec![2, 2]),
        &floats(&[1.0, 2.0, 3.0, 4.0]),
    )?;

    let b = Tensor::<B>::new(
        Arc::clone(&ctx),
        Shape::new(vec![2, 2]),
        &floats(&[5.0, 6.0, 7.0, 8.0]),
    )?;

    // Test addition
    let c = a.add(&b)?;
    assert_eq!(c.data()?, floats(&[6.0, 8.0, 10.0, 12.0]));

    // Test multiplication
    let d = a.multiply(&b)?;
    assert_eq!(d.data()?, floats(&[5.0, 12.0, 21.0, 32.0]));

    // Test scalar multiplication
    let e = a.scalar_multiply(F32(2.0))?;
    assert_eq!(e.data()?, floats(&[2.0, 4.0, 6.0, 8.0]));

    Ok(())
}

#[test]
fn test_metal_operations() {
    let ctx = Emulated::new().unwrap();
    backend_operations::<Emulated>(ctx).unwrap();
}

#[test]
fn the_emulated_device_builds_every_pipeline() {
    let ctx = Emulated::new().unwrap();
    assert_eq!(ctx.pipelines.len(), 9);
    for (i, kernel) in ctx.pipelines.iter().enumerate() {
        assert_eq!(kernel.position(), i);
    }
}

#[test]
fn construction_round_trips_on_the_device() {
    let t = tensor(&[2, 3], &[1.0, 2.0, 3.0, 4.0, 5.0, 6.0]);
    assert_eq!(t.data().unwrap(), floats(&[1.0, 2.0, 3.0, 4.0, 5.0, 6.0]));
    let zeros = Tensor::<Emulated>::zeros(Emulated::new().unwrap(), Shape::new(vec![3])).unwrap();
    assert_eq!(zeros.data().unwrap(), floats(&[0.0; 3]));
}

#[test]
fn negation_on_the_device() {
    let a = tensor(&[2, 2], &[1.0, 2.0, 3.0, 4.0]);
    assert_eq!(
        a.scalar_multiply(F32(-1.0)).unwrap().data().unwrap(),
        floats(&[-1.0, -2.0, -3.0, -4.0])
    );
}

#[test]
fn matmul_on_the_device() {
    let a = tensor(&[2, 3], &[1.0, 2.0, 3.0, 4.0, 5.0, 6.0]);
    let b = tensor(&[3, 2], &[7.0, 8.0, 9.0, 10.0, 11.0, 12.0]);
    let c = a.matmul(&b).unwrap();
    assert_eq!(c.data().unwrap(), floats(&[58.0, 64.0, 139.0, 154.0]));
    assert_eq!(c.shape().dims(), &[2, 2]);
}

#[test]
fn tiled_matmul_on_the_device_agrees_with_the_host() {
    let (m, k, n) = (17usize, 16usize, 18usize);
    let a: Vec<f32> = (0..m * k).map(|i| ((i % 7) as f32) - 3.0).collect();
    let b: Vec<f32> = (0..k * n).map(|i| ((i % 5) as f32) * 0.5).collect();
    assert_eq!(
        MetalBackend::matmul(m, n, k).unwrap().kernel,
        Kernel::MatmulTiled
    );
    let on_device = tensor(&[m, k], &a)
        .matmul(&tensor(&[k, n], &b))
        .unwrap()
        .data()
        .unwrap();
    let host = ferroflow::compute::CPUBackend::<F32>::new().unwrap();
    let on_host = Tensor::<ferroflow::compute::CPUBackend<F32>>::new(
        Arc::clone(&host),
        Shape::new(vec![m, k]),
        &floats(&a),
    )
    .unwrap()
    .matmul(
        &Tensor::new(Arc::clone(&host), Shape::new(vec![k, n]), &floats(&b)).unwrap(),
    )
    .unwrap()
    .data()
    .unwrap();
    assert_eq!(on_device.len(), on_host.len());
    for i in 0..on_host.len() {
        assert!((on_device[i].0 - on_host[i].0).abs() <= 1e-5);
    }
}

#[test]
fn batched_and_transposed_matmul_on_the_device() {
    let a = tensor(
        &[2, 2, 3],
        &[1.0, 2.0, 3.0, 4.0, 5.0, 6.0, 7.0, 8.0, 9.0, 10.0, 11.0, 12.0],
    );
    let b = tensor(
        &[2, 3, 2],
        &[7.0, 8.0, 9.0, 10.0, 11.0, 12.0, 1.0, 0.0, 0.0, 1.0, 1.0, 1.0],
    );
    let c = a.matmul(&b).unwrap();
    assert_eq!(
        c.data().unwrap(),
        floats(&[58.0, 64.0, 139.0, 154.0, 16.0, 17.0, 22.0, 23.0])
    );
    assert_eq!(c.shape().dims(), &[2, 2, 2]);

    let stored = tensor(&[3, 2], &[1.0, 4.0, 2.0, 5.0, 3.0, 6.0]);
    let plain = tensor(&[3, 2], &[1.0, 2.0, 3.0, 4.0, 5.0, 6.0]);
    assert_eq!(
        stored
            .matmul_transposed(&plain, true, false)
            .unwrap()
            .data()
            .unwrap(),
        floats(&[22.0, 28.0, 49.0, 64.0])
    );
}

#[test]
fn the_device_has_no_kernel_for_transposed_batches() {
    let a = tensor(&[2, 3, 2], &[1.0; 12]);
    let b = tensor(&[2, 3, 2], &[1.0; 12]);
    let e = failure(a.matmul_transposed(&b, true, false));
    assert!(matches!(e, FerroFlowError::InvalidOperation(_)));
    assert_eq!(e.message(), "No kernel multiplies transposed batches");
}

#[test]
fn the_device_refuses_buffers_of_another_size() {
    let ctx = Emulated::new().unwrap();
    let three = floats(&[1.0, 2.0, 3.0]);
    let two = floats(&[1.0, 2.0]);
    for outcome in [
        Emulated::element_wise_add(&ctx, &three, &two, 3),
        Emulated::element_wise_add(&ctx, &two, &three, 3),
        Emulated::element_wise_add(&ctx, &three, &three, 2),
        Emulated::element_wise_multiply(&ctx, &three, &two, 3),
        Emulated::element_wise_multiply(&ctx, &three, &three, 4),
        Emulated::scalar_multiply(&ctx, &three, F32(2.0), 2),
        Emulated::matmul(&ctx, &three, &two, 1, 1, 3),
        Emulated::matmul(&ctx, &three, &three, 2, 1, 3),
        Emulated::matmul_batched(&ctx, &three, &three, 2, 1, 1, 3),
        Emulated::matmul_transposed(&ctx, &three, &three, 3, 3, 3, true, false),
    ] {
        let e = failure(outcome);
        assert!(matches!(e, FerroFlowError::BufferError(_)));
        assert_eq!(e.message(), "Buffer size mismatch");
    }
    assert_eq!(
        Emulated::element_wise_add(&ctx, &three, &three, 3).unwrap(),
        floats(&[2.0, 4.0, 6.0])
    );
    assert_eq!(
        Emulated::matmul(&ctx, &three, &three, 1, 1, 3).unwrap(),
        floats(&[14.0])
    );
}

#[test]
fn shape_errors_come_before_any_launch() {
    let a = tensor(&[2, 3], &[1.0; 6]);
    let b = tensor(&[3, 2], &[1.0; 6]);
    assert!(matches!(
        failure(a.add(&b)),
        FerroFlowError::ShapeMismatch(_)
    ));
    assert!(matches!(
        failure(a.matmul(&a)),
        FerroFlowError::ShapeMismatch(_)
    ));
    let e = failure(Tensor::<Emulated>::new(
        Emulated::new().unwrap(),
        Shape::new(vec![2, 2]),
        &floats(&[1.0, 2.0, 3.0]),
    ));
    assert!(matches!(e, FerroFlowError::ShapeMismatch(_)));
}
