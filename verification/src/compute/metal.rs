//! The GPU backend, as far as it can be decided on the host: which kernel
//! runs, what it is handed and over which grid, and the order in which a
//! context is built.
//!
//! Nothing here touches a device. Every function describes one step; the
//! host carries it out and reports back.

use super::{matmul_fits, operands_fit};
use crate::error::FerroFlowError;
use vstd::prelude::*;
use vstd::string::StringExecFns;

verus! {

/// The edge of the square tiles of the tiled kernels, and of the thread
/// groups of every matmul kernel.
pub const TILE_SIZE: usize = 16;

/// The size of one buffer element in bytes.
pub const ELEMENT_BYTES: u64 = 4;

/// The length of the thread groups of the element-wise kernels.
pub const ELEMENTWISE_GROUP: u64 = 256;

/// The number of kernels in the library.
pub const KERNEL_COUNT: usize = 9;

/// The kernels of the compiled library, in the order in which their
/// pipelines are built.
#[derive(Clone, Copy, Debug, PartialEq, Eq)]
pub enum Kernel {
    ElementWiseAdd,
    ElementWiseMultiply,
    ScalarMultiply,
    Matmul,
    MatmulTiled,
    MatmulBatched,
    MatmulBatchedTiled,
    MatmulTransposed,
    MatmulTransposedTiled,
}

impl Kernel {
    /// The name of the kernel function in the library.
    pub open spec fn spec_name(self) -> Seq<char> {
        match self {
            Kernel::ElementWiseAdd => "element_wise_add"@,
            Kernel::ElementWiseMultiply => "element_wise_multiply"@,
            Kernel::ScalarMultiply => "scalar_multiply"@,
            Kernel::Matmul => "matmul"@,
            Kernel::MatmulTiled => "matmul_tiled"@,
            Kernel::MatmulBatched => "matmul_batched"@,
            Kernel::MatmulBatchedTiled => "matmul_batched_tiled"@,
            Kernel::MatmulTransposed => "matmul_transposed"@,
            Kernel::MatmulTransposedTiled => "matmul_transposed_tiled"@,
        }
    }

    /// The place of the kernel in the order in which pipelines are built.
    pub open spec fn spec_position(self) -> nat {
        match self {
            Kernel::ElementWiseAdd => 0,
            Kernel::ElementWiseMultiply => 1,
            Kernel::ScalarMultiply => 2,
            Kernel::Matmul => 3,
            Kernel::MatmulTiled => 4,
            Kernel::MatmulBatched => 5,
            Kernel::MatmulBatchedTiled => 6,
            Kernel::MatmulTransposed => 7,
            Kernel::MatmulTransposedTiled => 8,
        }
    }

    /// The kernel at a place in that order.
    pub open spec fn spec_at(position: nat) -> Option<Kernel> {
        if position == 0 {
            Some(Kernel::ElementWiseAdd)
        } else if position == 1 {
            Some(Kernel::ElementWiseMultiply)
        } else if position == 2 {
            Some(Kernel::ScalarMultiply)
        } else if position == 3 {
            Some(Kernel::Matmul)
        } else if position == 4 {
            Some(Kernel::MatmulTiled)
        } else if position == 5 {
            Some(Kernel::MatmulBatched)
        } else if position == 6 {
            Some(Kernel::MatmulBatchedTiled)
        } else if position == 7 {
            Some(Kernel::MatmulTransposed)
        } else if position == 8 {
            Some(Kernel::MatmulTransposedTiled)
        } else {
            None
        }
    }

    /// The name of the kernel function in the library.
    pub fn name(self) -> (s: &'static str)
        ensures
            s@ == self.spec_name(),
    {
        match self {
            Kernel::ElementWiseAdd => "element_wise_add",
            Kernel::ElementWiseMultiply => "element_wise_multiply",
            Kernel::ScalarMultiply => "scalar_multiply",
            Kernel::Matmul => "matmul",
            Kernel::MatmulTiled => "matmul_tiled",
            Kernel::MatmulBatched => "matmul_batched",
            Kernel::MatmulBatchedTiled => "matmul_batched_tiled",
            Kernel::MatmulTransposed => "matmul_transposed",
            Kernel::MatmulTransposedTiled => "matmul_transposed_tiled",
        }
    }

    /// The place of the kernel in the order in which pipelines are built:
    /// where the host keeps its pipeline.
    pub fn position(self) -> (p: usize)
        ensures
            p == self.spec_position(),
            p < KERNEL_COUNT,
            Kernel::spec_at(p as nat) == Some(self),
    {
        match self {
            Kernel::ElementWiseAdd => 0,
            Kernel::ElementWiseMultiply => 1,
            Kernel::ScalarMultiply => 2,
            Kernel::Matmul => 3,
            Kernel::MatmulTiled => 4,
            Kernel::MatmulBatched => 5,
            Kernel::MatmulBatchedTiled => 6,
            Kernel::MatmulTransposed => 7,
            Kernel::MatmulTransposedTiled => 8,
        }
    }

    /// The kernel at a place in that order, if there is one.
    pub fn at(position: usize) -> (k: Option<Kernel>)
        ensures
            k == Kernel::spec_at(position as nat),
            k is Some <==> position < KERNEL_COUNT,
            k matches Some(kernel) ==> kernel.spec_position() == position,
    {
        if position == 0 {
            Some(Kernel::ElementWiseAdd)
        } else if position == 1 {
            Some(Kernel::ElementWiseMultiply)
        } else if position == 2 {
            Some(Kernel::ScalarMultiply)
        } else if position == 3 {
            Some(Kernel::Matmul)
        } else if position == 4 {
            Some(Kernel::MatmulTiled)
        } else if position == 5 {
            Some(Kernel::MatmulBatched)
        } else if position == 6 {
            Some(Kernel::MatmulBatchedTiled)
        } else if position == 7 {
            Some(Kernel::MatmulTransposed)
        } else if position == 8 {
            Some(Kernel::MatmulTransposedTiled)
        } else {
            None
        }
    }
}

/// A value handed to a kernel as raw bytes.
#[derive(Clone, Copy, Debug, PartialEq, Eq)]
pub enum Uniform {
    /// An unsigned 32-bit number: a dimension or a batch count.
    Word(u32),
    /// A transpose flag, one byte.
    Flag(bool),
    /// The scalar operand of a scalar multiplication: one element, which the
    /// host holds.
    Scalar,
}

impl Uniform {
    /// The number of bytes the kernel reads for the value.
    pub open spec fn spec_byte_length(self) -> nat {
        match self {
            Uniform::Word(_) => 4,
            Uniform::Flag(_) => 1,
            Uniform::Scalar => ELEMENT_BYTES as nat,
        }
    }

    /// The number of bytes the kernel reads for the value: four for a
    /// number, one for a flag, the size of an element for the scalar.
    pub fn byte_length(self) -> (n: u64)
        ensures
            n == self.spec_byte_length(),
    {
        match self {
            Uniform::Word(_) => 4,
            Uniform::Flag(_) => 1,
            Uniform::Scalar => ELEMENT_BYTES,
        }
    }
}

/// A uniform and the argument slot it is bound to.
#[derive(Clone, Copy, Debug, PartialEq, Eq)]
pub struct Binding {
    pub slot: u64,
    pub value: Uniform,
}

/// One kernel launch.
///
/// The host allocates an output buffer of `output_bytes` bytes, binds the
/// input buffers to the slots `0..inputs` in the order of the operands and
/// the output buffer to the slot `inputs`, binds every uniform to its slot,
/// launches `kernel` over `grid` in groups of `threadgroup`, and waits for
/// it to complete before it returns the output buffer.
#[derive(Debug, PartialEq, Eq)]
pub struct Dispatch {
    pub kernel: Kernel,
    pub inputs: u64,
    pub output_len: usize,
    pub output_bytes: u64,
    pub uniforms: Vec<Binding>,
    pub grid: (u64, u64, u64),
    pub threadgroup: (u64, u64, u64),
}

/// What a [`Dispatch`] says, as plain values.
pub struct Launch {
    pub kernel: Kernel,
    pub inputs: nat,
    pub output_len: nat,
    pub uniforms: Seq<Binding>,
    pub grid: (nat, nat, nat),
    pub threadgroup: (nat, nat, nat),
}

impl Launch {
    /// Whether the launch is laid out as every launch of this backend is:
    /// one thread for every element of the output, thread groups that are
    /// not empty, and the uniforms in rising slots behind the slots of the
    /// buffers.
    pub open spec fn well_formed(self) -> bool {
        &&& self.grid.0 * self.grid.1 * self.grid.2 == self.output_len
        &&& self.threadgroup.0 > 0 && self.threadgroup.1 > 0 && self.threadgroup.2 > 0
        &&& forall|i: int| 0 <= i < self.uniforms.len() ==> self.uniforms[i].slot == self.inputs + 1 + i
    }
}

impl View for Dispatch {
    type V = Launch;

    open spec fn view(&self) -> Launch {
        Launch {
            kernel: self.kernel,
            inputs: self.inputs as nat,
            output_len: self.output_len as nat,
            uniforms: self.uniforms@,
            grid: (self.grid.0 as nat, self.grid.1 as nat, self.grid.2 as nat),
            threadgroup: (
                self.threadgroup.0 as nat,
                self.threadgroup.1 as nat,
                self.threadgroup.2 as nat,
            ),
        }
    }
}

/// Whether a product is large enough for the tiled kernels: every one of
/// `m`, `n` and `k` fills at least one tile.
pub open spec fn uses_tiles(m: usize, n: usize, k: usize) -> bool {
    m >= TILE_SIZE && n >= TILE_SIZE && k >= TILE_SIZE
}

/// Whether every dimension can be handed to a kernel, which takes unsigned
/// 32-bit numbers.
pub open spec fn in_kernel_range(batch: usize, m: usize, n: usize, k: usize) -> bool {
    batch <= u32::MAX && m <= u32::MAX && n <= u32::MAX && k <= u32::MAX
}

/// Whether a buffer of `len` elements can be allocated: its length in
/// bytes must fit 64 bits.
pub open spec fn allocatable(len: nat) -> bool {
    len * ELEMENT_BYTES <= u64::MAX
}

/// The launch of an element-wise kernel with `inputs` input buffers over
/// `size` elements.
pub open spec fn elementwise_launch(
    kernel: Kernel,
    inputs: nat,
    uniforms: Seq<Binding>,
    size: usize,
) -> Launch {
    Launch {
        kernel,
        inputs,
        output_len: size as nat,
        uniforms,
        grid: (size as nat, 1, 1),
        threadgroup: (ELEMENTWISE_GROUP as nat, 1, 1),
    }
}

/// The uniforms that every matmul kernel takes: `m`, `n` and `k` in the
/// slots 3, 4 and 5.
pub open spec fn dimension_uniforms(m: usize, n: usize, k: usize) -> Seq<Binding> {
    seq![
        Binding { slot: 3, value: Uniform::Word(m as u32) },
        Binding { slot: 4, value: Uniform::Word(n as u32) },
        Binding { slot: 5, value: Uniform::Word(k as u32) },
    ]
}

/// The launch of a matmul kernel for `batch` products of `m x k` by
/// `k x n`: one thread for every element of the result, in groups of one
/// tile.
pub open spec fn matmul_launch(
    kernel: Kernel,
    uniforms: Seq<Binding>,
    batch: usize,
    m: usize,
    n: usize,
) -> Launch {
    Launch {
        kernel,
        inputs: 2,
        output_len: (batch * (m * n)) as nat,
        uniforms,
        grid: (n as nat, m as nat, batch as nat),
        threadgroup: (TILE_SIZE as nat, TILE_SIZE as nat, 1),
    }
}

/// The launch for a plain product.
pub open spec fn plain_launch(m: usize, n: usize, k: usize) -> Launch {
    matmul_launch(
        if uses_tiles(m, n, k) {
            Kernel::MatmulTiled
        } else {
            Kernel::Matmul
        },
        dimension_uniforms(m, n, k),
        1,
        m,
        n,
    )
}

/// The launch for a batch of products: the batch count goes to slot 6.
pub open spec fn batched_launch(batch: usize, m: usize, n: usize, k: usize) -> Launch {
    matmul_launch(
        if uses_tiles(m, n, k) {
            Kernel::MatmulBatchedTiled
        } else {
            Kernel::MatmulBatched
        },
        dimension_uniforms(m, n, k).push(Binding { slot: 6, value: Uniform::Word(batch as u32) }),
        batch,
        m,
        n,
    )
}

/// The launch for a product with transposition: the flags go to the slots
/// 6 and 7.
pub open spec fn transposed_launch(
    m: usize,
    n: usize,
    k: usize,
    transpose_a: bool,
    transpose_b: bool,
) -> Launch {
    matmul_launch(
        if uses_tiles(m, n, k) {
            Kernel::MatmulTransposedTiled
        } else {
            Kernel::MatmulTransposed
        },
        dimension_uniforms(m, n, k).push(
            Binding { slot: 6, value: Uniform::Flag(transpose_a) },
        ).push(Binding { slot: 7, value: Uniform::Flag(transpose_b) }),
        1,
        m,
        n,
    )
}

/// Every launch of this backend has one thread for every element of its
/// output and binds its uniforms behind its buffers, in rising slots.
pub proof fn lemma_launches_are_well_formed(
    size: usize,
    batch: usize,
    m: usize,
    n: usize,
    k: usize,
    transpose_a: bool,
    transpose_b: bool,
)
    ensures
        elementwise_launch(Kernel::ElementWiseAdd, 2, Seq::empty(), size).well_formed(),
        elementwise_launch(Kernel::ElementWiseMultiply, 2, Seq::empty(), size).well_formed(),
        elementwise_launch(
            Kernel::ScalarMultiply,
            1,
            seq![Binding { slot: 2, value: Uniform::Scalar }],
            size,
        ).well_formed(),
        plain_launch(m, n, k).well_formed(),
        batched_launch(batch, m, n, k).well_formed(),
        transposed_launch(m, n, k, transpose_a, transpose_b).well_formed(),
{
    assert(size * 1 * 1 == size) by (nonlinear_arith);
    assert(n * m * 1 == 1 * (m * n)) by (nonlinear_arith);
    assert(n * m * batch == batch * (m * n)) by (nonlinear_arith);
}

/// Why a product cannot be launched, if it cannot.
pub open spec fn launch_refusal(batch: usize, m: usize, n: usize, k: usize) -> Option<
    LaunchRefusal,
> {
    if !in_kernel_range(batch, m, n, k) {
        Some(LaunchRefusal::OutOfKernelRange)
    } else if batch * (m * n) > usize::MAX || !allocatable((batch * (m * n)) as nat) {
        Some(LaunchRefusal::TooLarge)
    } else {
        None
    }
}

/// Why a product cannot be launched.
pub enum LaunchRefusal {
    /// A dimension does not fit the 32 bits a kernel takes.
    OutOfKernelRange,
    /// The result cannot be allocated.
    TooLarge,
}

impl LaunchRefusal {
    /// Whether `e` is the error under which this refusal is reported.
    pub open spec fn reported_as(self, e: FerroFlowError) -> bool {
        match self {
            LaunchRefusal::OutOfKernelRange => e is InvalidOperation && e.detail()
                == "Dimension exceeds the range of the kernels"@,
            LaunchRefusal::TooLarge => e is BufferError && e.detail() == "Buffer too large"@,
        }
    }
}

fn buffer_size_mismatch() -> (e: FerroFlowError)
    ensures
        e is BufferError,
        e.detail() == "Buffer size mismatch"@,
{
    FerroFlowError::BufferError(String::from_str("Buffer size mismatch"))
}

fn buffer_too_large() -> (e: FerroFlowError)
    ensures
        e is BufferError,
        e.detail() == "Buffer too large"@,
{
    FerroFlowError::BufferError(String::from_str("Buffer too large"))
}

/// The length in bytes of a buffer of `len` elements, where it can be
/// allocated.
fn byte_length(len: usize) -> (r: Option<u64>)
    ensures
        match r {
            Some(bytes) => allocatable(len as nat) && bytes == len * ELEMENT_BYTES,
            None => !allocatable(len as nat),
        },
{
    (len as u64).checked_mul(ELEMENT_BYTES)
}

/// The three dimension uniforms, for dimensions in the kernels' range.
fn dimension_bindings(m: usize, n: usize, k: usize) -> (u: Vec<Binding>)
    requires
        in_kernel_range(0, m, n, k),
    ensures
        u@ == dimension_uniforms(m, n, k),
{
    let mut uniforms: Vec<Binding> = Vec::new();
    uniforms.push(Binding { slot: 3, value: Uniform::Word(m as u32) });
    uniforms.push(Binding { slot: 4, value: Uniform::Word(n as u32) });
    uniforms.push(Binding { slot: 5, value: Uniform::Word(k as u32) });
    assert(uniforms@ =~= dimension_uniforms(m, n, k));
    uniforms
}

/// The number of elements of `batch` results of `m x n` and their length in
/// bytes, or the error that refuses the launch.
fn result_size(batch: usize, m: usize, n: usize, k: usize) -> (r: Result<
    (usize, u64),
    FerroFlowError,
>)
    ensures
        match launch_refusal(batch, m, n, k) {
            None => r == Ok::<(usize, u64), FerroFlowError>(
                ((batch * (m * n)) as usize, (batch * (m * n) * ELEMENT_BYTES) as u64),
            ),
            Some(why) => r is Err && why.reported_as(r->Err_0),
        },
{
    let limit = u32::MAX as usize;
    if batch > limit || m > limit || n > limit || k > limit {
        return Err(
            FerroFlowError::InvalidOperation(
                String::from_str("Dimension exceeds the range of the kernels"),
            ),
        );
    }
    let len = match super::checked_volume(batch, m, n) {
        Some(len) => len,
        None => {
            return Err(buffer_too_large());
        },
    };
    match byte_length(len) {
        Some(bytes) => Ok((len, bytes)),
        None => Err(buffer_too_large()),
    }
}

/// The GPU backend: the decisions behind every operation it offers.
pub struct MetalBackend;

impl MetalBackend {
    /// Holds the lengths of the operands of an element-wise operation
    /// against the `size` it was asked for: both buffers must hold exactly
    /// `size` elements. For an operation on one buffer, its length is
    /// handed in twice.
    pub fn check_lengths(a_len: usize, b_len: usize, size: usize) -> (r: Result<
        (),
        FerroFlowError,
    >)
        ensures
            r is Ok <==> a_len == size && b_len == size,
            r is Err ==> r->Err_0 is BufferError && r->Err_0.detail() == "Buffer size mismatch"@,
    {
        if a_len == size && b_len == size {
            Ok(())
        } else {
            Err(buffer_size_mismatch())
        }
    }

    /// Holds the lengths of the operands of `batch` products of `m x k` by
    /// `k x n` against what the products read: the buffers must hold
    /// exactly the operands, and the result must be small enough to be
    /// held.
    pub fn check_operands(
        a_len: usize,
        b_len: usize,
        batch: usize,
        m: usize,
        n: usize,
        k: usize,
    ) -> (r: Result<(), FerroFlowError>)
        ensures
            r is Ok <==> matmul_fits(a_len as nat, b_len as nat, batch, m, n, k),
            r is Err ==> r->Err_0 is BufferError && r->Err_0.detail() == "Buffer size mismatch"@,
    {
        if operands_fit(a_len, b_len, batch, m, n, k) {
            Ok(())
        } else {
            Err(buffer_size_mismatch())
        }
    }

    /// The length in bytes of a new buffer of `size` elements. `data_len` is
    /// the length of the data to fill it with, if there is any; data of any
    /// other length than `size` is refused.
    pub fn allocate_buffer(size: usize, data_len: Option<usize>) -> (r: Result<u64, FerroFlowError>)
        ensures
            match r {
                Ok(bytes) => (data_len matches Some(len) ==> len == size) && allocatable(
                    size as nat,
                ) && bytes == size * ELEMENT_BYTES,
                Err(e) => e is BufferError && if data_len matches Some(len) && len != size {
                    e.detail() == "Data size mismatch"@
                } else {
                    !allocatable(size as nat) && e.detail() == "Buffer too large"@
                },
            },
    {
        match data_len {
            Some(len) => {
                if len != size {
                    return Err(FerroFlowError::BufferError(String::from_str("Data size mismatch")));
                }
            },
            None => {},
        }
        match byte_length(size) {
            Some(bytes) => Ok(bytes),
            None => Err(buffer_too_large()),
        }
    }

    /// The number of elements to read back from a buffer of `byte_length`
    /// bytes. It goes by the buffer's own length, whatever shape the caller
    /// has in mind. A count beyond the machine word is refused.
    pub fn read_buffer(byte_length: u64) -> (r: Result<usize, FerroFlowError>)
        ensures
            match r {
                Ok(len) => len == byte_length / ELEMENT_BYTES,
                Err(e) => byte_length / ELEMENT_BYTES > usize::MAX && e is BufferError
                    && e.detail() == "Buffer too large"@,
            },
    {
        let len = byte_length / ELEMENT_BYTES;
        if len > usize::MAX as u64 {
            return Err(buffer_too_large());
        }
        Ok(len as usize)
    }

    /// The launch that adds two buffers of `size` elements.
    pub fn element_wise_add(size: usize) -> (r: Result<Dispatch, FerroFlowError>)
        ensures
            match r {
                Ok(d) => allocatable(size as nat) && d.output_bytes == size * ELEMENT_BYTES
                    && d@ == elementwise_launch(Kernel::ElementWiseAdd, 2, Seq::empty(), size),
                Err(e) => !allocatable(size as nat) && e is BufferError && e.detail()
                    == "Buffer too large"@,
            },
    {
        Self::element_wise(Kernel::ElementWiseAdd, size)
    }

    /// The launch that multiplies two buffers of `size` elements.
    pub fn element_wise_multiply(size: usize) -> (r: Result<Dispatch, FerroFlowError>)
        ensures
            match r {
                Ok(d) => allocatable(size as nat) && d.output_bytes == size * ELEMENT_BYTES
                    && d@ == elementwise_launch(
                    Kernel::ElementWiseMultiply,
                    2,
                    Seq::empty(),
                    size,
                ),
                Err(e) => !allocatable(size as nat) && e is BufferError && e.detail()
                    == "Buffer too large"@,
            },
    {
        Self::element_wise(Kernel::ElementWiseMultiply, size)
    }

    fn element_wise(kernel: Kernel, size: usize) -> (r: Result<Dispatch, FerroFlowError>)
        ensures
            match r {
                Ok(d) => allocatable(size as nat) && d.output_bytes == size * ELEMENT_BYTES
                    && d@ == elementwise_launch(kernel, 2, Seq::empty(), size),
                Err(e) => !allocatable(size as nat) && e is BufferError && e.detail()
                    == "Buffer too large"@,
            },
    {
        match byte_length(size) {
            Some(output_bytes) => Ok(
                Dispatch {
                    kernel,
                    inputs: 2,
                    output_len: size,
                    output_bytes,
                    uniforms: Vec::new(),
                    grid: (size as u64, 1, 1),
                    threadgroup: (ELEMENTWISE_GROUP, 1, 1),
                },
            ),
            None => Err(buffer_too_large()),
        }
    }

    /// The launch that multiplies a buffer of `size` elements by a scalar.
    /// The scalar goes to slot 2, behind the input and the output buffer.
    pub fn scalar_multiply(size: usize) -> (r: Result<Dispatch, FerroFlowError>)
        ensures
            match r {
                Ok(d) => allocatable(size as nat) && d.output_bytes == size * ELEMENT_BYTES
                    && d@ == elementwise_launch(
                    Kernel::ScalarMultiply,
                    1,
                    seq![Binding { slot: 2, value: Uniform::Scalar }],
                    size,
                ),
                Err(e) => !allocatable(size as nat) && e is BufferError && e.detail()
                    == "Buffer too large"@,
            },
    {
        match byte_length(size) {
            Some(output_bytes) => {
                let mut uniforms: Vec<Binding> = Vec::new();
                uniforms.push(Binding { slot: 2, value: Uniform::Scalar });
                assert(uniforms@ =~= seq![Binding { slot: 2, value: Uniform::Scalar }]);
                Ok(
                    Dispatch {
                        kernel: Kernel::ScalarMultiply,
                        inputs: 1,
                        output_len: size,
                        output_bytes,
                        uniforms,
                        grid: (size as u64, 1, 1),
                        threadgroup: (ELEMENTWISE_GROUP, 1, 1),
                    },
                )
            },
            None => Err(buffer_too_large()),
        }
    }

    /// The launch for the product of an `m x k` by a `k x n` matrix.
    pub fn matmul(m: usize, n: usize, k: usize) -> (r: Result<Dispatch, FerroFlowError>)
        ensures
            match launch_refusal(1, m, n, k) {
                None => r matches Ok(d) && d@ == plain_launch(m, n, k) && d.output_bytes == m * n
                    * ELEMENT_BYTES,
                Some(why) => r is Err && why.reported_as(r->Err_0),
            },
    {
        let (output_len, output_bytes) = match result_size(1, m, n, k) {
            Ok(size) => size,
            Err(e) => {
                return Err(e);
            },
        };
        let kernel = if m >= TILE_SIZE && n >= TILE_SIZE && k >= TILE_SIZE {
            Kernel::MatmulTiled
        } else {
            Kernel::Matmul
        };
        Ok(
            Dispatch {
                kernel,
                inputs: 2,
                output_len,
                output_bytes,
                uniforms: dimension_bindings(m, n, k),
                grid: (n as u64, m as u64, 1),
                threadgroup: (TILE_SIZE as u64, TILE_SIZE as u64, 1),
            },
        )
    }

    /// The launch for `batch_size` products of `m x k` by `k x n` matrices.
    pub fn matmul_batched(batch_size: usize, m: usize, n: usize, k: usize) -> (r: Result<
        Dispatch,
        FerroFlowError,
    >)
        ensures
            match launch_refusal(batch_size, m, n, k) {
                None => r matches Ok(d) && d@ == batched_launch(batch_size, m, n, k)
                    && d.output_bytes == batch_size * (m * n) * ELEMENT_BYTES,
                Some(why) => r is Err && why.reported_as(r->Err_0),
            },
    {
        let (output_len, output_bytes) = match result_size(batch_size, m, n, k) {
            Ok(size) => size,
            Err(e) => {
                return Err(e);
            },
        };
        let kernel = if m >= TILE_SIZE && n >= TILE_SIZE && k >= TILE_SIZE {
            Kernel::MatmulBatchedTiled
        } else {
            Kernel::MatmulBatched
        };
        let mut uniforms = dimension_bindings(m, n, k);
        uniforms.push(Binding { slot: 6, value: Uniform::Word(batch_size as u32) });
        Ok(
            Dispatch {
                kernel,
                inputs: 2,
                output_len,
                output_bytes,
                uniforms,
                grid: (n as u64, m as u64, batch_size as u64),
                threadgroup: (TILE_SIZE as u64, TILE_SIZE as u64, 1),
            },
        )
    }

    /// The launch for a product with transposition. The kernel reads a
    /// transposed operand through its indices; no operand is copied.
    pub fn matmul_transposed(
        m: usize,
        n: usize,
        k: usize,
        transpose_a: bool,
        transpose_b: bool,
    ) -> (r: Result<Dispatch, FerroFlowError>)
        ensures
            match launch_refusal(1, m, n, k) {
                None => r matches Ok(d) && d@ == transposed_launch(m, n, k, transpose_a, transpose_b)
                    && d.output_bytes == m * n * ELEMENT_BYTES,
                Some(why) => r is Err && why.reported_as(r->Err_0),
            },
    {
        let (output_len, output_bytes) = match result_size(1, m, n, k) {
            Ok(size) => size,
            Err(e) => {
                return Err(e);
            },
        };
        let kernel = if m >= TILE_SIZE && n >= TILE_SIZE && k >= TILE_SIZE {
            Kernel::MatmulTransposedTiled
        } else {
            Kernel::MatmulTransposed
        };
        let mut uniforms = dimension_bindings(m, n, k);
        uniforms.push(Binding { slot: 6, value: Uniform::Flag(transpose_a) });
        uniforms.push(Binding { slot: 7, value: Uniform::Flag(transpose_b) });
        Ok(
            Dispatch {
                kernel,
                inputs: 2,
                output_len,
                output_bytes,
                uniforms,
                grid: (n as u64, m as u64, 1),
                threadgroup: (TILE_SIZE as u64, TILE_SIZE as u64, 1),
            },
        )
    }

    /// The launch for a batch of products with transposition. The library
    /// has no kernel that does both: without transposition this is the
    /// launch of [`MetalBackend::matmul_batched`], with it the operation is
    /// refused.
    pub fn matmul_transposed_batched(
        batch_size: usize,
        m: usize,
        n: usize,
        k: usize,
        transpose_a: bool,
        transpose_b: bool,
    ) -> (r: Result<Dispatch, FerroFlowError>)
        ensures
            if transpose_a || transpose_b {
                r is Err && r->Err_0 is InvalidOperation && r->Err_0.detail()
                    == "No kernel multiplies transposed batches"@
            } else {
                match launch_refusal(batch_size, m, n, k) {
                    None => r matches Ok(d) && d@ == batched_launch(batch_size, m, n, k)
                        && d.output_bytes == batch_size * (m * n) * ELEMENT_BYTES,
                    Some(why) => r is Err && why.reported_as(r->Err_0),
                }
            },
    {
        if transpose_a || transpose_b {
            return Err(
                FerroFlowError::InvalidOperation(
                    String::from_str("No kernel multiplies transposed batches"),
                ),
            );
        }
        Self::matmul_batched(batch_size, m, n, k)
    }
}

/// What the host does next while a context is being built.
#[derive(Clone, Copy, Debug, PartialEq, Eq)]
pub enum InitStep {
    /// Acquire the default device.
    AcquireDevice,
    /// Create the command queue of the device.
    CreateQueue,
    /// Compile the kernel library.
    CompileLibrary,
    /// Build the pipeline of one kernel.
    BuildPipeline(Kernel),
    /// Nothing: the context is complete.
    Done,
}

/// The number of steps before the first pipeline is built.
pub const STEPS_BEFORE_PIPELINES: usize = 3;

/// The number of steps that build a context.
pub const INIT_STEPS: usize = 12;

/// The step that follows `completed` steps.
pub open spec fn step_after(completed: nat) -> InitStep {
    if completed == 0 {
        InitStep::AcquireDevice
    } else if completed == 1 {
        InitStep::CreateQueue
    } else if completed == 2 {
        InitStep::CompileLibrary
    } else {
        match Kernel::spec_at((completed - STEPS_BEFORE_PIPELINES) as nat) {
            Some(kernel) => InitStep::BuildPipeline(kernel),
            None => InitStep::Done,
        }
    }
}

/// The progress of building a GPU context: a device, its command queue, the
/// compiled kernel library, then one pipeline for every kernel, in the
/// order of [`Kernel`]. The first step that fails ends the construction.
#[derive(Debug)]
pub struct MetalContext {
    completed: usize,
}

impl MetalContext {
    /// The number of steps that have succeeded.
    pub closed spec fn completed(self) -> nat {
        self.completed as nat
    }

    #[verifier::type_invariant]
    spec fn within_steps(self) -> bool {
        self.completed <= INIT_STEPS
    }

    /// A context of which nothing has been built yet.
    pub fn new() -> (ctx: Self)
        ensures
            ctx.completed() == 0,
    {
        MetalContext { completed: 0 }
    }

    /// The step the host has to carry out next.
    pub fn next_step(&self) -> (step: InitStep)
        ensures
            step == step_after(self.completed()),
            self.completed() <= INIT_STEPS,
            step is Done <==> self.completed() == INIT_STEPS,
    {
        proof {
            use_type_invariant(self);
        }
        if self.completed == 0 {
            InitStep::AcquireDevice
        } else if self.completed == 1 {
            InitStep::CreateQueue
        } else if self.completed == 2 {
            InitStep::CompileLibrary
        } else {
            match Kernel::at(self.completed - STEPS_BEFORE_PIPELINES) {
                Some(kernel) => InitStep::BuildPipeline(kernel),
                None => InitStep::Done,
            }
        }
    }

    /// Whether every step has succeeded: the context can launch kernels.
    pub fn is_ready(&self) -> (ready: bool)
        ensures
            ready == (self.completed() == INIT_STEPS),
    {
        self.completed == INIT_STEPS
    }

    /// Takes the outcome of the step that [`MetalContext::next_step`]
    /// named: `None` where it succeeded, the reason where it failed.
    ///
    /// A success moves on to the next step. A context that cannot be set up
    /// at all is an initialization error: that is so where no device is
    /// found, and where the kernel library does not compile, which is
    /// reported with the compiler's reason. Any other failure is an error of
    /// the device, with the reason as its detail. A complete context stays
    /// as it is.
    pub fn advance(self, failure: Option<String>) -> (r: Result<Self, FerroFlowError>)
        ensures
            match failure {
                None => r matches Ok(next) && next.completed() == if self.completed()
                    == INIT_STEPS {
                    self.completed()
                } else {
                    self.completed() + 1
                },
                Some(reason) => r is Err && match step_after(self.completed()) {
                    InitStep::AcquireDevice => r->Err_0 is InitError && r->Err_0.detail()
                        == "No Metal device found"@,
                    InitStep::CompileLibrary => r->Err_0 == FerroFlowError::InitError(reason),
                    _ => r->Err_0 == FerroFlowError::MetalError(reason),
                },
            },
    {
        proof {
            use_type_invariant(&self);
        }
        match failure {
            None => {
                if self.completed == INIT_STEPS {
                    Ok(self)
                } else {
                    Ok(MetalContext { completed: self.completed + 1 })
                }
            },
            Some(reason) => match self.next_step() {
                InitStep::AcquireDevice => Err(
                    FerroFlowError::InitError(String::from_str("No Metal device found")),
                ),
                InitStep::CompileLibrary => Err(FerroFlowError::InitError(reason)),
                _ => Err(FerroFlowError::MetalError(reason)),
            },
        }
    }
}

} // verus!
