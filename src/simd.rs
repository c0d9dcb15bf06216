//! Instruction-set families, their geometry, and the one-time choice of kernels.
use crate::error::{Result, TalibError};
use crate::scalar::{self, dot_spec, rolling_spec, sum_spec};
use crate::traits::Sample;
use vstd::prelude::*;

verus! {

/// Width in bits of the numbers the kernels work on.
pub const SAMPLE_BITS: usize = 64;

/// An instruction-set family that a set of kernels is written for.
#[derive(Debug, Clone, Copy, PartialEq, Eq, Hash, Structural)]
#[non_exhaustive]
pub enum SimdLevel {
    /// No vector unit: one number at a time.
    Scalar,
    /// x86-64 256-bit vectors.
    Avx2,
    /// x86-64 512-bit vectors.
    Avx512,
    /// AArch64 128-bit vectors.
    Neon,
    /// WebAssembly 128-bit vectors.
    Simd128,
}

/// How many numbers one vector operation of `level` handles.
pub open spec fn lanes_of(level: SimdLevel) -> nat {
    match level {
        SimdLevel::Scalar => 1,
        SimdLevel::Avx2 => 4,
        SimdLevel::Avx512 => 8,
        SimdLevel::Neon => 2,
        SimdLevel::Simd128 => 2,
    }
}

/// The name by which a family is shown to people.
pub open spec fn level_name(level: SimdLevel) -> Seq<char> {
    match level {
        SimdLevel::Scalar => "Scalar"@,
        SimdLevel::Avx2 => "AVX2"@,
        SimdLevel::Avx512 => "AVX-512"@,
        SimdLevel::Neon => "NEON"@,
        SimdLevel::Simd128 => "SIMD128"@,
    }
}

/// The processor architecture a program was built for.
#[derive(Debug, Clone, Copy, PartialEq, Eq, Hash, Structural)]
pub enum TargetArch {
    /// x86-64.
    X86_64,
    /// 64-bit ARM.
    Aarch64,
    /// 32-bit WebAssembly.
    Wasm32,
    /// Any other architecture.
    Other,
}

/// What a probe of the running processor established.
///
/// A flag is true only where the probe proved that the extension is present.
#[derive(Debug, Clone, Copy, PartialEq, Eq, Hash, Structural)]
pub struct CpuFeatures {
    /// The architecture of the build.
    pub arch: TargetArch,
    /// AVX-512 Foundation was detected (x86-64).
    pub avx512f: bool,
    /// AVX2 was detected (x86-64).
    pub avx2: bool,
    /// WebAssembly 128-bit SIMD was enabled for the build.
    pub simd128: bool,
}

/// Whether kernels of `level` may run on a processor described by `cpu`.
pub open spec fn supports(cpu: CpuFeatures, level: SimdLevel) -> bool {
    match level {
        SimdLevel::Scalar => true,
        SimdLevel::Avx512 => cpu.arch == TargetArch::X86_64 && cpu.avx512f,
        SimdLevel::Avx2 => cpu.arch == TargetArch::X86_64 && cpu.avx2,
        SimdLevel::Neon => cpu.arch == TargetArch::Aarch64,
        SimdLevel::Simd128 => cpu.arch == TargetArch::Wasm32 && cpu.simd128,
    }
}

/// Preference among families: higher is more capable and is chosen first.
pub open spec fn priority(level: SimdLevel) -> nat {
    match level {
        SimdLevel::Scalar => 0,
        SimdLevel::Neon => 1,
        SimdLevel::Simd128 => 1,
        SimdLevel::Avx2 => 2,
        SimdLevel::Avx512 => 3,
    }
}

/// The family chosen for `cpu`: on x86-64 AVX-512, then AVX2, then scalar; on AArch64
/// NEON, which every such processor has; on WebAssembly SIMD128 where it was enabled;
/// scalar everywhere else.
pub open spec fn best_level(cpu: CpuFeatures) -> SimdLevel {
    match cpu.arch {
        TargetArch::X86_64 => if cpu.avx512f {
            SimdLevel::Avx512
        } else if cpu.avx2 {
            SimdLevel::Avx2
        } else {
            SimdLevel::Scalar
        },
        TargetArch::Aarch64 => SimdLevel::Neon,
        TargetArch::Wasm32 => if cpu.simd128 {
            SimdLevel::Simd128
        } else {
            SimdLevel::Scalar
        },
        TargetArch::Other => SimdLevel::Scalar,
    }
}

impl SimdLevel {
    /// The most capable family that `cpu` supports.
    pub fn detect(cpu: &CpuFeatures) -> (r: SimdLevel)
        ensures
            r == best_level(*cpu),
            supports(*cpu, r),
            forall|l: SimdLevel| supports(*cpu, l) ==> priority(l) <= priority(r),
    {
        match cpu.arch {
            TargetArch::X86_64 => {
                if cpu.avx512f {
                    SimdLevel::Avx512
                } else if cpu.avx2 {
                    SimdLevel::Avx2
                } else {
                    SimdLevel::Scalar
                }
            },
            TargetArch::Aarch64 => SimdLevel::Neon,
            TargetArch::Wasm32 => {
                if cpu.simd128 {
                    SimdLevel::Simd128
                } else {
                    SimdLevel::Scalar
                }
            },
            TargetArch::Other => SimdLevel::Scalar,
        }
    }

    /// How many numbers one vector operation of this family handles.
    pub fn lanes(&self) -> (r: usize)
        ensures
            r as nat == lanes_of(*self),
    {
        match self {
            SimdLevel::Scalar => Lanes::SCALAR,
            SimdLevel::Avx2 => Lanes::AVX2,
            SimdLevel::Avx512 => Lanes::AVX512,
            SimdLevel::Neon => Lanes::NEON,
            SimdLevel::Simd128 => Lanes::SIMD128,
        }
    }

    /// The width in bits of one vector of this family.
    pub fn width_bits(&self) -> (r: usize)
        ensures
            r as nat == lanes_of(*self) * SAMPLE_BITS,
    {
        self.lanes() * SAMPLE_BITS
    }

    /// The name by which this family is shown to people.
    pub fn to_string(&self) -> (r: String)
        ensures
            r@ == level_name(*self),
    {
        let name = match self {
            SimdLevel::Scalar => "Scalar",
            SimdLevel::Avx2 => "AVX2",
            SimdLevel::Avx512 => "AVX-512",
            SimdLevel::Neon => "NEON",
            SimdLevel::Simd128 => "SIMD128",
        };
        String::from_str(name)
    }
}

/// Lane counts of each family, for 64-bit numbers.
#[derive(Debug, Clone, Copy)]
pub struct Lanes;

impl Lanes {
    /// Lanes of the scalar family.
    pub const SCALAR: usize = 1;

    /// Lanes of AVX2.
    pub const AVX2: usize = 4;

    /// Lanes of AVX-512.
    pub const AVX512: usize = 8;

    /// Lanes of NEON.
    pub const NEON: usize = 2;

    /// Lanes of WebAssembly SIMD128.
    pub const SIMD128: usize = 2;
}

/// The kernels chosen for this process: one family for `sum` and one for `dot_product`.
///
/// Both entries always name the same family.
#[derive(Debug, Clone, Copy)]
pub struct DispatchTable {
    sum: SimdLevel,
    dot_product: SimdLevel,
}

impl DispatchTable {
    /// Both kernels come from one family.
    #[verifier::type_invariant]
    spec fn same_family(self) -> bool {
        self.sum == self.dot_product
    }

    /// The family of this table's kernels.
    pub closed spec fn level_spec(self) -> SimdLevel {
        self.sum
    }

    /// A table whose kernels both belong to `level`.
    pub fn new(level: SimdLevel) -> (r: DispatchTable)
        ensures
            r.level_spec() == level,
    {
        DispatchTable { sum: level, dot_product: level }
    }

    /// The portable table, usable on every processor.
    pub fn scalar() -> (r: DispatchTable)
        ensures
            r.level_spec() == SimdLevel::Scalar,
    {
        DispatchTable::new(SimdLevel::Scalar)
    }

    /// The table for a processor described by `cpu`: the most capable family it supports.
    pub fn for_cpu(cpu: &CpuFeatures) -> (r: DispatchTable)
        ensures
            r.level_spec() == best_level(*cpu),
    {
        DispatchTable::new(SimdLevel::detect(cpu))
    }

    /// The family of the `sum` kernel.
    pub fn sum_level(&self) -> (r: SimdLevel)
        ensures
            r == self.level_spec(),
    {
        self.sum
    }

    /// The family of the `dot_product` kernel.
    pub fn dot_product_level(&self) -> (r: SimdLevel)
        ensures
            r == self.level_spec(),
    {
        proof {
            use_type_invariant(self);
        }
        self.dot_product
    }
}

/// The total of `data`. The family argument is accepted for compatibility; the portable
/// kernel computes the result.
pub fn sum_with_level<T: Sample>(data: &[T], _level: SimdLevel) -> (r: T)
    ensures
        r == sum_spec(data@),
{
    scalar::sum(data)
}

/// The sum of the element-wise products of `a` and `b`; inputs of different lengths are
/// rejected. The family argument is accepted for compatibility; the portable kernel
/// computes the result.
pub fn dot_product_with_level<T: Sample>(a: &[T], b: &[T], _level: SimdLevel) -> (r: Result<T>)
    ensures
        a@.len() != b@.len() <==> r is Err,
        r matches Err(e) ==> (e matches TalibError::InvalidInput { message: m } && m@
            == "Dot product requires vectors of equal length"@),
        r matches Ok(v) ==> v == dot_spec(a@, b@),
{
    scalar::dot_product(a, b)
}

/// The totals of every window of `window_size` consecutive elements of `data`, in order.
/// The family argument is accepted for compatibility; the portable kernel computes the
/// result.
pub fn rolling_sum<T: Sample>(data: &[T], window_size: usize, _level: SimdLevel) -> (r: Vec<T>)
    requires
        1 <= window_size <= data@.len(),
    ensures
        r@ == rolling_spec(data@, window_size as nat),
{
    scalar::rolling_sum(data, window_size)
}

} // verus!
