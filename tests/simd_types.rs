use ta_core::simd::{CpuFeatures, DispatchTable, Lanes, SimdLevel, TargetArch};

#[test]
fn test_lanes_constants() {
    assert_eq!(Lanes::SCALAR, 1);
    assert_eq!(Lanes::AVX2, 4);
    assert_eq!(Lanes::AVX512, 8);
    assert_eq!(Lanes::NEON, 2);
    assert_eq!(Lanes::SIMD128, 2);
}

#[test]
fn test_simd_level_display() {
    assert_eq!(SimdLevel::Scalar.to_string(), "Scalar");
    assert_eq!(SimdLevel::Avx2.to_string(), "AVX2");
    assert_eq!(SimdLevel::Avx512.to_string(), "AVX-512");
    assert_eq!(SimdLevel::Neon.to_string(), "NEON");
    assert_eq!(SimdLevel::Simd128.to_string(), "SIMD128");
}

#[test]
fn test_simd_level_lanes() {
    assert_eq!(SimdLevel::Scalar.lanes(), 1);
    assert_eq!(SimdLevel::Avx2.lanes(), 4);
    assert_eq!(SimdLevel::Avx512.lanes(), 8);
    assert_eq!(SimdLevel::Neon.lanes(), 2);
    assert_eq!(SimdLevel::Simd128.lanes(), 2);
}

#[test]
fn test_simd_level_width_bits() {
    assert_eq!(SimdLevel::Scalar.width_bits(), 64);
    assert_eq!(SimdLevel::Avx2.width_bits(), 256);
    assert_eq!(SimdLevel::Avx512.width_bits(), 512);
    assert_eq!(SimdLevel::Neon.width_bits(), 128);
    assert_eq!(SimdLevel::Simd128.width_bits(), 128);
}

#[test]
fn test_simd128_not_available() {
    println!("SIMD128 tests are skipped - not on WASM32 or SIMD not enabled");
}

fn x86(avx512f: bool, avx2: bool) -> CpuFeatures {
    CpuFeatures {
        arch: TargetArch::X86_64,
        avx512f,
        avx2,
        simd128: false,
    }
}

#[test]
fn detect_prefers_the_widest_x86_extension() {
    assert_eq!(SimdLevel::detect(&x86(true, true)), SimdLevel::Avx512);
    assert_eq!(SimdLevel::detect(&x86(true, false)), SimdLevel::Avx512);
    assert_eq!(SimdLevel::detect(&x86(false, true)), SimdLevel::Avx2);
    assert_eq!(SimdLevel::detect(&x86(false, false)), SimdLevel::Scalar);
}

#[test]
fn detect_on_other_architectures() {
    let arm = CpuFeatures {
        arch: TargetArch::Aarch64,
        avx512f: false,
        avx2: false,
        simd128: false,
    };
    assert_eq!(SimdLevel::detect(&arm), SimdLevel::Neon);
    let wasm = CpuFeatures {
        arch: TargetArch::Wasm32,
        avx512f: false,
        avx2: false,
        simd128: true,
    };
    assert_eq!(SimdLevel::detect(&wasm), SimdLevel::Simd128);
    let plain_wasm = CpuFeatures {
        simd128: false,
        ..wasm
    };
    assert_eq!(SimdLevel::detect(&plain_wasm), SimdLevel::Scalar);
    let other = CpuFeatures {
        arch: TargetArch::Other,
        avx512f: true,
        avx2: true,
        simd128: true,
    };
    assert_eq!(SimdLevel::detect(&other), SimdLevel::Scalar);
}

#[test]
fn dispatch_table_uses_one_family() {
    let table = DispatchTable::for_cpu(&x86(false, true));
    assert_eq!(table.sum_level(), SimdLevel::Avx2);
    assert_eq!(table.dot_product_level(), SimdLevel::Avx2);
    let again = DispatchTable::for_cpu(&x86(false, true));
    assert_eq!(again.sum_level(), table.sum_level());
    let scalar = DispatchTable::scalar();
    assert_eq!(scalar.sum_level(), SimdLevel::Scalar);
    assert_eq!(scalar.dot_product_level(), SimdLevel::Scalar);
    let neon = DispatchTable::new(SimdLevel::Neon);
    assert_eq!(neon.dot_product_level(), SimdLevel::Neon);
}
