use rvfm::gpu::shader::{ResourceMap, ShaderCardinality, ShaderConstantAssignment, ShaderInputType};
use rvfm::gpu::shader_constants::{apply_constant_write, apply_constant_writes, constant_writes, ConstantWrite};
use rvfm::gpu::shading_unit::ShadingUnitConstantArray;

fn buffers() -> Vec<Vec<u8>> {
    let mut b = vec![Vec::new(); 256];
    b[4] = vec![0xFF, 0x80, 0x01, 0x02, 0x03, 0x04, 0x05, 0x06];
    b
}

#[test]
fn writes_of_integer_assignments() {
    let mut rm = ResourceMap::identity();
    rm.buffer[1] = 4;
    let constants = [
        ShaderConstantAssignment { constant: 3, source_buffer: 1, offset: 0, t: ShaderInputType::IntFromI8, c: ShaderCardinality::V2 },
        ShaderConstantAssignment { constant: 9, source_buffer: 1, offset: 2, t: ShaderInputType::UIntFromU32, c: ShaderCardinality::Scalar },
        ShaderConstantAssignment { constant: 0, source_buffer: 1, offset: 6, t: ShaderInputType::F32FromU16, c: ShaderCardinality::V2 },
    ];
    let w = constant_writes(&constants, &rm, &buffers());
    assert_eq!(w.len(), 5);
    assert_eq!(w[0], ConstantWrite { constant: 3, component: Some(0), t: ShaderInputType::IntFromI8, raw: 0xFF, word: Some(0xFFFF_FFFF) });
    assert_eq!(w[1], ConstantWrite { constant: 3, component: Some(1), t: ShaderInputType::IntFromI8, raw: 0x80, word: Some(0xFFFF_FF80) });
    assert_eq!(w[2], ConstantWrite { constant: 9, component: None, t: ShaderInputType::UIntFromU32, raw: 0x0403_0201, word: Some(0x0403_0201) });
    // Sixteen-bit elements are read with their first byte high; past the end an element is 0.
    assert_eq!(w[3], ConstantWrite { constant: 0, component: Some(0), t: ShaderInputType::F32FromU16, raw: 0x0506, word: None });
    assert_eq!(w[4].raw, 0);
}

#[test]
fn applying_writes() {
    let mut c = ShadingUnitConstantArray::new();
    let w = ConstantWrite { constant: 7, component: Some(2), t: ShaderInputType::UIntFromU8, raw: 5, word: Some(5) };
    apply_constant_write(&mut c, &w, 5);
    assert_eq!(c.vector_constant_array[7], [0, 0, 5, 0]);
    let w = ConstantWrite { constant: 7, component: None, t: ShaderInputType::UIntFromU8, raw: 6, word: Some(6) };
    apply_constant_write(&mut c, &w, 6);
    assert_eq!(c.scalar_constant_array[7], 6);
    assert_eq!(c.vector_constant_array[7], [0, 0, 5, 0]);
}

#[test]
fn applying_writes_in_order() {
    let mut c = ShadingUnitConstantArray::new();
    let t = ShaderInputType::UIntFromU32;
    let writes = vec![
        ConstantWrite { constant: 3, component: Some(0), t, raw: 1, word: Some(1) },
        ConstantWrite { constant: 3, component: Some(3), t, raw: 2, word: Some(2) },
        ConstantWrite { constant: 4, component: None, t, raw: 3, word: Some(3) },
        ConstantWrite { constant: 3, component: Some(0), t, raw: 9, word: Some(9) },
    ];
    apply_constant_writes(&mut c, &writes, &vec![10, 20, 30, 40]);
    assert_eq!(c.vector_constant_array[3], [40, 0, 0, 20]);
    assert_eq!(c.scalar_constant_array[4], 30);
    assert_eq!(c.scalar_constant_array[3], 0);
}
